//! The workspace: a codebase together with the source files of an
//! incremental compiler, and the errors that working with them gives.

use vstd::prelude::*;
use vstd::string::StringExecFns;

verus! {

/// Simple source file representation
#[derive(Debug, Clone, PartialEq, Eq, Hash)]
pub struct SourceFile {
    pub path: String,
    pub content: String,
}

/// Workspace errors. Each holds the text of what went wrong.
#[derive(Debug)]
pub enum WorkspaceError {
    CodebaseError(String),
    CompilationError(String),
    IncrementalError(String),
    IoError(String),
    ParseError(String),
}

impl WorkspaceError {
    /// The text that describes this error: the kind of error, a colon and
    /// what the error holds.
    pub open spec fn message_text(&self) -> Seq<char> {
        match self {
            WorkspaceError::CodebaseError(text) => "Codebase error: "@ + text@,
            WorkspaceError::CompilationError(text) => "Compilation error: "@ + text@,
            WorkspaceError::IncrementalError(text) => "Incremental compilation error: "@ + text@,
            WorkspaceError::IoError(text) => "IO error: "@ + text@,
            WorkspaceError::ParseError(text) => "Parse error: "@ + text@,
        }
    }

    /// The text that describes this error.
    pub fn message(&self) -> (text: String)
        ensures
            text@ == self.message_text(),
    {
        match self {
            WorkspaceError::CodebaseError(text) => "Codebase error: ".to_owned().concat(
                text.as_str(),
            ),
            WorkspaceError::CompilationError(text) => "Compilation error: ".to_owned().concat(
                text.as_str(),
            ),
            WorkspaceError::IncrementalError(text) => "Incremental compilation error: ".to_owned().concat(
            text.as_str()),
            WorkspaceError::IoError(text) => "IO error: ".to_owned().concat(text.as_str()),
            WorkspaceError::ParseError(text) => "Parse error: ".to_owned().concat(text.as_str()),
        }
    }
}

/// How a test ended: with `true`, with `false`, with another value (held
/// as its text), or with an error of the evaluation (held as its text).
#[derive(Debug)]
pub enum TestOutcome {
    True,
    False,
    NonBoolean(String),
    Failed(String),
}

/// What `test_verdict` answers to `outcome`.
pub open spec fn verdict_text(outcome: TestOutcome) -> Result<Seq<char>, Seq<char>> {
    match outcome {
        TestOutcome::True => Ok("Test passed"@),
        TestOutcome::False => Err("Test failed"@),
        TestOutcome::NonBoolean(value) => Err("Test returned non-boolean value: "@ + value@),
        TestOutcome::Failed(error) => Err("Test error: "@ + error@),
    }
}

/// The verdict on a test that ended with `outcome`: a test passes if and
/// only if it ended with `true`; every other outcome is a compilation
/// error that says why.
pub fn test_verdict(outcome: TestOutcome) -> (res: Result<String, WorkspaceError>)
    ensures
        match verdict_text(outcome) {
            Ok(text) => res matches Ok(passed) && passed@ == text,
            Err(text) => res matches Err(WorkspaceError::CompilationError(failed)) && failed@
                == text,
        },
{
    match outcome {
        TestOutcome::True => Ok("Test passed".to_owned()),
        TestOutcome::False => Err(WorkspaceError::CompilationError("Test failed".to_owned())),
        TestOutcome::NonBoolean(value) => Err(
            WorkspaceError::CompilationError(
                "Test returned non-boolean value: ".to_owned().concat(value.as_str()),
            ),
        ),
        TestOutcome::Failed(error) => Err(
            WorkspaceError::CompilationError("Test error: ".to_owned().concat(error.as_str())),
        ),
    }
}

/// Where a workspace takes its codebase from when it opens a directory.
#[derive(Clone, Copy, Debug, PartialEq, Eq, Structural)]
pub enum CodebaseSource {
    /// The file in the VBin format.
    VBin,
    /// The file in the older binary format.
    Bin,
    /// No file: a new, empty codebase.
    Fresh,
}

/// The source of the codebase of a directory: the VBin file where there
/// is one, else the binary file where there is one, else a new codebase.
pub fn codebase_source(vbin_exists: bool, bin_exists: bool) -> (source: CodebaseSource)
    ensures
        source == (if vbin_exists {
            CodebaseSource::VBin
        } else if bin_exists {
            CodebaseSource::Bin
        } else {
            CodebaseSource::Fresh
        }),
{
    if vbin_exists {
        CodebaseSource::VBin
    } else if bin_exists {
        CodebaseSource::Bin
    } else {
        CodebaseSource::Fresh
    }
}

/// Whether some file among `sources` has path `path`.
pub open spec fn has_file(sources: Seq<SourceFile>, path: Seq<char>) -> bool {
    exists|i: int| 0 <= i < sources.len() && (#[trigger] sources[i]).path@ == path
}

/// The position of a file among `sources` that has path `path`.
pub open spec fn file_position(sources: Seq<SourceFile>, path: Seq<char>) -> int {
    choose|i: int| 0 <= i < sources.len() && (#[trigger] sources[i]).path@ == path
}

/// Whether no two files among `sources` share a path.
pub open spec fn distinct_files(sources: Seq<SourceFile>) -> bool {
    forall|i: int, j: int|
        0 <= i < j < sources.len() ==> (#[trigger] sources[i]).path@ != (#[trigger] sources[j]).path@
}

/// Where paths are distinct, a file is the one that `file_position` picks
/// for its path.
proof fn lemma_file_position_unique(sources: Seq<SourceFile>, i: int)
    requires
        distinct_files(sources),
        0 <= i < sources.len(),
    ensures
        has_file(sources, sources[i].path@),
        file_position(sources, sources[i].path@) == i,
{
}

/// The position of the file with path `path` among `sources`, if there is one.
fn find_file(sources: &Vec<SourceFile>, path: &String) -> (res: Option<usize>)
    ensures
        res is Some <==> has_file(sources@, path@),
        res matches Some(i) ==> i < sources.len() && sources[i as int].path@ == path@,
{
    let n = sources.len();
    let mut i: usize = 0;
    while i < n
        invariant
            n == sources.len(),
            i <= n,
            forall|j: int| 0 <= j < i ==> (#[trigger] sources[j]).path@ != path@,
        decreases n - i,
    {
        if sources[i].path == *path {
            return Some(i);
        }
        i += 1;
    }
    None
}

/// Incremental compiler for XS language: the source files it has been
/// given, each path with its latest content.
#[derive(Debug)]
pub struct IncrementalCompiler {
    sources: Vec<SourceFile>,
}

impl View for IncrementalCompiler {
    type V = Map<Seq<char>, Seq<char>>;

    closed spec fn view(&self) -> Map<Seq<char>, Seq<char>> {
        Map::new(
            |path: Seq<char>| has_file(self.sources@, path),
            |path: Seq<char>| self.sources@[file_position(self.sources@, path)].content@,
        )
    }
}

impl IncrementalCompiler {
    #[verifier::type_invariant]
    spec fn well_formed(self) -> bool {
        distinct_files(self.sources@)
    }

    /// Create a new incremental compiler
    pub fn new() -> (compiler: Self)
        ensures
            compiler@ == Map::<Seq<char>, Seq<char>>::empty(),
    {
        Self { sources: Vec::new() }
    }

    /// Set file content
    pub fn set_file_content(&mut self, path: String, content: String)
        ensures
            final(self)@ == old(self)@.insert(path@, content@),
    {
        proof {
            use_type_invariant(&*self);
        }
        let mut sources: Vec<SourceFile> = Vec::new();
        std::mem::swap(&mut sources, &mut self.sources);
        let ghost before = sources@;
        let ghost key = path@;
        let ghost text = content@;
        let ghost at: int;
        match find_file(&sources, &path) {
            Some(i) => {
                sources[i] = SourceFile { path, content };
                proof {
                    at = i as int;
                }
            },
            None => {
                proof {
                    at = sources.len() as int;
                }
                sources.push(SourceFile { path, content });
            },
        }
        let ghost after = sources@;
        assert(after[at].path@ == key && after[at].content@ == text);
        assert(distinct_files(after));
        self.sources = sources;
        proof {
            assert forall|k: Seq<char>| has_file(after, k) <==> (k == key || has_file(
                before,
                k,
            )) by {
                if has_file(before, k) && k != key {
                    let j = file_position(before, k);
                    assert(after[j].path@ == k);
                }
            }
            assert forall|k: Seq<char>| has_file(after, k) implies after[file_position(
                after,
                k,
            )].content@ == old(self)@.insert(key, text)[k] by {
                let j = file_position(after, k);
                lemma_file_position_unique(after, j);
                if k == key {
                    lemma_file_position_unique(after, at);
                } else {
                    lemma_file_position_unique(before, j);
                }
            }
        }
    }

    /// The content that the file at `path` was last given, if it was
    /// given any.
    pub fn file_content(&self, path: &String) -> (res: Option<&String>)
        ensures
            res is Some <==> self@.contains_key(path@),
            res matches Some(content) ==> content@ == self@[path@],
    {
        proof {
            use_type_invariant(self);
        }
        match find_file(&self.sources, path) {
            Some(i) => {
                proof {
                    lemma_file_position_unique(self.sources@, i as int);
                }
                Some(&self.sources[i].content)
            },
            None => None,
        }
    }
}

impl Default for IncrementalCompiler {
    fn default() -> (compiler: Self)
        ensures
            compiler@ == Map::<Seq<char>, Seq<char>>::empty(),
    {
        Self::new()
    }
}

/// Combined workspace for XS language development: a codebase of type `C`
/// and an incremental compiler.
pub struct Workspace<C> {
    codebase: C,
    compiler: IncrementalCompiler,
}

impl<C> Workspace<C> {
    /// The codebase of this workspace.
    pub closed spec fn codebase_value(&self) -> C {
        self.codebase
    }

    /// The incremental compiler of this workspace.
    pub closed spec fn compiler_value(&self) -> IncrementalCompiler {
        self.compiler
    }

    /// Create a new workspace around `codebase`, with a compiler that
    /// has no source files yet.
    pub fn new(codebase: C) -> (workspace: Self)
        ensures
            workspace.codebase_value() == codebase,
            workspace.compiler_value()@ == Map::<Seq<char>, Seq<char>>::empty(),
    {
        Self { codebase, compiler: IncrementalCompiler::new() }
    }

    /// Get a reference to the codebase
    pub fn codebase(&self) -> (codebase: &C)
        ensures
            *codebase == self.codebase_value(),
    {
        &self.codebase
    }

    /// Get a mutable reference to the codebase
    pub fn codebase_mut(&mut self) -> (codebase: &mut C)
        ensures
            *codebase == old(self).codebase_value(),
            final(self).codebase_value() == *final(codebase),
            final(self).compiler_value() == old(self).compiler_value(),
    {
        &mut self.codebase
    }

    /// Get a reference to the incremental compiler
    pub fn compiler(&self) -> (compiler: &IncrementalCompiler)
        ensures
            *compiler == self.compiler_value(),
    {
        &self.compiler
    }

    /// Get a mutable reference to the incremental compiler
    pub fn compiler_mut(&mut self) -> (compiler: &mut IncrementalCompiler)
        ensures
            *compiler == old(self).compiler_value(),
            final(self).compiler_value() == *final(compiler),
            final(self).codebase_value() == old(self).codebase_value(),
    {
        &mut self.compiler
    }
}

} // verus!
