//! Namespace paths, definition paths and the store that maps a definition
//! path to the content hash of the definition found there.

use crate::hash::DefinitionHash;
use vstd::prelude::*;
use vstd::string::StrSliceExecFns;

verus! {

/// The views of a sequence of strings, one for one.
pub open spec fn string_views(v: Seq<String>) -> Seq<Seq<char>> {
    Seq::new(v.len(), |i: int| v[i]@)
}

/// The segments of dotted text: reading from the left, a dot closes the
/// current segment and opens an empty one, and any other character extends
/// the current segment. Text without a dot is one segment, itself.
pub open spec fn split_dots(text: Seq<char>) -> Seq<Seq<char>>
    decreases text.len(),
{
    if text.len() == 0 {
        seq![Seq::empty()]
    } else {
        let before = split_dots(text.drop_last());
        if text.last() == '.' {
            before.push(Seq::empty())
        } else {
            before.update(before.len() - 1, before.last().push(text.last()))
        }
    }
}

/// Dotted text always has at least one segment.
pub proof fn lemma_split_dots_nonempty(text: Seq<char>)
    ensures
        split_dots(text).len() >= 1,
    decreases text.len(),
{
    if text.len() > 0 {
        lemma_split_dots_nonempty(text.drop_last());
    }
}

/// `segments` written out with a dot between each two neighbours.
pub open spec fn join_dots(segments: Seq<Seq<char>>) -> Seq<char>
    decreases segments.len(),
{
    if segments.len() == 0 {
        Seq::empty()
    } else if segments.len() == 1 {
        segments[0]
    } else {
        join_dots(segments.drop_last()) + seq!['.'] + segments.last()
    }
}

/// Whether no segment holds a dot.
pub open spec fn dot_free(segments: Seq<Seq<char>>) -> bool {
    forall|i: int, j: int|
        0 <= i < segments.len() && 0 <= j < segments[i].len() ==> #[trigger] segments[i][j] != '.'
}

/// Splitting loses nothing: the segments of dotted text hold no dot, and
/// joined with dots they are the text again.
pub proof fn law_split_dots_then_join(text: Seq<char>)
    ensures
        dot_free(split_dots(text)),
        join_dots(split_dots(text)) == text,
    decreases text.len(),
{
    if text.len() > 0 {
        let shorter = text.drop_last();
        let before = split_dots(shorter);
        let after = split_dots(text);
        lemma_split_dots_nonempty(shorter);
        law_split_dots_then_join(shorter);
        if text.last() == '.' {
            assert(after.drop_last() =~= before);
        } else if before.len() > 1 {
            assert(after.drop_last() =~= before.drop_last());
            assert(join_dots(after) =~= join_dots(before).push(text.last()));
        }
    }
}

/// Splitting is the only way back: segments without dots, at least one
/// of them, are what their joined text splits into.
pub proof fn law_join_dots_then_split(segments: Seq<Seq<char>>)
    requires
        segments.len() > 0,
        dot_free(segments),
    ensures
        split_dots(join_dots(segments)) == segments,
    decreases segments.len(), segments.last().len(),
{
    let text = join_dots(segments);
    let tail = segments.last();
    if tail.len() > 0 {
        let shorter = segments.update(segments.len() - 1, tail.drop_last());
        assert(dot_free(shorter));
        law_join_dots_then_split(shorter);
        if segments.len() > 1 {
            assert(shorter.drop_last() =~= segments.drop_last());
        }
        assert(text.drop_last() =~= join_dots(shorter));
        assert(tail =~= tail.drop_last().push(tail.last()));
    } else if segments.len() == 1 {
        assert(text =~= Seq::<char>::empty());
    } else {
        let shorter = segments.drop_last();
        assert(dot_free(shorter));
        law_join_dots_then_split(shorter);
        assert(text.drop_last() =~= join_dots(shorter));
        assert(tail =~= Seq::<char>::empty());
    }
}

/// Splits dotted text into its segments.
pub fn split_dotted(text: &str) -> (segments: Vec<String>)
    ensures
        string_views(segments@) == split_dots(text@),
{
    let n = text.unicode_len();
    let mut done: Vec<String> = Vec::new();
    let mut start: usize = 0;
    let mut i: usize = 0;
    assert(text@.subrange(0, 0) =~= Seq::<char>::empty());
    while i < n
        invariant
            n == text@.len(),
            start <= i <= n,
            split_dots(text@.take(i as int)) == string_views(done@).push(
                text@.subrange(start as int, i as int),
            ),
        decreases n - i,
    {
        let c = text.get_char(i);
        let ghost prefix = text@.take(i as int + 1);
        assert(prefix.drop_last() =~= text@.take(i as int));
        if c == '.' {
            let segment = text.substring_char(start, i).to_owned();
            done.push(segment);
            start = i + 1;
            assert(text@.subrange(start as int, i as int + 1) =~= Seq::<char>::empty());
        } else {
            assert(text@.subrange(start as int, i as int + 1) =~= text@.subrange(
                start as int,
                i as int,
            ).push(c));
        }
        i += 1;
    }
    assert(text@.take(n as int) =~= text@);
    let segment = text.substring_char(start, n).to_owned();
    done.push(segment);
    done
}

/// A position in the namespace tree: the segments from the root down.
/// The root is the empty path.
#[derive(Debug, PartialEq, Eq, Hash)]
pub struct NamespacePath(pub Vec<String>);

impl View for NamespacePath {
    type V = Seq<Seq<char>>;

    open spec fn view(&self) -> Seq<Seq<char>> {
        string_views(self.0@)
    }
}

/// The namespace that dotted text names: the root for empty text, else
/// the segments between the dots.
pub open spec fn namespace_of(text: Seq<char>) -> Seq<Seq<char>> {
    if text.len() == 0 {
        Seq::empty()
    } else {
        split_dots(text)
    }
}

impl NamespacePath {
    /// The root namespace.
    pub fn root() -> (p: NamespacePath)
        ensures
            p@ == Seq::<Seq<char>>::empty(),
    {
        NamespacePath(Vec::new())
    }

    /// Parses a dotted namespace path.
    pub fn from_str(text: &str) -> (p: NamespacePath)
        ensures
            p@ == namespace_of(text@),
    {
        if text.unicode_len() == 0 {
            NamespacePath::root()
        } else {
            NamespacePath(split_dotted(text))
        }
    }

    /// The enclosing namespace, one segment shorter; the root has none.
    pub fn parent(&self) -> (res: Option<NamespacePath>)
        ensures
            self@.len() == 0 ==> res is None,
            self@.len() > 0 ==> (res matches Some(p) && p@ == self@.drop_last()),
    {
        let n = self.0.len();
        if n == 0 {
            return None;
        }
        let mut segments: Vec<String> = Vec::new();
        let mut i: usize = 0;
        while i < n - 1
            invariant
                n == self.0.len(),
                n > 0,
                i <= n - 1,
                string_views(segments@) == self@.take(i as int),
            decreases n - i,
        {
            segments.push(self.0[i].clone());
            assert(self@.take(i as int + 1) =~= self@.take(i as int).push(self@[i as int]));
            i += 1;
        }
        Some(NamespacePath(segments))
    }

    /// An independent copy of this path.
    pub fn duplicate(&self) -> (p: NamespacePath)
        ensures
            p@ == self@,
    {
        let n = self.0.len();
        let mut segments: Vec<String> = Vec::new();
        let mut i: usize = 0;
        while i < n
            invariant
                n == self.0.len(),
                i <= n,
                string_views(segments@) == self@.take(i as int),
            decreases n - i,
        {
            segments.push(self.0[i].clone());
            assert(self@.take(i as int + 1) =~= self@.take(i as int).push(self@[i as int]));
            i += 1;
        }
        NamespacePath(segments)
    }

    /// Whether two paths have the same segments.
    pub fn same(&self, other: &NamespacePath) -> (b: bool)
        ensures
            b == (self@ == other@),
    {
        let n = self.0.len();
        if n != other.0.len() {
            assert(self@.len() != other@.len());
            return false;
        }
        let mut i: usize = 0;
        while i < n
            invariant
                n == self.0.len(),
                n == other.0.len(),
                i <= n,
                forall|j: int| 0 <= j < i ==> self@[j] == other@[j],
            decreases n - i,
        {
            if self.0[i] != other.0[i] {
                assert(self@[i as int] != other@[i as int]);
                return false;
            }
            i += 1;
        }
        assert(self@ =~= other@);
        true
    }
}

/// The slot in which a definition is looked up: a namespace and a name in it.
#[derive(Debug, PartialEq, Eq, Hash)]
pub struct DefinitionPath {
    pub namespace: NamespacePath,
    pub name: String,
}

impl View for DefinitionPath {
    type V = (Seq<Seq<char>>, Seq<char>);

    open spec fn view(&self) -> (Seq<Seq<char>>, Seq<char>) {
        (self.namespace@, self.name@)
    }
}

impl DefinitionPath {
    pub fn new(namespace: NamespacePath, name: String) -> (p: DefinitionPath)
        ensures
            p@ == (namespace@, name@),
    {
        DefinitionPath { namespace, name }
    }

    /// Parses a dotted definition path: the last segment is the name, the
    /// segments before it are the namespace. Text whose last segment is
    /// empty names no definition.
    pub fn from_str(text: &str) -> (res: Option<DefinitionPath>)
        ensures
            res is Some <==> split_dots(text@).last().len() > 0,
            res matches Some(p) ==> p@ == (split_dots(text@).drop_last(), split_dots(text@).last()),
    {
        proof {
            lemma_split_dots_nonempty(text@);
        }
        let mut segments = split_dotted(text);
        match segments.pop() {
            Some(name) => {
                if name.as_str().unicode_len() == 0 {
                    None
                } else {
                    let namespace = NamespacePath(segments);
                    Some(DefinitionPath { namespace, name })
                }
            },
            None => None,
        }
    }

    /// An independent copy of this path.
    pub fn duplicate(&self) -> (p: DefinitionPath)
        ensures
            p@ == self@,
    {
        DefinitionPath { namespace: self.namespace.duplicate(), name: self.name.clone() }
    }

    /// Whether two paths name the same slot.
    pub fn same(&self, other: &DefinitionPath) -> (b: bool)
        ensures
            b == (self@ == other@),
    {
        self.name == other.name && self.namespace.same(&other.namespace)
    }
}

/// What the store records of a definition: where it lives and the hash of
/// its content.
#[derive(Debug)]
pub struct Definition {
    pub path: DefinitionPath,
    pub hash: DefinitionHash,
}

/// A snapshot of the stored definitions. No two of them share a path.
#[derive(Debug)]
pub struct NamespaceStore {
    definitions: Vec<Definition>,
}

/// Whether some definition among `defs` lives at `key`.
pub open spec fn has_path(defs: Seq<Definition>, key: (Seq<Seq<char>>, Seq<char>)) -> bool {
    exists|i: int| 0 <= i < defs.len() && (#[trigger] defs[i]).path@ == key
}

/// The position of a definition among `defs` that lives at `key`.
pub open spec fn position_of(defs: Seq<Definition>, key: (Seq<Seq<char>>, Seq<char>)) -> int {
    choose|i: int| 0 <= i < defs.len() && (#[trigger] defs[i]).path@ == key
}

/// Whether no two definitions among `defs` share a path.
pub open spec fn distinct_paths(defs: Seq<Definition>) -> bool {
    forall|i: int, j: int|
        0 <= i < j < defs.len() ==> (#[trigger] defs[i]).path@ != (#[trigger] defs[j]).path@
}

impl View for NamespaceStore {
    type V = Map<(Seq<Seq<char>>, Seq<char>), Seq<u8>>;

    closed spec fn view(&self) -> Map<(Seq<Seq<char>>, Seq<char>), Seq<u8>> {
        Map::new(
            |key: (Seq<Seq<char>>, Seq<char>)| has_path(self.definitions@, key),
            |key: (Seq<Seq<char>>, Seq<char>)|
                self.definitions@[position_of(self.definitions@, key)].hash@,
        )
    }
}

/// Where distinct paths are concerned, a definition that lives at `key`
/// is the one that `position_of` picks.
proof fn lemma_position_unique(defs: Seq<Definition>, i: int)
    requires
        distinct_paths(defs),
        0 <= i < defs.len(),
    ensures
        has_path(defs, defs[i].path@),
        position_of(defs, defs[i].path@) == i,
{
}

/// The position of the definition at `path` among `defs`, if there is one.
fn find_definition(defs: &Vec<Definition>, path: &DefinitionPath) -> (res: Option<usize>)
    ensures
        res is Some <==> has_path(defs@, path@),
        res matches Some(i) ==> i < defs.len() && defs[i as int].path@ == path@,
{
    let n = defs.len();
    let mut i: usize = 0;
    while i < n
        invariant
            n == defs.len(),
            i <= n,
            forall|j: int| 0 <= j < i ==> (#[trigger] defs[j]).path@ != path@,
        decreases n - i,
    {
        if defs[i].path.same(path) {
            return Some(i);
        }
        i += 1;
    }
    None
}

impl NamespaceStore {
    #[verifier::type_invariant]
    spec fn well_formed(self) -> bool {
        distinct_paths(self.definitions@)
    }

    /// A store without definitions.
    pub fn new() -> (store: NamespaceStore)
        ensures
            store@ == Map::<(Seq<Seq<char>>, Seq<char>), Seq<u8>>::empty(),
    {
        NamespaceStore { definitions: Vec::new() }
    }

    /// Records that the definition at `path` has content hash `hash`,
    /// in place of what was recorded there before.
    pub fn add_definition(&mut self, path: DefinitionPath, hash: DefinitionHash)
        ensures
            final(self)@ == old(self)@.insert(path@, hash@),
    {
        proof {
            use_type_invariant(&*self);
        }
        let mut defs: Vec<Definition> = Vec::new();
        std::mem::swap(&mut defs, &mut self.definitions);
        let ghost before = defs@;
        let ghost key = path@;
        let ghost at: int;
        match find_definition(&defs, &path) {
            Some(i) => {
                defs[i] = Definition { path, hash };
                proof {
                    at = i as int;
                }
            },
            None => {
                proof {
                    at = defs.len() as int;
                }
                defs.push(Definition { path, hash });
            },
        }
        let ghost after = defs@;
        assert(after[at].path@ == key && after[at].hash@ == hash@);
        assert(distinct_paths(after));
        self.definitions = defs;
        proof {
            assert forall|k: (Seq<Seq<char>>, Seq<char>)| has_path(after, k) <==> (k == key
                || has_path(before, k)) by {
                if has_path(before, k) && k != key {
                    let j = position_of(before, k);
                    assert(after[j].path@ == k);
                }
            }
            assert forall|k: (Seq<Seq<char>>, Seq<char>)| has_path(after, k) implies after[position_of(
                after,
                k,
            )].hash@ == old(self)@.insert(key, hash@)[k] by {
                let j = position_of(after, k);
                lemma_position_unique(after, j);
                if k == key {
                    lemma_position_unique(after, at);
                } else {
                    lemma_position_unique(before, j);
                }
            }
        }
    }

    /// The definition that lives at `path`, if there is one.
    pub fn get_definition_by_path(&self, path: &DefinitionPath) -> (res: Option<&Definition>)
        ensures
            res is Some <==> self@.contains_key(path@),
            res matches Some(d) ==> d.path@ == path@ && d.hash@ == self@[path@],
    {
        proof {
            use_type_invariant(self);
        }
        match find_definition(&self.definitions, path) {
            Some(i) => {
                proof {
                    lemma_position_unique(self.definitions@, i as int);
                }
                Some(&self.definitions[i])
            },
            None => None,
        }
    }
}

} // verus!
