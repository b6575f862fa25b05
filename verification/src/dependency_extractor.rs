//! The dependency extractor: one walk over an expression or a type that
//! collects the content hashes of the stored definitions it refers to.

use crate::ast::{DoStatement, Expr, FunctionParam, HandlerCase, Ident, Pattern, Type};
use crate::dependency_set::DependencySet;
use crate::hash::{option_view, DefinitionHash};
use crate::namespace::{DefinitionPath, NamespacePath, NamespaceStore};
use crate::scope::ScopeFrame;
use crate::semantics::{
    annotation_deps, bound_names, cases_deps, expr_deps, exprs_deps, exprs_leaked, extend_top,
    field_types_deps, fields_deps, fields_leaked, found_set, function_params_deps,
    function_params_names, handler_cases_deps, handlers_deps, hash_literal_deps, leaked,
    lemma_bound_extend_top, lemma_bound_push, lemma_empty_frame_binds_nothing,
    lemma_extend_nothing, lemma_extend_pushed, lemma_extend_twice, params_deps, params_names, pattern_names, patterns_names, resolve,
    resolve_qualified, statements_deps, statements_leaked, type_deps, types_deps,
};
use vstd::prelude::*;

verus! {

/// The views of a stack of frames, one for one.
pub open spec fn frame_views(frames: Seq<ScopeFrame>) -> Seq<Set<Seq<char>>> {
    Seq::new(frames.len(), |i: int| frames[i]@)
}

/// The state of one extraction: the store and the namespace that free
/// references resolve against, and the stack of scopes of local names.
/// The stack always has its base frame.
pub struct DependencyExtractor<'a> {
    namespace_store: &'a NamespaceStore,
    current_namespace: NamespacePath,
    /// The base scope, which stays for the whole extraction
    base_scope: ScopeFrame,
    /// Stack of local binding scopes above the base scope
    local_scopes: Vec<ScopeFrame>,
}

impl<'a> DependencyExtractor<'a> {
    /// The store that names resolve against.
    pub closed spec fn store(&self) -> Map<(Seq<Seq<char>>, Seq<char>), Seq<u8>> {
        self.namespace_store@
    }

    /// The namespace that bare names are resolved from.
    pub closed spec fn namespace(&self) -> Seq<Seq<char>> {
        self.current_namespace@
    }

    /// The stack of scopes, the base frame first.
    pub closed spec fn scopes(&self) -> Seq<Set<Seq<char>>> {
        seq![self.base_scope@] + frame_views(self.local_scopes@)
    }

    /// Whether `self` resolves against the same store, from the same
    /// namespace, as `other`.
    pub open spec fn same_context(&self, other: &Self) -> bool {
        self.store() == other.store() && self.namespace() == other.namespace()
    }

    /// The stack of scopes is never empty.
    pub proof fn lemma_has_base_scope(&self)
        ensures
            self.scopes().len() > 0,
    {
    }

    /// An extractor over `namespace_store` for code that lives in
    /// `current_namespace`, with one empty base frame.
    pub fn new(namespace_store: &'a NamespaceStore, current_namespace: NamespacePath) -> (extractor:
        Self)
        ensures
            extractor.store() == namespace_store@,
            extractor.namespace() == current_namespace@,
            extractor.scopes() == seq![Set::<Seq<char>>::empty()],
    {
        Self {
            namespace_store,
            current_namespace,
            base_scope: ScopeFrame::new(),
            local_scopes: Vec::new(),
        }
    }

    /// Check if a name is a local binding
    pub fn is_local_binding(&self, name: &String) -> (b: bool)
        ensures
            b == bound_names(self.scopes()).contains(name@),
    {
        if self.base_scope.contains(name) {
            assert(self.scopes()[0].contains(name@));
            return true;
        }
        let n = self.local_scopes.len();
        let mut i: usize = 0;
        while i < n
            invariant
                n == self.local_scopes.len(),
                i <= n,
                forall|j: int| 0 <= j < i + 1 ==> !(#[trigger] self.scopes()[j]).contains(name@),
            decreases n - i,
        {
            if self.local_scopes[i].contains(name) {
                assert(self.scopes()[i as int + 1].contains(name@));
                return true;
            }
            i += 1;
        }
        false
    }

    /// Push a new scope
    pub fn push_scope(&mut self)
        ensures
            final(self).same_context(old(self)),
            final(self).scopes() == old(self).scopes().push(Set::empty()),
    {
        self.local_scopes.push(ScopeFrame::new());
    }

    /// Pop the current scope. The caller keeps pushes and pops balanced:
    /// the base frame is not popped.
    pub fn pop_scope(&mut self)
        requires
            old(self).scopes().len() > 1,
        ensures
            final(self).same_context(old(self)),
            final(self).scopes() == old(self).scopes().drop_last(),
    {
        self.local_scopes.pop();
    }

    /// Add a binding to the current scope
    pub fn add_binding(&mut self, name: String)
        ensures
            final(self).same_context(old(self)),
            final(self).scopes() == extend_top(old(self).scopes(), set![name@]),
    {
        let ghost before = self.scopes();
        assert(before.last().insert(name@) =~= before.last().union(set![name@]));
        match self.local_scopes.pop() {
            Some(frame) => {
                let mut frame = frame;
                frame.insert(name);
                self.local_scopes.push(frame);
            },
            None => {
                self.base_scope.insert(name);
            },
        }
    }

    /// Resolve an identifier to its definition hash
    pub fn resolve_ident(&self, ident: &Ident) -> (res: Option<DefinitionHash>)
        ensures
            option_view(res) == resolve(self.store(), self.namespace(), ident@),
    {
        // First try in current namespace
        let path = DefinitionPath::new(self.current_namespace.duplicate(), ident.0.clone());
        if let Some(def) = self.namespace_store.get_definition_by_path(&path) {
            return Some(def.hash);
        }
        // Then try in parent namespaces

        let mut current = self.current_namespace.duplicate();
        let mut walking = true;
        while walking
            invariant
                !self.store().contains_key((current@, ident@)),
                resolve(self.store(), self.namespace(), ident@) == resolve(
                    self.store(),
                    current@,
                    ident@,
                ),
                !walking ==> current@.len() == 0,
            decreases current@.len() + (if walking { 1nat } else { 0nat }),
        {
            match current.parent() {
                Some(parent) => {
                    assert(resolve(self.store(), current@, ident@) == resolve(
                        self.store(),
                        parent@,
                        ident@,
                    ));
                    let path = DefinitionPath::new(parent.duplicate(), ident.0.clone());
                    if let Some(def) = self.namespace_store.get_definition_by_path(&path) {
                        return Some(def.hash);
                    }
                    current = parent;
                },
                None => {
                    walking = false;
                },
            }
        }
        // Finally try in root namespace
        let root_path = DefinitionPath::new(NamespacePath::root(), ident.0.clone());
        assert(current@ =~= Seq::<Seq<char>>::empty());
        match self.namespace_store.get_definition_by_path(&root_path) {
            Some(def) => Some(def.hash),
            None => None,
        }
    }

    /// Resolve a qualified identifier to its definition hash
    pub fn resolve_qualified_ident(&self, module_name: &Ident, name: &Ident) -> (res: Option<
        DefinitionHash,
    >)
        ensures
            option_view(res) == resolve_qualified(self.store(), module_name@, name@),
    {
        // Build namespace path from module name
        let namespace = NamespacePath::from_str(module_name.0.as_str());
        let path = DefinitionPath::new(namespace, name.0.clone());
        match self.namespace_store.get_definition_by_path(&path) {
            Some(def) => Some(def.hash),
            None => None,
        }
    }

    /// Resolve a type name to its definition hash
    pub fn resolve_type_name(&self, name: &String) -> (res: Option<DefinitionHash>)
        ensures
            option_view(res) == resolve(self.store(), self.namespace(), name@),
    {
        let ident = Ident(name.clone());
        self.resolve_ident(&ident)
    }

    /// Resolve a constructor to its type definition hash. The constructor's
    /// name is resolved as any bare name is.
    pub fn resolve_constructor_type(&self, constructor_name: &Ident) -> (res: Option<DefinitionHash>)
        ensures
            option_view(res) == resolve(self.store(), self.namespace(), constructor_name@),
    {
        self.resolve_ident(constructor_name)
    }

    /// Adds to `deps` the hash that `found` holds, if it holds one.
    fn record(found: Option<DefinitionHash>, deps: &mut DependencySet)
        ensures
            final(deps)@ == old(deps)@.union(found_set(option_view(found))),
    {
        if let Some(hash) = found {
            deps.insert(hash);
        }
    }

    /// Visit a type and extract dependencies
    fn visit_type(&self, typ: &Type, deps: &mut DependencySet)
        ensures
            final(deps)@ == old(deps)@.union(type_deps(self.store(), self.namespace(), *typ)),
        decreases typ,
    {
        match typ {
            Type::UserDefined { name, type_params } => {
                // User-defined types are dependencies
                Self::record(self.resolve_type_name(name), deps);
                // Also check type parameters
                self.visit_types(type_params, deps);
            },
            Type::Function(from, to) => {
                self.visit_type(from, deps);
                self.visit_type(to, deps);
            },
            Type::FunctionWithEffect { from, to, .. } => {
                // Effect rows carry no dependencies
                self.visit_type(from, deps);
                self.visit_type(to, deps);
            },
            Type::List(elem) => {
                self.visit_type(elem, deps);
            },
            Type::Record { fields } => {
                self.visit_field_types(fields, deps);
            },
            Type::Option(inner) => {
                self.visit_type(inner, deps);
            },
            Type::Tuple(types) => {
                self.visit_types(types, deps);
            },
            // Primitive types and type variables have no dependencies
            Type::Int | Type::Float | Type::Bool | Type::String | Type::Unit | Type::Var(_) => {},
        }
    }

    /// Visits each of `types` in turn.
    fn visit_types(&self, types: &Vec<Type>, deps: &mut DependencySet)
        ensures
            final(deps)@ == old(deps)@.union(
                types_deps(self.store(), self.namespace(), types@, types@.len()),
            ),
        decreases types,
    {
        let n = types.len();
        let mut i: usize = 0;
        while i < n
            invariant
                n == types.len(),
                i <= n,
                deps@ == old(deps)@.union(
                    types_deps(self.store(), self.namespace(), types@, i as nat),
                ),
            decreases n - i,
        {
            self.visit_type(&types[i], deps);
            i += 1;
        }
    }

    /// Visits the type of each of `fields` in turn.
    fn visit_field_types(&self, fields: &Vec<(String, Type)>, deps: &mut DependencySet)
        ensures
            final(deps)@ == old(deps)@.union(
                field_types_deps(self.store(), self.namespace(), fields@, fields@.len()),
            ),
        decreases fields,
    {
        let n = fields.len();
        let mut i: usize = 0;
        while i < n
            invariant
                n == fields.len(),
                i <= n,
                deps@ == old(deps)@.union(
                    field_types_deps(self.store(), self.namespace(), fields@, i as nat),
                ),
            decreases n - i,
        {
            self.visit_type(&fields[i].1, deps);
            i += 1;
        }
    }

    /// Visits a type annotation, if there is one.
    fn visit_annotation(&self, annotation: &Option<Type>, deps: &mut DependencySet)
        ensures
            final(deps)@ == old(deps)@.union(
                annotation_deps(self.store(), self.namespace(), *annotation),
            ),
    {
        if let Some(typ) = annotation {
            self.visit_type(typ, deps);
        }
    }

    /// Binds the names that `pattern` introduces in the current scope.
    pub fn add_pattern_bindings(&mut self, pattern: &Pattern)
        ensures
            final(self).same_context(old(self)),
            final(self).scopes() == extend_top(old(self).scopes(), pattern_names(*pattern)),
        decreases pattern,
    {
        match pattern {
            Pattern::Variable(ident, _) => {
                self.add_binding(ident.0.clone());
            },
            Pattern::List { patterns, .. } => {
                self.add_patterns_bindings(patterns);
            },
            Pattern::Constructor { patterns, .. } => {
                self.add_patterns_bindings(patterns);
            },
            Pattern::Wildcard(_) | Pattern::Literal(_, _) => {
                proof {
                    lemma_extend_nothing(self.scopes());
                }
            },
        }
    }

    /// Binds the names that each of `patterns` introduces in the current scope.
    fn add_patterns_bindings(&mut self, patterns: &Vec<Pattern>)
        ensures
            final(self).same_context(old(self)),
            final(self).scopes() == extend_top(
                old(self).scopes(),
                patterns_names(patterns@, patterns@.len()),
            ),
        decreases patterns,
    {
        let ghost s0 = self.scopes();
        proof {
            self.lemma_has_base_scope();
        }
        proof {
            lemma_extend_nothing(s0);
        }
        let n = patterns.len();
        let mut i: usize = 0;
        while i < n
            invariant
                n == patterns.len(),
                i <= n,
                self.same_context(old(self)),
                self.scopes() == extend_top(s0, patterns_names(patterns@, i as nat)),
            decreases n - i,
        {
            proof {
                lemma_extend_twice(
                    s0,
                    patterns_names(patterns@, i as nat),
                    pattern_names(patterns[i as int]),
                );
            }
            self.add_pattern_bindings(&patterns[i]);
            i += 1;
        }
    }

    /// Binds each of `params` in the current scope and visits its type
    /// annotation.
    fn bind_params(&mut self, params: &Vec<(Ident, Option<Type>)>, deps: &mut DependencySet)
        ensures
            final(self).same_context(old(self)),
            final(self).scopes() == extend_top(
                old(self).scopes(),
                params_names(params@, params@.len()),
            ),
            final(deps)@ == old(deps)@.union(
                params_deps(old(self).store(), old(self).namespace(), params@, params@.len()),
            ),
    {
        let ghost s0 = self.scopes();
        proof {
            self.lemma_has_base_scope();
        }
        proof {
            lemma_extend_nothing(s0);
        }
        let n = params.len();
        let mut i: usize = 0;
        while i < n
            invariant
                n == params.len(),
                i <= n,
                self.same_context(old(self)),
                self.scopes() == extend_top(s0, params_names(params@, i as nat)),
                deps@ == old(deps)@.union(
                    params_deps(self.store(), self.namespace(), params@, i as nat),
                ),
            decreases n - i,
        {
            let ghost names = params_names(params@, i as nat);
            self.add_binding(params[i].0.0.clone());
            proof {
                lemma_extend_twice(s0, names, set![params[i as int].0@]);
                assert(names.union(set![params[i as int].0@]) =~= names.insert(params[i as int].0@));
            }
            self.visit_annotation(&params[i].1, deps);
            i += 1;
        }
    }

    /// Binds each parameter of a function definition in the current scope
    /// and visits its type.
    fn bind_function_params(&mut self, params: &Vec<FunctionParam>, deps: &mut DependencySet)
        ensures
            final(self).same_context(old(self)),
            final(self).scopes() == extend_top(
                old(self).scopes(),
                function_params_names(params@, params@.len()),
            ),
            final(deps)@ == old(deps)@.union(
                function_params_deps(
                    old(self).store(),
                    old(self).namespace(),
                    params@,
                    params@.len(),
                ),
            ),
    {
        let ghost s0 = self.scopes();
        proof {
            self.lemma_has_base_scope();
        }
        proof {
            lemma_extend_nothing(s0);
        }
        let n = params.len();
        let mut i: usize = 0;
        while i < n
            invariant
                n == params.len(),
                i <= n,
                self.same_context(old(self)),
                self.scopes() == extend_top(s0, function_params_names(params@, i as nat)),
                deps@ == old(deps)@.union(
                    function_params_deps(self.store(), self.namespace(), params@, i as nat),
                ),
            decreases n - i,
        {
            let ghost names = function_params_names(params@, i as nat);
            self.add_binding(params[i].name.0.clone());
            proof {
                lemma_extend_twice(s0, names, set![params[i as int].name@]);
                assert(names.union(set![params[i as int].name@]) =~= names.insert(
                    params[i as int].name@,
                ));
            }
            self.visit_annotation(&params[i].typ, deps);
            i += 1;
        }
    }

    /// Visits each of `exprs` in turn, in the current scope.
    fn visit_exprs(&mut self, exprs: &Vec<Expr>, deps: &mut DependencySet)
        ensures
            final(self).same_context(old(self)),
            final(self).scopes() == extend_top(
                old(self).scopes(),
                exprs_leaked(exprs@, exprs@.len()),
            ),
            final(deps)@ == old(deps)@.union(
                exprs_deps(
                    old(self).store(),
                    old(self).namespace(),
                    bound_names(old(self).scopes()),
                    exprs@,
                    exprs@.len(),
                ),
            ),
        decreases exprs,
    {
        let ghost s0 = self.scopes();
        proof {
            self.lemma_has_base_scope();
        }
        proof {
            lemma_extend_nothing(s0);
        }
        let n = exprs.len();
        let mut i: usize = 0;
        while i < n
            invariant
                n == exprs.len(),
                i <= n,
                s0.len() > 0,
                self.same_context(old(self)),
                self.scopes() == extend_top(s0, exprs_leaked(exprs@, i as nat)),
                deps@ == old(deps)@.union(
                    exprs_deps(self.store(), self.namespace(), bound_names(s0), exprs@, i as nat),
                ),
            decreases n - i,
        {
            proof {
                lemma_bound_extend_top(s0, exprs_leaked(exprs@, i as nat));
                lemma_extend_twice(s0, exprs_leaked(exprs@, i as nat), leaked(exprs[i as int]));
            }
            self.visit_expr(&exprs[i], deps);
            i += 1;
        }
    }

    /// Visits the arms of a match, each in a scope of its own that holds
    /// the names of its pattern.
    fn visit_cases(&mut self, cases: &Vec<(Pattern, Expr)>, deps: &mut DependencySet)
        ensures
            final(self).same_context(old(self)),
            final(self).scopes() == old(self).scopes(),
            final(deps)@ == old(deps)@.union(
                cases_deps(
                    old(self).store(),
                    old(self).namespace(),
                    bound_names(old(self).scopes()),
                    cases@,
                    cases@.len(),
                ),
            ),
        decreases cases,
    {
        let ghost s0 = self.scopes();
        proof {
            self.lemma_has_base_scope();
        }
        let ghost b0 = bound_names(s0);
        let n = cases.len();
        let mut i: usize = 0;
        while i < n
            invariant
                n == cases.len(),
                i <= n,
                s0.len() > 0,
                b0 == bound_names(s0),
                self.same_context(old(self)),
                self.scopes() == s0,
                deps@ == old(deps)@.union(
                    cases_deps(self.store(), self.namespace(), b0, cases@, i as nat),
                ),
            decreases n - i,
        {
            let ghost names = pattern_names(cases[i as int].0);
            let ghost frame = Set::<Seq<char>>::empty().union(names);
            // Create new scope for pattern bindings
            self.push_scope();
            self.add_pattern_bindings(&cases[i].0);
            proof {
                lemma_extend_pushed(s0, Set::empty(), names);
                lemma_bound_push(s0, frame);
                assert(b0.union(frame) == b0.union(names));
                lemma_extend_pushed(s0, frame, leaked(cases[i as int].1));
            }
            self.visit_expr(&cases[i].1, deps);
            // Pop scope
            self.pop_scope();
            i += 1;
        }
    }

    /// Visits the clauses of a handler, each in a scope of its own that
    /// holds its continuation and the names of its patterns.
    fn visit_handler_cases(
        &mut self,
        cases: &Vec<(Ident, Vec<Pattern>, Ident, Expr)>,
        deps: &mut DependencySet,
    )
        ensures
            final(self).same_context(old(self)),
            final(self).scopes() == old(self).scopes(),
            final(deps)@ == old(deps)@.union(
                handler_cases_deps(
                    old(self).store(),
                    old(self).namespace(),
                    bound_names(old(self).scopes()),
                    cases@,
                    cases@.len(),
                ),
            ),
        decreases cases,
    {
        let ghost s0 = self.scopes();
        proof {
            self.lemma_has_base_scope();
        }
        let ghost b0 = bound_names(s0);
        let n = cases.len();
        let mut i: usize = 0;
        while i < n
            invariant
                n == cases.len(),
                i <= n,
                s0.len() > 0,
                b0 == bound_names(s0),
                self.same_context(old(self)),
                self.scopes() == s0,
                deps@ == old(deps)@.union(
                    handler_cases_deps(self.store(), self.namespace(), b0, cases@, i as nat),
                ),
            decreases n - i,
        {
            let ghost continuation = cases[i as int].2@;
            let ghost names = patterns_names(cases[i as int].1@, cases[i as int].1@.len());
            let ghost first = Set::<Seq<char>>::empty().union(set![continuation]);
            let ghost frame = first.union(names);
            // Create new scope
            self.push_scope();
            // Add continuation binding
            self.add_binding(cases[i].2.0.clone());
            proof {
                lemma_extend_pushed(s0, Set::empty(), set![continuation]);
            }
            // Add pattern bindings
            self.add_patterns_bindings(&cases[i].1);
            proof {
                lemma_extend_pushed(s0, first, names);
                lemma_bound_push(s0, frame);
                assert(b0.union(frame) == b0.insert(continuation).union(names));
                lemma_extend_pushed(s0, frame, leaked(cases[i as int].3));
            }
            self.visit_expr(&cases[i].3, deps);
            // Pop scope
            self.pop_scope();
            i += 1;
        }
    }

    /// Visits the expression of each of `statements` in turn, in the
    /// current scope.
    fn visit_statements(&mut self, statements: &Vec<DoStatement>, deps: &mut DependencySet)
        ensures
            final(self).same_context(old(self)),
            final(self).scopes() == extend_top(
                old(self).scopes(),
                statements_leaked(statements@, statements@.len()),
            ),
            final(deps)@ == old(deps)@.union(
                statements_deps(
                    old(self).store(),
                    old(self).namespace(),
                    bound_names(old(self).scopes()),
                    statements@,
                    statements@.len(),
                ),
            ),
        decreases statements,
    {
        let ghost s0 = self.scopes();
        proof {
            self.lemma_has_base_scope();
        }
        proof {
            lemma_extend_nothing(s0);
        }
        let n = statements.len();
        let mut i: usize = 0;
        while i < n
            invariant
                n == statements.len(),
                i <= n,
                s0.len() > 0,
                self.same_context(old(self)),
                self.scopes() == extend_top(s0, statements_leaked(statements@, i as nat)),
                deps@ == old(deps)@.union(
                    statements_deps(
                        self.store(),
                        self.namespace(),
                        bound_names(s0),
                        statements@,
                        i as nat,
                    ),
                ),
            decreases n - i,
        {
            proof {
                lemma_bound_extend_top(s0, statements_leaked(statements@, i as nat));
            }
            match &statements[i] {
                DoStatement::Bind { expr, .. } => {
                    proof {
                        lemma_extend_twice(
                            s0,
                            statements_leaked(statements@, i as nat),
                            leaked(*expr),
                        );
                    }
                    self.visit_expr(expr, deps);
                },
                DoStatement::Expression(expr) => {
                    proof {
                        lemma_extend_twice(
                            s0,
                            statements_leaked(statements@, i as nat),
                            leaked(*expr),
                        );
                    }
                    self.visit_expr(expr, deps);
                },
            }
            i += 1;
        }
    }

    /// Visits the value of each of `fields` in turn, in the current scope.
    fn visit_fields(&mut self, fields: &Vec<(Ident, Expr)>, deps: &mut DependencySet)
        ensures
            final(self).same_context(old(self)),
            final(self).scopes() == extend_top(
                old(self).scopes(),
                fields_leaked(fields@, fields@.len()),
            ),
            final(deps)@ == old(deps)@.union(
                fields_deps(
                    old(self).store(),
                    old(self).namespace(),
                    bound_names(old(self).scopes()),
                    fields@,
                    fields@.len(),
                ),
            ),
        decreases fields,
    {
        let ghost s0 = self.scopes();
        proof {
            self.lemma_has_base_scope();
        }
        proof {
            lemma_extend_nothing(s0);
        }
        let n = fields.len();
        let mut i: usize = 0;
        while i < n
            invariant
                n == fields.len(),
                i <= n,
                s0.len() > 0,
                self.same_context(old(self)),
                self.scopes() == extend_top(s0, fields_leaked(fields@, i as nat)),
                deps@ == old(deps)@.union(
                    fields_deps(self.store(), self.namespace(), bound_names(s0), fields@, i as nat),
                ),
            decreases n - i,
        {
            proof {
                lemma_bound_extend_top(s0, fields_leaked(fields@, i as nat));
                lemma_extend_twice(s0, fields_leaked(fields@, i as nat), leaked(fields[i as int].1));
            }
            self.visit_expr(&fields[i].1, deps);
            i += 1;
        }
    }

    /// Visits the clauses of a `handle` expression, each in a scope of its
    /// own that holds its continuation and the names of its patterns.
    fn visit_handlers(&mut self, handlers: &Vec<HandlerCase>, deps: &mut DependencySet)
        ensures
            final(self).same_context(old(self)),
            final(self).scopes() == old(self).scopes(),
            final(deps)@ == old(deps)@.union(
                handlers_deps(
                    old(self).store(),
                    old(self).namespace(),
                    bound_names(old(self).scopes()),
                    handlers@,
                    handlers@.len(),
                ),
            ),
        decreases handlers,
    {
        let ghost s0 = self.scopes();
        let ghost b0 = bound_names(s0);
        proof {
            self.lemma_has_base_scope();
        }
        let n = handlers.len();
        let mut i: usize = 0;
        while i < n
            invariant
                n == handlers.len(),
                i <= n,
                s0.len() > 0,
                b0 == bound_names(s0),
                self.same_context(old(self)),
                self.scopes() == s0,
                deps@ == old(deps)@.union(
                    handlers_deps(self.store(), self.namespace(), b0, handlers@, i as nat),
                ),
            decreases n - i,
        {
            let ghost continuation = handlers[i as int].continuation@;
            let ghost names = patterns_names(
                handlers[i as int].patterns@,
                handlers[i as int].patterns@.len(),
            );
            let ghost first = Set::<Seq<char>>::empty().union(set![continuation]);
            let ghost frame = first.union(names);
            // Create new scope
            self.push_scope();
            // Add continuation binding
            self.add_binding(handlers[i].continuation.0.clone());
            proof {
                lemma_extend_pushed(s0, Set::empty(), set![continuation]);
            }
            // Add pattern bindings
            self.add_patterns_bindings(&handlers[i].patterns);
            proof {
                lemma_extend_pushed(s0, first, names);
                lemma_bound_push(s0, frame);
                assert(b0.union(frame) == b0.insert(continuation).union(names));
                lemma_extend_pushed(s0, frame, leaked(handlers[i as int].body));
            }
            self.visit_expr(&handlers[i].body, deps);
            // Pop scope
            self.pop_scope();
            i += 1;
        }
    }

    /// Visit an expression and extract dependencies
    fn visit_expr(&mut self, expr: &Expr, deps: &mut DependencySet)
        ensures
            final(self).same_context(old(self)),
            final(self).scopes() == extend_top(old(self).scopes(), leaked(*expr)),
            final(deps)@ == old(deps)@.union(
                expr_deps(
                    old(self).store(),
                    old(self).namespace(),
                    bound_names(old(self).scopes()),
                    *expr,
                ),
            ),
        decreases expr,
    {
        let ghost s0 = self.scopes();
        proof {
            self.lemma_has_base_scope();
        }
        let ghost b0 = bound_names(s0);
        proof {
            lemma_extend_nothing(s0);
        }
        match expr {
            Expr::Ident(ident, _) => {
                // Check if it's a local binding
                if !self.is_local_binding(&ident.0) {
                    // Try to resolve as a definition
                    Self::record(self.resolve_ident(ident), deps);
                }
            },
            Expr::QualifiedIdent { module_name, name, .. } => {
                // Resolve qualified identifier
                Self::record(self.resolve_qualified_ident(module_name, name), deps);
            },
            Expr::Lambda { params, body, .. } => {
                let ghost names = params_names(params@, params@.len());
                let ghost frame = Set::<Seq<char>>::empty().union(names);
                // Create new scope for lambda
                self.push_scope();
                // Add parameters to current scope and check type annotations
                self.bind_params(params, deps);
                proof {
                    lemma_extend_pushed(s0, Set::empty(), names);
                    lemma_bound_push(s0, frame);
                    assert(b0.union(frame) == b0.union(names));
                    lemma_extend_pushed(s0, frame, leaked(**body));
                }
                // Visit body
                self.visit_expr(body, deps);
                // Pop scope
                self.pop_scope();
            },
            Expr::Let { name, type_ann, value, .. } => {
                // Check type annotation
                self.visit_annotation(type_ann, deps);
                // Visit value
                self.visit_expr(value, deps);
                // Add name to current scope for subsequent expressions
                self.add_binding(name.0.clone());
                proof {
                    lemma_extend_twice(s0, leaked(**value), set![name@]);
                    assert(leaked(**value).union(set![name@]) == leaked(**value).insert(name@));
                }
            },
            Expr::LetIn { name, type_ann, value, body, .. } => {
                // Check type annotation
                self.visit_annotation(type_ann, deps);
                // Visit value
                self.visit_expr(value, deps);
                let ghost s1 = self.scopes();
                let ghost frame = Set::<Seq<char>>::empty().union(set![name@]);
                // Create new scope for body
                self.push_scope();
                self.add_binding(name.0.clone());
                proof {
                    lemma_bound_extend_top(s0, leaked(**value));
                    lemma_extend_pushed(s1, Set::empty(), set![name@]);
                    lemma_bound_push(s1, frame);
                    assert(bound_names(s1).union(frame) == b0.union(leaked(**value)).insert(name@));
                    lemma_extend_pushed(s1, frame, leaked(**body));
                }
                // Visit body
                self.visit_expr(body, deps);
                // Pop scope
                self.pop_scope();
            },
            Expr::LetRec { name, type_ann, value, .. } => {
                // Check type annotation
                self.visit_annotation(type_ann, deps);
                // Add name to current scope before visiting value (for recursion)
                self.add_binding(name.0.clone());
                proof {
                    lemma_bound_extend_top(s0, set![name@]);
                    assert(b0.union(set![name@]) == b0.insert(name@));
                    lemma_extend_twice(s0, set![name@], leaked(**value));
                    assert(set![name@].union(leaked(**value)) == leaked(**value).insert(name@));
                }
                // Visit value
                self.visit_expr(value, deps);
            },
            Expr::LetRecIn { name, value, body, .. } => {
                let ghost first = Set::<Seq<char>>::empty().union(set![name@]);
                let ghost second = first.union(leaked(**value));
                self.push_scope();
                self.add_binding(name.0.clone());
                proof {
                    lemma_extend_pushed(s0, Set::empty(), set![name@]);
                    lemma_bound_push(s0, first);
                    assert(b0.union(first) == b0.insert(name@));
                    lemma_extend_pushed(s0, first, leaked(**value));
                    lemma_bound_push(s0, second);
                    assert(b0.union(second) == b0.insert(name@).union(leaked(**value)));
                    lemma_extend_pushed(s0, second, leaked(**body));
                }
                self.visit_expr(value, deps);
                self.visit_expr(body, deps);
                self.pop_scope();
            },
            Expr::Rec { name, params, return_type, body, .. } => {
                let ghost names = params_names(params@, params@.len());
                let ghost first = Set::<Seq<char>>::empty().union(set![name@]);
                let ghost frame = first.union(names);
                // Check return type annotation
                self.visit_annotation(return_type, deps);
                // Create new scope
                self.push_scope();
                // Add function name for recursion
                self.add_binding(name.0.clone());
                proof {
                    lemma_extend_pushed(s0, Set::empty(), set![name@]);
                }
                // Add parameters and check their type annotations
                self.bind_params(params, deps);
                proof {
                    lemma_extend_pushed(s0, first, names);
                    lemma_bound_push(s0, frame);
                    assert(b0.union(frame) == b0.insert(name@).union(names));
                    lemma_extend_pushed(s0, frame, leaked(**body));
                }
                // Visit body
                self.visit_expr(body, deps);
                // Pop scope
                self.pop_scope();
            },
            Expr::If { cond, then_expr, else_expr, .. } => {
                self.visit_expr(cond, deps);
                let ghost s1 = self.scopes();
                self.visit_expr(then_expr, deps);
                proof {
                    lemma_bound_extend_top(s0, leaked(**cond));
                    lemma_bound_extend_top(s1, leaked(**then_expr));
                    lemma_extend_twice(s0, leaked(**cond), leaked(**then_expr));
                    lemma_extend_twice(
                        s0,
                        leaked(**cond).union(leaked(**then_expr)),
                        leaked(**else_expr),
                    );
                }
                self.visit_expr(else_expr, deps);
            },
            Expr::Apply { func, args, .. } => {
                self.visit_expr(func, deps);
                proof {
                    lemma_bound_extend_top(s0, leaked(**func));
                    lemma_extend_twice(s0, leaked(**func), exprs_leaked(args@, args@.len()));
                }
                self.visit_exprs(args, deps);
            },
            Expr::Match { expr, cases, .. } => {
                self.visit_expr(expr, deps);
                proof {
                    lemma_bound_extend_top(s0, leaked(**expr));
                }
                self.visit_cases(cases, deps);
            },
            Expr::List(items, _) => {
                self.visit_exprs(items, deps);
            },
            Expr::Constructor { name, args, .. } => {
                // Constructor itself might be a dependency if it's from a user-defined type
                Self::record(self.resolve_constructor_type(name), deps);
                self.visit_exprs(args, deps);
            },
            Expr::Module { body, .. } => {
                self.visit_exprs(body, deps);
            },
            Expr::Import { .. } => {
                // Imports are handled separately
            },
            Expr::Handler { cases, body, .. } => {
                self.visit_handler_cases(cases, deps);
                self.visit_expr(body, deps);
            },
            Expr::WithHandler { handler, body, .. } => {
                self.visit_expr(handler, deps);
                proof {
                    lemma_bound_extend_top(s0, leaked(**handler));
                    lemma_extend_twice(s0, leaked(**handler), leaked(**body));
                }
                self.visit_expr(body, deps);
            },
            Expr::Perform { args, .. } => {
                self.visit_exprs(args, deps);
            },
            Expr::Pipeline { expr, func, .. } => {
                self.visit_expr(expr, deps);
                proof {
                    lemma_bound_extend_top(s0, leaked(**expr));
                    lemma_extend_twice(s0, leaked(**expr), leaked(**func));
                }
                self.visit_expr(func, deps);
            },
            Expr::Block { exprs, .. } => {
                self.visit_exprs(exprs, deps);
            },
            Expr::Hole { .. } => {
                // Holes don't have dependencies
            },
            Expr::Do { statements, .. } => {
                self.visit_statements(statements, deps);
            },
            Expr::RecordLiteral { fields, .. } => {
                self.visit_fields(fields, deps);
            },
            Expr::RecordAccess { record, .. } => {
                self.visit_expr(record, deps);
            },
            Expr::RecordUpdate { record, updates, .. } => {
                self.visit_expr(record, deps);
                proof {
                    lemma_bound_extend_top(s0, leaked(**record));
                    lemma_extend_twice(s0, leaked(**record), fields_leaked(updates@, updates@.len()));
                }
                self.visit_fields(updates, deps);
            },
            // Literals, type definitions, and use statements don't have dependencies
            Expr::Literal(_, _) | Expr::TypeDef { .. } | Expr::Use { .. } => {},
            Expr::HandleExpr { expr, handlers, return_handler, .. } => {
                self.visit_expr(expr, deps);
                proof {
                    lemma_bound_extend_top(s0, leaked(**expr));
                }
                self.visit_handlers(handlers, deps);
                // The return clause is read where the expression stands
                match return_handler {
                    Some((_, body)) => {
                        proof {
                            lemma_extend_twice(s0, leaked(**expr), leaked(**body));
                        }
                        self.visit_expr(body, deps);
                    },
                    None => {
                        assert(leaked(**expr).union(Set::empty()) == leaked(**expr));
                    },
                }
            },
            Expr::FunctionDef { params, return_type, body, .. } => {
                let ghost names = function_params_names(params@, params@.len());
                let ghost frame = Set::<Seq<char>>::empty().union(names);
                // Check return type annotation
                self.visit_annotation(return_type, deps);
                // Create new scope for function parameters
                self.push_scope();
                // Add parameters to current scope and check their types
                self.bind_function_params(params, deps);
                proof {
                    lemma_extend_pushed(s0, Set::empty(), names);
                    lemma_bound_push(s0, frame);
                    assert(b0.union(frame) == b0.union(names));
                    lemma_extend_pushed(s0, frame, leaked(**body));
                }
                // Visit body
                self.visit_expr(body, deps);
                // Pop scope
                self.pop_scope();
            },
            Expr::HashRef { hash, .. } => {
                // Hash references directly reference content by hash
                Self::record(DefinitionHash::from_hex(hash), deps);
            },
        }
    }

    /// Extract all dependencies from an expression. The walk starts from
    /// one empty base frame of its own, so the result depends on the
    /// expression, the namespace and the store alone; the scope stack of
    /// the extractor is not read and is left as it was.
    pub fn extract_from_expr(&mut self, expr: &Expr) -> (dependencies: DependencySet)
        ensures
            dependencies@ == expr_deps(
                old(self).store(),
                old(self).namespace(),
                Set::empty(),
                *expr,
            ),
            final(self).same_context(old(self)),
            final(self).scopes() == old(self).scopes(),
    {
        let mut base_scope = ScopeFrame::new();
        let mut local_scopes: Vec<ScopeFrame> = Vec::new();
        std::mem::swap(&mut base_scope, &mut self.base_scope);
        std::mem::swap(&mut local_scopes, &mut self.local_scopes);
        proof {
            lemma_empty_frame_binds_nothing();
            assert(self.scopes() =~= seq![Set::<Seq<char>>::empty()]);
        }
        let mut dependencies = DependencySet::new();
        self.visit_expr(expr, &mut dependencies);
        self.base_scope = base_scope;
        self.local_scopes = local_scopes;
        dependencies
    }

    /// Extract dependencies from a type
    pub fn extract_from_type(&mut self, typ: &Type) -> (dependencies: DependencySet)
        ensures
            dependencies@ == type_deps(old(self).store(), old(self).namespace(), *typ),
            final(self).same_context(old(self)),
            final(self).scopes() == old(self).scopes(),
    {
        let mut dependencies = DependencySet::new();
        self.visit_type(typ, &mut dependencies);
        dependencies
    }
}

} // verus!
