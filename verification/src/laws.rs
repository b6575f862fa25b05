//! Laws of dependency extraction, proved from its definition.

use crate::ast::{Expr, HandlerCase, Ident, Span, Type};
use crate::hash::{hex_bytes, is_hash_literal};
use crate::namespace::namespace_of;
use crate::semantics::{
    annotation_deps, bound_names, expr_deps, exprs_deps, exprs_leaked, extend_top, found_set,
    handlers_deps, leaked, lemma_bound_extend_top, lemma_bound_push, lemma_extend_pushed, lookup,
    params_deps, params_names, patterns_names, resolve, type_deps,
};
use vstd::prelude::*;

verus! {

/// A bare reference that no local binding shadows, to a name defined in
/// the current namespace, depends on exactly that definition.
pub proof fn law_reference_in_current_namespace(
    store: Map<(Seq<Seq<char>>, Seq<char>), Seq<u8>>,
    namespace: Seq<Seq<char>>,
    bound: Set<Seq<char>>,
    ident: Ident,
    span: Span,
)
    requires
        store.contains_key((namespace, ident@)),
        !bound.contains(ident@),
    ensures
        expr_deps(store, namespace, bound, Expr::Ident(ident, span)) == set![
            store[(namespace, ident@)],
        ],
{
}

/// A reference to a locally bound name depends on nothing, whatever the
/// store holds under that name.
pub proof fn law_bound_name_is_not_resolved(
    store: Map<(Seq<Seq<char>>, Seq<char>), Seq<u8>>,
    namespace: Seq<Seq<char>>,
    bound: Set<Seq<char>>,
    ident: Ident,
    span: Span,
)
    requires
        bound.contains(ident@),
    ensures
        expr_deps(store, namespace, bound, Expr::Ident(ident, span)) == Set::<Seq<u8>>::empty(),
{
}

/// The first `n` parameters bind each of their names.
pub proof fn lemma_params_names_contains(params: Seq<(Ident, Option<Type>)>, n: nat, i: int)
    requires
        0 <= i < n <= params.len(),
    ensures
        params_names(params, n).contains(params[i].0@),
    decreases n,
{
    if i < n - 1 {
        lemma_params_names_contains(params, (n - 1) as nat, i);
    }
}

/// Shadowing: in the body of a lambda a reference to one of its
/// parameters depends on nothing, whatever the store holds under that
/// name. Such a lambda depends only on what its annotations need.
pub proof fn law_lambda_parameter_shadows(
    store: Map<(Seq<Seq<char>>, Seq<char>), Seq<u8>>,
    namespace: Seq<Seq<char>>,
    bound: Set<Seq<char>>,
    lambda: Expr,
    i: int,
)
    requires
        lambda matches Expr::Lambda { params, body, .. } && 0 <= i < params@.len() && (
        *body matches Expr::Ident(ident, _) && ident@ == params@[i].0@),
    ensures
        lambda matches Expr::Lambda { params, .. } && expr_deps(store, namespace, bound, lambda)
            == params_deps(store, namespace, params@, params@.len()),
{
    match lambda {
        Expr::Lambda { params, body, .. } => {
            lemma_params_names_contains(params@, params@.len(), i);
            let inner = bound.union(params_names(params@, params@.len()));
            assert(expr_deps(store, namespace, inner, *body) == Set::<Seq<u8>>::empty());
        },
        _ => {},
    }
}

/// The first `n` expressions of a sequence leave bound what each of them
/// leaves bound.
pub proof fn lemma_exprs_leaked_contains(exprs: Seq<Expr>, n: nat, i: int, name: Seq<char>)
    requires
        0 <= i < n <= exprs.len(),
        leaked(exprs[i]).contains(name),
    ensures
        exprs_leaked(exprs, n).contains(name),
    decreases n,
{
    if i < n - 1 {
        lemma_exprs_leaked_contains(exprs, (n - 1) as nat, i, name);
    }
}

/// The first `n` expressions of a sequence leave bound only what one of
/// them leaves bound.
pub proof fn lemma_exprs_leaked_origin(exprs: Seq<Expr>, n: nat, name: Seq<char>) -> (i: int)
    requires
        n <= exprs.len(),
        exprs_leaked(exprs, n).contains(name),
    ensures
        0 <= i < n,
        leaked(exprs[i]).contains(name),
    decreases n,
{
    if leaked(exprs[n - 1]).contains(name) {
        n - 1
    } else {
        lemma_exprs_leaked_origin(exprs, (n - 1) as nat, name)
    }
}

/// What the first `n` expressions of a sequence depend on includes what
/// each of them depends on where it stands.
pub proof fn lemma_exprs_deps_contains(
    store: Map<(Seq<Seq<char>>, Seq<char>), Seq<u8>>,
    namespace: Seq<Seq<char>>,
    bound: Set<Seq<char>>,
    exprs: Seq<Expr>,
    n: nat,
    i: int,
)
    requires
        0 <= i < n <= exprs.len(),
    ensures
        expr_deps(store, namespace, bound.union(exprs_leaked(exprs, i as nat)), exprs[i]).subset_of(
            exprs_deps(store, namespace, bound, exprs, n),
        ),
    decreases n,
{
    if i < n - 1 {
        lemma_exprs_deps_contains(store, namespace, bound, exprs, (n - 1) as nat, i);
    }
}

/// A sequential `let` is visible to what comes later in its sequence: a
/// reference to its name, later in the sequence, depends on nothing.
pub proof fn law_sequential_let_visible_later(
    store: Map<(Seq<Seq<char>>, Seq<char>), Seq<u8>>,
    namespace: Seq<Seq<char>>,
    bound: Set<Seq<char>>,
    exprs: Seq<Expr>,
    i: int,
    j: int,
)
    requires
        0 <= i < j < exprs.len(),
        exprs[i] matches Expr::Let { name, .. } && (exprs[j] matches Expr::Ident(ident, _)
            && ident@ == name@),
    ensures
        expr_deps(store, namespace, bound.union(exprs_leaked(exprs, j as nat)), exprs[j])
            == Set::<Seq<u8>>::empty(),
{
    match exprs[i] {
        Expr::Let { name, .. } => {
            lemma_exprs_leaked_contains(exprs, j as nat, i, name@);
        },
        _ => {},
    }
}

/// A sequential `let` is not visible to what comes earlier in its
/// sequence: a reference to a name that nothing before it has bound is
/// resolved against the store, whatever comes after it, and the sequence
/// depends on what it resolves to.
pub proof fn law_sequential_let_invisible_earlier(
    store: Map<(Seq<Seq<char>>, Seq<char>), Seq<u8>>,
    namespace: Seq<Seq<char>>,
    bound: Set<Seq<char>>,
    exprs: Seq<Expr>,
    j: int,
)
    requires
        0 <= j < exprs.len(),
        exprs[j] matches Expr::Ident(ident, _) && !bound.contains(ident@) && forall|k: int|
            0 <= k < j ==> !leaked(#[trigger] exprs[k]).contains(ident@),
    ensures
        exprs[j] matches Expr::Ident(ident, _) && found_set(
            resolve(store, namespace, ident@),
        ).subset_of(exprs_deps(store, namespace, bound, exprs, exprs.len())),
{
    match exprs[j] {
        Expr::Ident(ident, _) => {
            if exprs_leaked(exprs, j as nat).contains(ident@) {
                lemma_exprs_leaked_origin(exprs, j as nat, ident@);
            }
            lemma_exprs_deps_contains(store, namespace, bound, exprs, exprs.len(), j);
        },
        _ => {},
    }
}

/// The scope of a clause of a `handle` expression: the first `n` clauses
/// depend on what the body of each depends on with the clause's own
/// continuation and pattern names bound, whatever the other clauses bind.
pub proof fn law_handle_clause_has_its_own_scope(
    store: Map<(Seq<Seq<char>>, Seq<char>), Seq<u8>>,
    namespace: Seq<Seq<char>>,
    bound: Set<Seq<char>>,
    handlers: Seq<HandlerCase>,
    n: nat,
    i: int,
)
    requires
        0 <= i < n <= handlers.len(),
    ensures
        expr_deps(
            store,
            namespace,
            bound.insert(handlers[i].continuation@).union(
                patterns_names(handlers[i].patterns@, handlers[i].patterns@.len()),
            ),
            handlers[i].body,
        ).subset_of(handlers_deps(store, namespace, bound, handlers, n)),
    decreases n,
{
    if i < n - 1 {
        law_handle_clause_has_its_own_scope(store, namespace, bound, handlers, (n - 1) as nat, i);
    }
}

/// In the body of a clause of a `handle` expression a reference to the
/// clause's continuation depends on nothing, whatever the store holds
/// under that name: a `handle` expression whose handled expression is
/// `handled` and whose one clause is such a reference depends on what
/// `handled` depends on.
pub proof fn law_handle_clause_binds_continuation(
    store: Map<(Seq<Seq<char>>, Seq<char>), Seq<u8>>,
    namespace: Seq<Seq<char>>,
    bound: Set<Seq<char>>,
    handle: Expr,
)
    requires
        handle matches Expr::HandleExpr { handlers, return_handler, .. } && return_handler is None
            && handlers@.len() == 1 && (handlers@[0].body matches Expr::Ident(ident, _) && ident@
            == handlers@[0].continuation@),
    ensures
        handle matches Expr::HandleExpr { expr, .. } && expr_deps(store, namespace, bound, handle)
            == expr_deps(store, namespace, bound, *expr),
{
    match handle {
        Expr::HandleExpr { expr, handlers, .. } => {
            let inner = bound.union(leaked(*expr));
            let clause = handlers@[0];
            let scope = inner.insert(clause.continuation@).union(
                patterns_names(clause.patterns@, clause.patterns@.len()),
            );
            assert(expr_deps(store, namespace, scope, clause.body) == Set::<Seq<u8>>::empty());
            assert(handlers_deps(store, namespace, inner, handlers@, 0) == Set::<Seq<u8>>::empty());
            assert(handlers_deps(store, namespace, inner, handlers@, 1) == Set::<Seq<u8>>::empty());
        },
        _ => {},
    }
}

/// A recursive `let` binds its name before its value is read: a value
/// that is a reference to the name itself depends on nothing, whatever
/// the store holds under that name.
pub proof fn law_recursive_let_self_reference(
    store: Map<(Seq<Seq<char>>, Seq<char>), Seq<u8>>,
    namespace: Seq<Seq<char>>,
    bound: Set<Seq<char>>,
    binding: Expr,
)
    requires
        binding matches Expr::LetRec { name, value, .. } && (*value matches Expr::Ident(ident, _)
            && ident@ == name@),
    ensures
        binding matches Expr::LetRec { type_ann, .. } && expr_deps(store, namespace, bound, binding)
            == annotation_deps(store, namespace, type_ann),
{
    match binding {
        Expr::LetRec { name, value, .. } => {
            assert(expr_deps(store, namespace, bound.insert(name@), *value) == Set::<
                Seq<u8>,
            >::empty());
        },
        _ => {},
    }
}

/// The value of a recursive `let`, the value and the body of a recursive
/// `let` with a body, and the body of a recursive function are read with
/// the bound name in scope.
pub proof fn law_recursive_binding_in_scope(
    store: Map<(Seq<Seq<char>>, Seq<char>), Seq<u8>>,
    namespace: Seq<Seq<char>>,
    bound: Set<Seq<char>>,
    binding: Expr,
)
    ensures
        binding matches Expr::LetRec { name, type_ann, value, .. } ==> expr_deps(
            store,
            namespace,
            bound,
            binding,
        ) == annotation_deps(store, namespace, type_ann).union(
            expr_deps(store, namespace, bound.insert(name@), *value),
        ),
        binding matches Expr::LetRecIn { name, value, body, .. } ==> expr_deps(
            store,
            namespace,
            bound,
            binding,
        ) == expr_deps(store, namespace, bound.insert(name@), *value).union(
            expr_deps(store, namespace, bound.insert(name@).union(leaked(*value)), *body),
        ),
        binding matches Expr::Rec { name, params, return_type, body, .. } ==> expr_deps(
            store,
            namespace,
            bound,
            binding,
        ) == annotation_deps(store, namespace, return_type).union(
            params_deps(store, namespace, params@, params@.len()),
        ).union(
            expr_deps(
                store,
                namespace,
                bound.insert(name@).union(params_names(params@, params@.len())),
                *body,
            ),
        ),
{
}

/// A qualified reference depends on the definition stored at exactly the
/// named module and name, if there is one: the current namespace and the
/// local scope play no part.
pub proof fn law_qualified_reference(
    store: Map<(Seq<Seq<char>>, Seq<char>), Seq<u8>>,
    namespace: Seq<Seq<char>>,
    bound: Set<Seq<char>>,
    other_namespace: Seq<Seq<char>>,
    other_bound: Set<Seq<char>>,
    reference: Expr,
)
    requires
        reference is QualifiedIdent,
    ensures
        reference matches Expr::QualifiedIdent { module_name, name, .. } && expr_deps(
            store,
            namespace,
            bound,
            reference,
        ) == found_set(lookup(store, namespace_of(module_name@), name@)),
        expr_deps(store, namespace, bound, reference) == expr_deps(
            store,
            other_namespace,
            other_bound,
            reference,
        ),
{
}

/// A well-formed hash literal depends on exactly the hash it spells: the
/// store, the namespace and the local scope play no part.
pub proof fn law_hash_literal(
    store: Map<(Seq<Seq<char>>, Seq<char>), Seq<u8>>,
    namespace: Seq<Seq<char>>,
    bound: Set<Seq<char>>,
    literal: Expr,
)
    requires
        literal matches Expr::HashRef { hash, .. } && is_hash_literal(hash@),
    ensures
        literal matches Expr::HashRef { hash, .. } && expr_deps(store, namespace, bound, literal)
            == set![hex_bytes(hash@)] && hex_bytes(hash@).len() == 32,
{
}

/// A hash literal that is not well formed depends on nothing.
pub proof fn law_malformed_hash_literal(
    store: Map<(Seq<Seq<char>>, Seq<char>), Seq<u8>>,
    namespace: Seq<Seq<char>>,
    bound: Set<Seq<char>>,
    literal: Expr,
)
    requires
        literal matches Expr::HashRef { hash, .. } && !is_hash_literal(hash@),
    ensures
        expr_deps(store, namespace, bound, literal) == Set::<Seq<u8>>::empty(),
{
}

/// Ancestor fallback: a name resolves to the definition in the nearest
/// namespace, from the current one up to the root, that has one. Here
/// `depth` is the length of that namespace's path.
pub proof fn law_nearest_ancestor_wins(
    store: Map<(Seq<Seq<char>>, Seq<char>), Seq<u8>>,
    namespace: Seq<Seq<char>>,
    name: Seq<char>,
    depth: int,
)
    requires
        0 <= depth <= namespace.len(),
        store.contains_key((namespace.take(depth), name)),
        forall|d: int|
            depth < d <= namespace.len() ==> !store.contains_key((#[trigger] namespace.take(d), name)),
    ensures
        resolve(store, namespace, name) == Some(store[(namespace.take(depth), name)]),
    decreases namespace.len() - depth,
{
    assert(namespace.take(namespace.len() as int) =~= namespace);
    if depth < namespace.len() {
        let parent = namespace.drop_last();
        assert(parent.take(depth) =~= namespace.take(depth));
        assert forall|d: int| depth < d <= parent.len() implies !store.contains_key(
            (#[trigger] parent.take(d), name),
        ) by {
            assert(parent.take(d) =~= namespace.take(d));
        }
        law_nearest_ancestor_wins(store, parent, name, depth);
    }
}

/// A name that neither the current namespace nor any of its ancestors
/// defines does not resolve.
pub proof fn law_unresolved_name(
    store: Map<(Seq<Seq<char>>, Seq<char>), Seq<u8>>,
    namespace: Seq<Seq<char>>,
    name: Seq<char>,
)
    requires
        forall|d: int|
            0 <= d <= namespace.len() ==> !store.contains_key((#[trigger] namespace.take(d), name)),
    ensures
        resolve(store, namespace, name) is None,
    decreases namespace.len(),
{
    assert(namespace.take(namespace.len() as int) =~= namespace);
    if namespace.len() > 0 {
        let parent = namespace.drop_last();
        assert forall|d: int| 0 <= d <= parent.len() implies !store.contains_key(
            (#[trigger] parent.take(d), name),
        ) by {
            assert(parent.take(d) =~= namespace.take(d));
        }
        law_unresolved_name(store, parent, name);
    }
}

/// Scope discipline: a name bound in the top frame is local at once and
/// stays local while frames are pushed above it; what a pushed frame
/// binds leaves with the frame, and the stack is then what it was.
pub proof fn law_scope_discipline(
    scopes: Seq<Set<Seq<char>>>,
    name: Seq<char>,
    pushed: Set<Seq<char>>,
)
    requires
        scopes.len() > 0,
    ensures
        bound_names(extend_top(scopes, set![name])).contains(name),
        bound_names(extend_top(scopes, set![name]).push(pushed)).contains(name),
        extend_top(scopes.push(Set::empty()), pushed).drop_last() == scopes,
        scopes.push(pushed).len() == scopes.len() + 1,
{
    lemma_bound_extend_top(scopes, set![name]);
    lemma_bound_push(extend_top(scopes, set![name]), pushed);
    lemma_extend_pushed(scopes, Set::empty(), pushed);
    lemma_extend_pushed(scopes, Set::empty().union(pushed), Set::empty());
}

/// The effect row of a function type is not read: such a type depends on
/// what its two sides depend on, whatever the effects are.
pub proof fn law_effect_row_is_not_read(
    store: Map<(Seq<Seq<char>>, Seq<char>), Seq<u8>>,
    namespace: Seq<Seq<char>>,
    typ: Type,
)
    requires
        typ is FunctionWithEffect,
    ensures
        typ matches Type::FunctionWithEffect { from, to, .. } && type_deps(store, namespace, typ)
            == type_deps(store, namespace, *from).union(type_deps(store, namespace, *to)),
{
}

} // verus!
