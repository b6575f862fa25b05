//! What dependency extraction computes, stated over sets.
//!
//! A free reference resolves against the store along the chain of
//! enclosing namespaces. A name is bound where a binding construct has
//! put it in scope; a bound name is never resolved.

use crate::ast::{DoStatement, Expr, FunctionParam, HandlerCase, Ident, Pattern, Type};
use crate::hash::{hex_bytes, is_hash_literal};
use crate::namespace::namespace_of;
use vstd::prelude::*;

verus! {

/// The set that holds `found`, if there is one.
pub open spec fn found_set(found: Option<Seq<u8>>) -> Set<Seq<u8>> {
    match found {
        Some(hash) => set![hash],
        None => Set::empty(),
    }
}

/// The hash stored at exactly `(namespace, name)`, if there is one.
pub open spec fn lookup(
    store: Map<(Seq<Seq<char>>, Seq<char>), Seq<u8>>,
    namespace: Seq<Seq<char>>,
    name: Seq<char>,
) -> Option<Seq<u8>> {
    if store.contains_key((namespace, name)) {
        Some(store[(namespace, name)])
    } else {
        None
    }
}

/// Resolution of a bare name: the hash stored under `name` in `namespace`
/// or, failing that, in the nearest enclosing namespace that has one, up
/// to and including the root.
pub open spec fn resolve(
    store: Map<(Seq<Seq<char>>, Seq<char>), Seq<u8>>,
    namespace: Seq<Seq<char>>,
    name: Seq<char>,
) -> Option<Seq<u8>>
    decreases namespace.len(),
{
    if store.contains_key((namespace, name)) {
        Some(store[(namespace, name)])
    } else if namespace.len() == 0 {
        None
    } else {
        resolve(store, namespace.drop_last(), name)
    }
}

/// Resolution of a qualified name: exactly the namespace that the dotted
/// module text names, with no search.
pub open spec fn resolve_qualified(
    store: Map<(Seq<Seq<char>>, Seq<char>), Seq<u8>>,
    module: Seq<char>,
    name: Seq<char>,
) -> Option<Seq<u8>> {
    lookup(store, namespace_of(module), name)
}

/// The dependency that a hash literal contributes: its hash if the text
/// is well formed, nothing otherwise.
pub open spec fn hash_literal_deps(text: Seq<char>) -> Set<Seq<u8>> {
    if is_hash_literal(text) {
        set![hex_bytes(text)]
    } else {
        Set::empty()
    }
}

// ---------------------------------------------------------------- types

/// The dependencies of a type: the resolved names of the user-defined
/// types in it. Effect rows contribute nothing.
pub open spec fn type_deps(
    store: Map<(Seq<Seq<char>>, Seq<char>), Seq<u8>>,
    namespace: Seq<Seq<char>>,
    typ: Type,
) -> Set<Seq<u8>>
    decreases typ, 0nat,
{
    match typ {
        Type::UserDefined { name, type_params } => found_set(resolve(store, namespace, name@)).union(
            types_deps(store, namespace, type_params@, type_params@.len()),
        ),
        Type::Function(from, to) => type_deps(store, namespace, *from).union(
            type_deps(store, namespace, *to),
        ),
        Type::FunctionWithEffect { from, to, .. } => type_deps(store, namespace, *from).union(
            type_deps(store, namespace, *to),
        ),
        Type::List(elem) => type_deps(store, namespace, *elem),
        Type::Record { fields } => field_types_deps(store, namespace, fields@, fields@.len()),
        Type::Option(inner) => type_deps(store, namespace, *inner),
        Type::Tuple(types) => types_deps(store, namespace, types@, types@.len()),
        Type::Int | Type::Float | Type::Bool | Type::String | Type::Unit | Type::Var(_) => Set::empty(),
    }
}

/// The dependencies of the first `n` of `types`.
pub open spec fn types_deps(
    store: Map<(Seq<Seq<char>>, Seq<char>), Seq<u8>>,
    namespace: Seq<Seq<char>>,
    types: Seq<Type>,
    n: nat,
) -> Set<Seq<u8>>
    decreases types, n,
{
    if n == 0 || n > types.len() {
        Set::empty()
    } else {
        types_deps(store, namespace, types, (n - 1) as nat).union(
            type_deps(store, namespace, types[n - 1]),
        )
    }
}

/// The dependencies of the types of the first `n` of `fields`.
pub open spec fn field_types_deps(
    store: Map<(Seq<Seq<char>>, Seq<char>), Seq<u8>>,
    namespace: Seq<Seq<char>>,
    fields: Seq<(String, Type)>,
    n: nat,
) -> Set<Seq<u8>>
    decreases fields, n,
{
    if n == 0 || n > fields.len() {
        Set::empty()
    } else {
        field_types_deps(store, namespace, fields, (n - 1) as nat).union(
            type_deps(store, namespace, fields[n - 1].1),
        )
    }
}

/// The dependencies of an optional type annotation.
pub open spec fn annotation_deps(
    store: Map<(Seq<Seq<char>>, Seq<char>), Seq<u8>>,
    namespace: Seq<Seq<char>>,
    annotation: Option<Type>,
) -> Set<Seq<u8>> {
    match annotation {
        Some(typ) => type_deps(store, namespace, typ),
        None => Set::empty(),
    }
}

// ------------------------------------------------------------- binders

/// The names that a pattern binds.
pub open spec fn pattern_names(pattern: Pattern) -> Set<Seq<char>>
    decreases pattern, 0nat,
{
    match pattern {
        Pattern::Variable(ident, _) => set![ident@],
        Pattern::List { patterns, .. } => patterns_names(patterns@, patterns@.len()),
        Pattern::Constructor { patterns, .. } => patterns_names(patterns@, patterns@.len()),
        Pattern::Wildcard(_) | Pattern::Literal(_, _) => Set::empty(),
    }
}

/// The names that the first `n` of `patterns` bind.
pub open spec fn patterns_names(patterns: Seq<Pattern>, n: nat) -> Set<Seq<char>>
    decreases patterns, n,
{
    if n == 0 || n > patterns.len() {
        Set::empty()
    } else {
        patterns_names(patterns, (n - 1) as nat).union(pattern_names(patterns[n - 1]))
    }
}

/// The names of the first `n` of `params`.
pub open spec fn params_names(params: Seq<(Ident, Option<Type>)>, n: nat) -> Set<Seq<char>>
    decreases n,
{
    if n == 0 || n > params.len() {
        Set::empty()
    } else {
        params_names(params, (n - 1) as nat).insert(params[n - 1].0@)
    }
}

/// The dependencies of the type annotations of the first `n` of `params`.
pub open spec fn params_deps(
    store: Map<(Seq<Seq<char>>, Seq<char>), Seq<u8>>,
    namespace: Seq<Seq<char>>,
    params: Seq<(Ident, Option<Type>)>,
    n: nat,
) -> Set<Seq<u8>>
    decreases n,
{
    if n == 0 || n > params.len() {
        Set::empty()
    } else {
        params_deps(store, namespace, params, (n - 1) as nat).union(
            annotation_deps(store, namespace, params[n - 1].1),
        )
    }
}

/// The names of the first `n` of the parameters of a function definition.
pub open spec fn function_params_names(params: Seq<FunctionParam>, n: nat) -> Set<Seq<char>>
    decreases n,
{
    if n == 0 || n > params.len() {
        Set::empty()
    } else {
        function_params_names(params, (n - 1) as nat).insert(params[n - 1].name@)
    }
}

/// The dependencies of the types of the first `n` of the parameters of a
/// function definition.
pub open spec fn function_params_deps(
    store: Map<(Seq<Seq<char>>, Seq<char>), Seq<u8>>,
    namespace: Seq<Seq<char>>,
    params: Seq<FunctionParam>,
    n: nat,
) -> Set<Seq<u8>>
    decreases n,
{
    if n == 0 || n > params.len() {
        Set::empty()
    } else {
        function_params_deps(store, namespace, params, (n - 1) as nat).union(
            annotation_deps(store, namespace, params[n - 1].typ),
        )
    }
}

// ------------------------------------------------- names left in scope

/// The names that an expression leaves bound in the scope it is read in,
/// for what is read after it there. Only the sequential forms of `let`
/// leave a name; a construct with a scope of its own leaves none.
pub open spec fn leaked(expr: Expr) -> Set<Seq<char>>
    decreases expr, 0nat,
{
    match expr {
        Expr::Let { name, value, .. } => leaked(*value).insert(name@),
        Expr::LetRec { name, value, .. } => leaked(*value).insert(name@),
        Expr::LetIn { value, .. } => leaked(*value),
        Expr::If { cond, then_expr, else_expr, .. } => leaked(*cond).union(leaked(*then_expr)).union(
            leaked(*else_expr),
        ),
        Expr::Apply { func, args, .. } => leaked(*func).union(exprs_leaked(args@, args@.len())),
        Expr::Match { expr, .. } => leaked(*expr),
        Expr::List(items, _) => exprs_leaked(items@, items@.len()),
        Expr::Constructor { args, .. } => exprs_leaked(args@, args@.len()),
        Expr::Module { body, .. } => exprs_leaked(body@, body@.len()),
        Expr::Handler { body, .. } => leaked(*body),
        Expr::WithHandler { handler, body, .. } => leaked(*handler).union(leaked(*body)),
        Expr::Perform { args, .. } => exprs_leaked(args@, args@.len()),
        Expr::Pipeline { expr, func, .. } => leaked(*expr).union(leaked(*func)),
        Expr::Block { exprs, .. } => exprs_leaked(exprs@, exprs@.len()),
        Expr::Do { statements, .. } => statements_leaked(statements@, statements@.len()),
        Expr::RecordLiteral { fields, .. } => fields_leaked(fields@, fields@.len()),
        Expr::RecordAccess { record, .. } => leaked(*record),
        Expr::RecordUpdate { record, updates, .. } => leaked(*record).union(
            fields_leaked(updates@, updates@.len()),
        ),
        Expr::HandleExpr { expr, return_handler, .. } => leaked(*expr).union(
            match return_handler {
                Some((_, body)) => leaked(*body),
                None => Set::empty(),
            },
        ),
        Expr::Literal(_, _)
        | Expr::Ident(_, _)
        | Expr::QualifiedIdent { .. }
        | Expr::Lambda { .. }
        | Expr::LetRecIn { .. }
        | Expr::Rec { .. }
        | Expr::Import { .. }
        | Expr::Use { .. }
        | Expr::TypeDef { .. }
        | Expr::Hole { .. }
        | Expr::FunctionDef { .. }
        | Expr::HashRef { .. } => Set::empty(),
    }
}

/// The names that the first `n` of `exprs` leave bound.
pub open spec fn exprs_leaked(exprs: Seq<Expr>, n: nat) -> Set<Seq<char>>
    decreases exprs, n,
{
    if n == 0 || n > exprs.len() {
        Set::empty()
    } else {
        exprs_leaked(exprs, (n - 1) as nat).union(leaked(exprs[n - 1]))
    }
}

/// The names that the first `n` of `statements` leave bound.
pub open spec fn statements_leaked(statements: Seq<DoStatement>, n: nat) -> Set<Seq<char>>
    decreases statements, n,
{
    if n == 0 || n > statements.len() {
        Set::empty()
    } else {
        statements_leaked(statements, (n - 1) as nat).union(
            match statements[n - 1] {
                DoStatement::Bind { expr, .. } => leaked(expr),
                DoStatement::Expression(expr) => leaked(expr),
            },
        )
    }
}

/// The names that the values of the first `n` of `fields` leave bound.
pub open spec fn fields_leaked(fields: Seq<(Ident, Expr)>, n: nat) -> Set<Seq<char>>
    decreases fields, n,
{
    if n == 0 || n > fields.len() {
        Set::empty()
    } else {
        fields_leaked(fields, (n - 1) as nat).union(leaked(fields[n - 1].1))
    }
}

// ------------------------------------------------------- dependencies

/// The dependencies of an expression read in namespace `namespace` with
/// the names in `bound` locally bound.
///
/// Every clause of a handler and of a `handle` expression is read in a
/// scope of its own. The return clause of a `handle` expression is not:
/// it is read where the expression stands, after the clauses, and the
/// name it gives the returned value is not bound.
pub open spec fn expr_deps(
    store: Map<(Seq<Seq<char>>, Seq<char>), Seq<u8>>,
    namespace: Seq<Seq<char>>,
    bound: Set<Seq<char>>,
    expr: Expr,
) -> Set<Seq<u8>>
    decreases expr, 0nat,
{
    match expr {
        Expr::Ident(ident, _) => if bound.contains(ident@) {
            Set::empty()
        } else {
            found_set(resolve(store, namespace, ident@))
        },
        Expr::QualifiedIdent { module_name, name, .. } => found_set(
            resolve_qualified(store, module_name@, name@),
        ),
        Expr::Lambda { params, body, .. } => params_deps(store, namespace, params@, params@.len()).union(
            expr_deps(store, namespace, bound.union(params_names(params@, params@.len())), *body),
        ),
        Expr::Let { type_ann, value, .. } => annotation_deps(store, namespace, type_ann).union(
            expr_deps(store, namespace, bound, *value),
        ),
        Expr::LetIn { name, type_ann, value, body, .. } => annotation_deps(
            store,
            namespace,
            type_ann,
        ).union(expr_deps(store, namespace, bound, *value)).union(
            expr_deps(store, namespace, bound.union(leaked(*value)).insert(name@), *body),
        ),
        Expr::LetRec { name, type_ann, value, .. } => annotation_deps(store, namespace, type_ann).union(
            expr_deps(store, namespace, bound.insert(name@), *value),
        ),
        Expr::LetRecIn { name, value, body, .. } => expr_deps(
            store,
            namespace,
            bound.insert(name@),
            *value,
        ).union(expr_deps(store, namespace, bound.insert(name@).union(leaked(*value)), *body)),
        Expr::Rec { name, params, return_type, body, .. } => annotation_deps(
            store,
            namespace,
            return_type,
        ).union(params_deps(store, namespace, params@, params@.len())).union(
            expr_deps(
                store,
                namespace,
                bound.insert(name@).union(params_names(params@, params@.len())),
                *body,
            ),
        ),
        Expr::If { cond, then_expr, else_expr, .. } => expr_deps(store, namespace, bound, *cond).union(
            expr_deps(store, namespace, bound.union(leaked(*cond)), *then_expr),
        ).union(
            expr_deps(
                store,
                namespace,
                bound.union(leaked(*cond)).union(leaked(*then_expr)),
                *else_expr,
            ),
        ),
        Expr::Apply { func, args, .. } => expr_deps(store, namespace, bound, *func).union(
            exprs_deps(store, namespace, bound.union(leaked(*func)), args@, args@.len()),
        ),
        Expr::Match { expr, cases, .. } => expr_deps(store, namespace, bound, *expr).union(
            cases_deps(store, namespace, bound.union(leaked(*expr)), cases@, cases@.len()),
        ),
        Expr::List(items, _) => exprs_deps(store, namespace, bound, items@, items@.len()),
        Expr::Constructor { name, args, .. } => found_set(resolve(store, namespace, name@)).union(
            exprs_deps(store, namespace, bound, args@, args@.len()),
        ),
        Expr::Module { body, .. } => exprs_deps(store, namespace, bound, body@, body@.len()),
        Expr::Handler { cases, body, .. } => handler_cases_deps(
            store,
            namespace,
            bound,
            cases@,
            cases@.len(),
        ).union(expr_deps(store, namespace, bound, *body)),
        Expr::WithHandler { handler, body, .. } => expr_deps(store, namespace, bound, *handler).union(
            expr_deps(store, namespace, bound.union(leaked(*handler)), *body),
        ),
        Expr::Perform { args, .. } => exprs_deps(store, namespace, bound, args@, args@.len()),
        Expr::Pipeline { expr, func, .. } => expr_deps(store, namespace, bound, *expr).union(
            expr_deps(store, namespace, bound.union(leaked(*expr)), *func),
        ),
        Expr::Block { exprs, .. } => exprs_deps(store, namespace, bound, exprs@, exprs@.len()),
        Expr::Do { statements, .. } => statements_deps(
            store,
            namespace,
            bound,
            statements@,
            statements@.len(),
        ),
        Expr::RecordLiteral { fields, .. } => fields_deps(
            store,
            namespace,
            bound,
            fields@,
            fields@.len(),
        ),
        Expr::RecordAccess { record, .. } => expr_deps(store, namespace, bound, *record),
        Expr::RecordUpdate { record, updates, .. } => expr_deps(store, namespace, bound, *record).union(
            fields_deps(store, namespace, bound.union(leaked(*record)), updates@, updates@.len()),
        ),
        Expr::HandleExpr { expr, handlers, return_handler, .. } => expr_deps(
            store,
            namespace,
            bound,
            *expr,
        ).union(
            handlers_deps(store, namespace, bound.union(leaked(*expr)), handlers@, handlers@.len()),
        ).union(
            match return_handler {
                Some((_, body)) => expr_deps(store, namespace, bound.union(leaked(*expr)), *body),
                None => Set::empty(),
            },
        ),
        Expr::FunctionDef { params, return_type, body, .. } => annotation_deps(
            store,
            namespace,
            return_type,
        ).union(function_params_deps(store, namespace, params@, params@.len())).union(
            expr_deps(
                store,
                namespace,
                bound.union(function_params_names(params@, params@.len())),
                *body,
            ),
        ),
        Expr::HashRef { hash, .. } => hash_literal_deps(hash@),
        Expr::Literal(_, _)
        | Expr::Import { .. }
        | Expr::Use { .. }
        | Expr::TypeDef { .. }
        | Expr::Hole { .. } => Set::empty(),
    }
}

/// The dependencies of the first `n` of `exprs`, read in order: each sees
/// the names that those before it have left bound.
pub open spec fn exprs_deps(
    store: Map<(Seq<Seq<char>>, Seq<char>), Seq<u8>>,
    namespace: Seq<Seq<char>>,
    bound: Set<Seq<char>>,
    exprs: Seq<Expr>,
    n: nat,
) -> Set<Seq<u8>>
    decreases exprs, n,
{
    if n == 0 || n > exprs.len() {
        Set::empty()
    } else {
        exprs_deps(store, namespace, bound, exprs, (n - 1) as nat).union(
            expr_deps(
                store,
                namespace,
                bound.union(exprs_leaked(exprs, (n - 1) as nat)),
                exprs[n - 1],
            ),
        )
    }
}

/// The dependencies of the first `n` arms of a match. Each arm is read
/// with the names of its own pattern bound, and leaves nothing to the
/// others.
pub open spec fn cases_deps(
    store: Map<(Seq<Seq<char>>, Seq<char>), Seq<u8>>,
    namespace: Seq<Seq<char>>,
    bound: Set<Seq<char>>,
    cases: Seq<(Pattern, Expr)>,
    n: nat,
) -> Set<Seq<u8>>
    decreases cases, n,
{
    if n == 0 || n > cases.len() {
        Set::empty()
    } else {
        cases_deps(store, namespace, bound, cases, (n - 1) as nat).union(
            expr_deps(store, namespace, bound.union(pattern_names(cases[n - 1].0)), cases[n - 1].1),
        )
    }
}

/// The dependencies of the first `n` clauses of a handler. Each clause is
/// read with its continuation and the names of its patterns bound, and
/// leaves nothing to the others.
pub open spec fn handler_cases_deps(
    store: Map<(Seq<Seq<char>>, Seq<char>), Seq<u8>>,
    namespace: Seq<Seq<char>>,
    bound: Set<Seq<char>>,
    cases: Seq<(Ident, Vec<Pattern>, Ident, Expr)>,
    n: nat,
) -> Set<Seq<u8>>
    decreases cases, n,
{
    if n == 0 || n > cases.len() {
        Set::empty()
    } else {
        handler_cases_deps(store, namespace, bound, cases, (n - 1) as nat).union(
            expr_deps(
                store,
                namespace,
                bound.insert(cases[n - 1].2@).union(
                    patterns_names(cases[n - 1].1@, cases[n - 1].1@.len()),
                ),
                cases[n - 1].3,
            ),
        )
    }
}

/// The dependencies of the first `n` of `statements`, read in order. A
/// bind statement binds no name for the statements after it.
pub open spec fn statements_deps(
    store: Map<(Seq<Seq<char>>, Seq<char>), Seq<u8>>,
    namespace: Seq<Seq<char>>,
    bound: Set<Seq<char>>,
    statements: Seq<DoStatement>,
    n: nat,
) -> Set<Seq<u8>>
    decreases statements, n,
{
    if n == 0 || n > statements.len() {
        Set::empty()
    } else {
        statements_deps(store, namespace, bound, statements, (n - 1) as nat).union(
            match statements[n - 1] {
                DoStatement::Bind { expr, .. } => expr_deps(
                    store,
                    namespace,
                    bound.union(statements_leaked(statements, (n - 1) as nat)),
                    expr,
                ),
                DoStatement::Expression(expr) => expr_deps(
                    store,
                    namespace,
                    bound.union(statements_leaked(statements, (n - 1) as nat)),
                    expr,
                ),
            },
        )
    }
}

/// The dependencies of the values of the first `n` of `fields`, read in order.
pub open spec fn fields_deps(
    store: Map<(Seq<Seq<char>>, Seq<char>), Seq<u8>>,
    namespace: Seq<Seq<char>>,
    bound: Set<Seq<char>>,
    fields: Seq<(Ident, Expr)>,
    n: nat,
) -> Set<Seq<u8>>
    decreases fields, n,
{
    if n == 0 || n > fields.len() {
        Set::empty()
    } else {
        fields_deps(store, namespace, bound, fields, (n - 1) as nat).union(
            expr_deps(
                store,
                namespace,
                bound.union(fields_leaked(fields, (n - 1) as nat)),
                fields[n - 1].1,
            ),
        )
    }
}

/// The dependencies of the first `n` clauses of a `handle` expression.
/// Each clause is read with its continuation and the names of its
/// patterns bound, and leaves nothing to the others.
pub open spec fn handlers_deps(
    store: Map<(Seq<Seq<char>>, Seq<char>), Seq<u8>>,
    namespace: Seq<Seq<char>>,
    bound: Set<Seq<char>>,
    handlers: Seq<HandlerCase>,
    n: nat,
) -> Set<Seq<u8>>
    decreases handlers, n,
{
    if n == 0 || n > handlers.len() {
        Set::empty()
    } else {
        handlers_deps(store, namespace, bound, handlers, (n - 1) as nat).union(
            expr_deps(
                store,
                namespace,
                bound.insert(handlers[n - 1].continuation@).union(
                    patterns_names(handlers[n - 1].patterns@, handlers[n - 1].patterns@.len()),
                ),
                handlers[n - 1].body,
            ),
        )
    }
}

// ------------------------------------------------------ the scope stack

/// The names bound in any frame of `scopes`.
pub open spec fn bound_names(scopes: Seq<Set<Seq<char>>>) -> Set<Seq<char>> {
    Set::new(|name: Seq<char>| exists|i: int| 0 <= i < scopes.len() && (#[trigger] scopes[i]).contains(name))
}

/// `scopes` with `names` added to its top frame. A stack without frames
/// stays as it is.
pub open spec fn extend_top(scopes: Seq<Set<Seq<char>>>, names: Set<Seq<char>>) -> Seq<
    Set<Seq<char>>,
> {
    if scopes.len() == 0 {
        scopes
    } else {
        scopes.update(scopes.len() - 1, scopes.last().union(names))
    }
}

/// Adding names to the top frame of a stack that has one adds them to
/// the bound names.
pub proof fn lemma_bound_extend_top(scopes: Seq<Set<Seq<char>>>, names: Set<Seq<char>>)
    requires
        scopes.len() > 0,
    ensures
        bound_names(extend_top(scopes, names)) == bound_names(scopes).union(names),
{
    let after = extend_top(scopes, names);
    let top = scopes.len() - 1;
    assert forall|name: Seq<char>| bound_names(after).contains(name) <==> bound_names(scopes).union(
        names,
    ).contains(name) by {
        if bound_names(after).contains(name) {
            let i = choose|i: int| 0 <= i < after.len() && (#[trigger] after[i]).contains(name);
            if i != top {
                assert(scopes[i].contains(name));
            } else if !names.contains(name) {
                assert(scopes[top].contains(name));
            }
        }
        if bound_names(scopes).contains(name) {
            let i = choose|i: int| 0 <= i < scopes.len() && (#[trigger] scopes[i]).contains(name);
            assert(after[i].contains(name));
        }
        if names.contains(name) {
            assert(after[top].contains(name));
        }
    }
    assert(bound_names(after) =~= bound_names(scopes).union(names));
}

/// A new frame adds its names to the bound names.
pub proof fn lemma_bound_push(scopes: Seq<Set<Seq<char>>>, frame: Set<Seq<char>>)
    ensures
        bound_names(scopes.push(frame)) == bound_names(scopes).union(frame),
{
    let after = scopes.push(frame);
    assert forall|name: Seq<char>| bound_names(after).contains(name) <==> bound_names(scopes).union(
        frame,
    ).contains(name) by {
        if bound_names(after).contains(name) {
            let i = choose|i: int| 0 <= i < after.len() && (#[trigger] after[i]).contains(name);
            if i < scopes.len() {
                assert(scopes[i].contains(name));
            }
        }
        if bound_names(scopes).contains(name) {
            let i = choose|i: int| 0 <= i < scopes.len() && (#[trigger] scopes[i]).contains(name);
            assert(after[i].contains(name));
        }
        if frame.contains(name) {
            assert(after[scopes.len() as int].contains(name));
        }
    }
    assert(bound_names(after) =~= bound_names(scopes).union(frame));
}

/// One empty frame binds no name.
pub proof fn lemma_empty_frame_binds_nothing()
    ensures
        bound_names(seq![Set::<Seq<char>>::empty()]) == Set::<Seq<char>>::empty(),
{
    assert(bound_names(seq![Set::<Seq<char>>::empty()]) =~= Set::<Seq<char>>::empty());
}

/// Adding no names leaves a stack as it is.
pub proof fn lemma_extend_nothing(scopes: Seq<Set<Seq<char>>>)
    ensures
        extend_top(scopes, Set::empty()) == scopes,
{
    if scopes.len() > 0 {
        assert(scopes.last().union(Set::empty()) =~= scopes.last());
    }
}

/// Adding names in two steps is adding their union.
pub proof fn lemma_extend_twice(
    scopes: Seq<Set<Seq<char>>>,
    first: Set<Seq<char>>,
    second: Set<Seq<char>>,
)
    ensures
        extend_top(extend_top(scopes, first), second) == extend_top(
            scopes,
            first.union(second),
        ),
{
    if scopes.len() > 0 {
        assert(scopes.last().union(first).union(second) =~= scopes.last().union(
            first.union(second),
        ));
    }
    assert(extend_top(extend_top(scopes, first), second) =~= extend_top(
        scopes,
        first.union(second),
    ));
}

/// Names added to a frame that was pushed leave with it.
pub proof fn lemma_extend_pushed(
    scopes: Seq<Set<Seq<char>>>,
    frame: Set<Seq<char>>,
    names: Set<Seq<char>>,
)
    ensures
        extend_top(scopes.push(frame), names) == scopes.push(frame.union(names)),
        scopes.push(frame).drop_last() == scopes,
{
}

} // verus!
