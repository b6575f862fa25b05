//! Expressions built only from literals, holes and local variables, and
//! the proof that they depend on nothing.

use crate::ast::{DoStatement, Expr, FunctionParam, HandlerCase, Ident, Pattern, Type};
use crate::semantics::{
    cases_deps, expr_deps, exprs_deps, exprs_leaked, fields_deps, fields_leaked,
    function_params_deps, function_params_names, handler_cases_deps, handlers_deps, leaked,
    params_deps, params_names, pattern_names, patterns_names,
    statements_deps, statements_leaked,
};
use vstd::prelude::*;

verus! {

/// Whether none of `params` has a type annotation.
pub open spec fn params_unannotated(params: Seq<(Ident, Option<Type>)>) -> bool {
    forall|i: int| 0 <= i < params.len() ==> (#[trigger] params[i]).1 is None
}

/// Whether none of the parameters of a function definition has a type.
pub open spec fn function_params_unannotated(params: Seq<FunctionParam>) -> bool {
    forall|i: int| 0 <= i < params.len() ==> (#[trigger] params[i]).typ is None
}

/// Whether `expr`, read with the names in `bound` locally bound, is built
/// only from literals, holes and references to names that are local where
/// they stand, put together by the forms that bind names or group
/// expressions, without type annotations.
pub open spec fn is_closed(bound: Set<Seq<char>>, expr: Expr) -> bool
    decreases expr, 0nat,
{
    match expr {
        Expr::Literal(_, _) | Expr::Hole { .. } => true,
        Expr::Ident(ident, _) => bound.contains(ident@),
        Expr::Lambda { params, body, .. } => params_unannotated(params@) && is_closed(
            bound.union(params_names(params@, params@.len())),
            *body,
        ),
        Expr::Let { type_ann, value, .. } => type_ann is None && is_closed(bound, *value),
        Expr::LetIn { name, type_ann, value, body, .. } => type_ann is None && is_closed(
            bound,
            *value,
        ) && is_closed(bound.union(leaked(*value)).insert(name@), *body),
        Expr::LetRec { name, type_ann, value, .. } => type_ann is None && is_closed(
            bound.insert(name@),
            *value,
        ),
        Expr::LetRecIn { name, value, body, .. } => is_closed(bound.insert(name@), *value)
            && is_closed(bound.insert(name@).union(leaked(*value)), *body),
        Expr::Rec { name, params, return_type, body, .. } => return_type is None
            && params_unannotated(params@) && is_closed(
            bound.insert(name@).union(params_names(params@, params@.len())),
            *body,
        ),
        Expr::If { cond, then_expr, else_expr, .. } => is_closed(bound, *cond) && is_closed(
            bound.union(leaked(*cond)),
            *then_expr,
        ) && is_closed(bound.union(leaked(*cond)).union(leaked(*then_expr)), *else_expr),
        Expr::Apply { func, args, .. } => is_closed(bound, *func) && exprs_closed(
            bound.union(leaked(*func)),
            args@,
            args@.len(),
        ),
        Expr::Match { expr, cases, .. } => is_closed(bound, *expr) && cases_closed(
            bound.union(leaked(*expr)),
            cases@,
            cases@.len(),
        ),
        Expr::List(items, _) => exprs_closed(bound, items@, items@.len()),
        Expr::Module { body, .. } => exprs_closed(bound, body@, body@.len()),
        Expr::Handler { cases, body, .. } => handler_cases_closed(bound, cases@, cases@.len())
            && is_closed(bound, *body),
        Expr::WithHandler { handler, body, .. } => is_closed(bound, *handler) && is_closed(
            bound.union(leaked(*handler)),
            *body,
        ),
        Expr::Perform { args, .. } => exprs_closed(bound, args@, args@.len()),
        Expr::Pipeline { expr, func, .. } => is_closed(bound, *expr) && is_closed(
            bound.union(leaked(*expr)),
            *func,
        ),
        Expr::Block { exprs, .. } => exprs_closed(bound, exprs@, exprs@.len()),
        Expr::Do { statements, .. } => statements_closed(bound, statements@, statements@.len()),
        Expr::RecordLiteral { fields, .. } => fields_closed(bound, fields@, fields@.len()),
        Expr::RecordAccess { record, .. } => is_closed(bound, *record),
        Expr::RecordUpdate { record, updates, .. } => is_closed(bound, *record) && fields_closed(
            bound.union(leaked(*record)),
            updates@,
            updates@.len(),
        ),
        Expr::HandleExpr { expr, handlers, return_handler, .. } => is_closed(bound, *expr)
            && handlers_closed(bound.union(leaked(*expr)), handlers@, handlers@.len()) && (
        match return_handler {
            Some((_, body)) => is_closed(bound.union(leaked(*expr)), *body),
            None => true,
        }),
        Expr::FunctionDef { params, return_type, body, .. } => return_type is None
            && function_params_unannotated(params@) && is_closed(
            bound.union(function_params_names(params@, params@.len())),
            *body,
        ),
        Expr::QualifiedIdent { .. }
        | Expr::Constructor { .. }
        | Expr::Import { .. }
        | Expr::Use { .. }
        | Expr::TypeDef { .. }
        | Expr::HashRef { .. } => false,
    }
}

/// Whether each of the first `n` of `exprs` is closed where it stands.
pub open spec fn exprs_closed(bound: Set<Seq<char>>, exprs: Seq<Expr>, n: nat) -> bool
    decreases exprs, n,
{
    if n == 0 || n > exprs.len() {
        true
    } else {
        exprs_closed(bound, exprs, (n - 1) as nat) && is_closed(
            bound.union(exprs_leaked(exprs, (n - 1) as nat)),
            exprs[n - 1],
        )
    }
}

/// Whether the body of each of the first `n` arms is closed in its scope.
pub open spec fn cases_closed(bound: Set<Seq<char>>, cases: Seq<(Pattern, Expr)>, n: nat) -> bool
    decreases cases, n,
{
    if n == 0 || n > cases.len() {
        true
    } else {
        cases_closed(bound, cases, (n - 1) as nat) && is_closed(
            bound.union(pattern_names(cases[n - 1].0)),
            cases[n - 1].1,
        )
    }
}

/// Whether the body of each of the first `n` handler clauses is closed in
/// its scope.
pub open spec fn handler_cases_closed(
    bound: Set<Seq<char>>,
    cases: Seq<(Ident, Vec<Pattern>, Ident, Expr)>,
    n: nat,
) -> bool
    decreases cases, n,
{
    if n == 0 || n > cases.len() {
        true
    } else {
        handler_cases_closed(bound, cases, (n - 1) as nat) && is_closed(
            bound.insert(cases[n - 1].2@).union(
                patterns_names(cases[n - 1].1@, cases[n - 1].1@.len()),
            ),
            cases[n - 1].3,
        )
    }
}

/// Whether the expression of each of the first `n` of `statements` is
/// closed where it stands.
pub open spec fn statements_closed(
    bound: Set<Seq<char>>,
    statements: Seq<DoStatement>,
    n: nat,
) -> bool
    decreases statements, n,
{
    if n == 0 || n > statements.len() {
        true
    } else {
        statements_closed(bound, statements, (n - 1) as nat) && match statements[n - 1] {
            DoStatement::Bind { expr, .. } => is_closed(
                bound.union(statements_leaked(statements, (n - 1) as nat)),
                expr,
            ),
            DoStatement::Expression(expr) => is_closed(
                bound.union(statements_leaked(statements, (n - 1) as nat)),
                expr,
            ),
        }
    }
}

/// Whether the value of each of the first `n` of `fields` is closed where
/// it stands.
pub open spec fn fields_closed(bound: Set<Seq<char>>, fields: Seq<(Ident, Expr)>, n: nat) -> bool
    decreases fields, n,
{
    if n == 0 || n > fields.len() {
        true
    } else {
        fields_closed(bound, fields, (n - 1) as nat) && is_closed(
            bound.union(fields_leaked(fields, (n - 1) as nat)),
            fields[n - 1].1,
        )
    }
}

/// Whether the body of each of the first `n` of `handlers` is closed in
/// its scope.
pub open spec fn handlers_closed(bound: Set<Seq<char>>, handlers: Seq<HandlerCase>, n: nat) -> bool
    decreases handlers, n,
{
    if n == 0 || n > handlers.len() {
        true
    } else {
        handlers_closed(bound, handlers, (n - 1) as nat) && is_closed(
            bound.insert(handlers[n - 1].continuation@).union(
                patterns_names(handlers[n - 1].patterns@, handlers[n - 1].patterns@.len()),
            ),
            handlers[n - 1].body,
        )
    }
}

/// Parameters without annotations depend on nothing.
pub proof fn lemma_unannotated_params(
    store: Map<(Seq<Seq<char>>, Seq<char>), Seq<u8>>,
    namespace: Seq<Seq<char>>,
    params: Seq<(Ident, Option<Type>)>,
    n: nat,
)
    requires
        params_unannotated(params),
    ensures
        params_deps(store, namespace, params, n) == Set::<Seq<u8>>::empty(),
    decreases n,
{
    if n > 0 && n <= params.len() {
        lemma_unannotated_params(store, namespace, params, (n - 1) as nat);
    }
}

/// Parameters of a function definition without types depend on nothing.
pub proof fn lemma_unannotated_function_params(
    store: Map<(Seq<Seq<char>>, Seq<char>), Seq<u8>>,
    namespace: Seq<Seq<char>>,
    params: Seq<FunctionParam>,
    n: nat,
)
    requires
        function_params_unannotated(params),
    ensures
        function_params_deps(store, namespace, params, n) == Set::<Seq<u8>>::empty(),
    decreases n,
{
    if n > 0 && n <= params.len() {
        lemma_unannotated_function_params(store, namespace, params, (n - 1) as nat);
    }
}

/// An expression built only from literals, holes and local variables
/// depends on nothing, whatever the store holds.
pub proof fn law_closed_expression_has_no_dependencies(
    store: Map<(Seq<Seq<char>>, Seq<char>), Seq<u8>>,
    namespace: Seq<Seq<char>>,
    bound: Set<Seq<char>>,
    expr: Expr,
)
    requires
        is_closed(bound, expr),
    ensures
        expr_deps(store, namespace, bound, expr) == Set::<Seq<u8>>::empty(),
    decreases expr, 0nat,
{
    match expr {
        Expr::Lambda { params, body, .. } => {
            lemma_unannotated_params(store, namespace, params@, params@.len());
            law_closed_expression_has_no_dependencies(
                store,
                namespace,
                bound.union(params_names(params@, params@.len())),
                *body,
            );
        },
        Expr::Let { value, .. } => {
            law_closed_expression_has_no_dependencies(store, namespace, bound, *value);
        },
        Expr::LetIn { name, value, body, .. } => {
            law_closed_expression_has_no_dependencies(store, namespace, bound, *value);
            law_closed_expression_has_no_dependencies(
                store,
                namespace,
                bound.union(leaked(*value)).insert(name@),
                *body,
            );
        },
        Expr::LetRec { name, value, .. } => {
            law_closed_expression_has_no_dependencies(
                store,
                namespace,
                bound.insert(name@),
                *value,
            );
        },
        Expr::LetRecIn { name, value, body, .. } => {
            law_closed_expression_has_no_dependencies(
                store,
                namespace,
                bound.insert(name@),
                *value,
            );
            law_closed_expression_has_no_dependencies(
                store,
                namespace,
                bound.insert(name@).union(leaked(*value)),
                *body,
            );
        },
        Expr::Rec { name, params, body, .. } => {
            lemma_unannotated_params(store, namespace, params@, params@.len());
            law_closed_expression_has_no_dependencies(
                store,
                namespace,
                bound.insert(name@).union(params_names(params@, params@.len())),
                *body,
            );
        },
        Expr::If { cond, then_expr, else_expr, .. } => {
            law_closed_expression_has_no_dependencies(store, namespace, bound, *cond);
            law_closed_expression_has_no_dependencies(
                store,
                namespace,
                bound.union(leaked(*cond)),
                *then_expr,
            );
            law_closed_expression_has_no_dependencies(
                store,
                namespace,
                bound.union(leaked(*cond)).union(leaked(*then_expr)),
                *else_expr,
            );
        },
        Expr::Apply { func, args, .. } => {
            law_closed_expression_has_no_dependencies(store, namespace, bound, *func);
            lemma_closed_exprs(store, namespace, bound.union(leaked(*func)), args@, args@.len());
        },
        Expr::Match { expr, cases, .. } => {
            law_closed_expression_has_no_dependencies(store, namespace, bound, *expr);
            lemma_closed_cases(store, namespace, bound.union(leaked(*expr)), cases@, cases@.len());
        },
        Expr::List(items, _) => {
            lemma_closed_exprs(store, namespace, bound, items@, items@.len());
        },
        Expr::Module { body, .. } => {
            lemma_closed_exprs(store, namespace, bound, body@, body@.len());
        },
        Expr::Handler { cases, body, .. } => {
            lemma_closed_handler_cases(store, namespace, bound, cases@, cases@.len());
            law_closed_expression_has_no_dependencies(store, namespace, bound, *body);
        },
        Expr::WithHandler { handler, body, .. } => {
            law_closed_expression_has_no_dependencies(store, namespace, bound, *handler);
            law_closed_expression_has_no_dependencies(
                store,
                namespace,
                bound.union(leaked(*handler)),
                *body,
            );
        },
        Expr::Perform { args, .. } => {
            lemma_closed_exprs(store, namespace, bound, args@, args@.len());
        },
        Expr::Pipeline { expr, func, .. } => {
            law_closed_expression_has_no_dependencies(store, namespace, bound, *expr);
            law_closed_expression_has_no_dependencies(
                store,
                namespace,
                bound.union(leaked(*expr)),
                *func,
            );
        },
        Expr::Block { exprs, .. } => {
            lemma_closed_exprs(store, namespace, bound, exprs@, exprs@.len());
        },
        Expr::Do { statements, .. } => {
            lemma_closed_statements(store, namespace, bound, statements@, statements@.len());
        },
        Expr::RecordLiteral { fields, .. } => {
            lemma_closed_fields(store, namespace, bound, fields@, fields@.len());
        },
        Expr::RecordAccess { record, .. } => {
            law_closed_expression_has_no_dependencies(store, namespace, bound, *record);
        },
        Expr::RecordUpdate { record, updates, .. } => {
            law_closed_expression_has_no_dependencies(store, namespace, bound, *record);
            lemma_closed_fields(
                store,
                namespace,
                bound.union(leaked(*record)),
                updates@,
                updates@.len(),
            );
        },
        Expr::HandleExpr { expr, handlers, return_handler, .. } => {
            law_closed_expression_has_no_dependencies(store, namespace, bound, *expr);
            lemma_closed_handlers(
                store,
                namespace,
                bound.union(leaked(*expr)),
                handlers@,
                handlers@.len(),
            );
            match return_handler {
                Some((_, body)) => {
                    law_closed_expression_has_no_dependencies(
                        store,
                        namespace,
                        bound.union(leaked(*expr)),
                        *body,
                    );
                },
                None => {},
            }
        },
        Expr::FunctionDef { params, body, .. } => {
            lemma_unannotated_function_params(store, namespace, params@, params@.len());
            law_closed_expression_has_no_dependencies(
                store,
                namespace,
                bound.union(function_params_names(params@, params@.len())),
                *body,
            );
        },
        _ => {},
    }
}

/// A sequence of closed expressions depends on nothing.
pub proof fn lemma_closed_exprs(
    store: Map<(Seq<Seq<char>>, Seq<char>), Seq<u8>>,
    namespace: Seq<Seq<char>>,
    bound: Set<Seq<char>>,
    exprs: Seq<Expr>,
    n: nat,
)
    requires
        exprs_closed(bound, exprs, n),
    ensures
        exprs_deps(store, namespace, bound, exprs, n) == Set::<Seq<u8>>::empty(),
    decreases exprs, n,
{
    if n > 0 && n <= exprs.len() {
        lemma_closed_exprs(store, namespace, bound, exprs, (n - 1) as nat);
        law_closed_expression_has_no_dependencies(
            store,
            namespace,
            bound.union(exprs_leaked(exprs, (n - 1) as nat)),
            exprs[n - 1],
        );
    }
}

/// Match arms with closed bodies depend on nothing.
pub proof fn lemma_closed_cases(
    store: Map<(Seq<Seq<char>>, Seq<char>), Seq<u8>>,
    namespace: Seq<Seq<char>>,
    bound: Set<Seq<char>>,
    cases: Seq<(Pattern, Expr)>,
    n: nat,
)
    requires
        cases_closed(bound, cases, n),
    ensures
        cases_deps(store, namespace, bound, cases, n) == Set::<Seq<u8>>::empty(),
    decreases cases, n,
{
    if n > 0 && n <= cases.len() {
        lemma_closed_cases(store, namespace, bound, cases, (n - 1) as nat);
        law_closed_expression_has_no_dependencies(
            store,
            namespace,
            bound.union(pattern_names(cases[n - 1].0)),
            cases[n - 1].1,
        );
    }
}

/// Handler clauses with closed bodies depend on nothing.
pub proof fn lemma_closed_handler_cases(
    store: Map<(Seq<Seq<char>>, Seq<char>), Seq<u8>>,
    namespace: Seq<Seq<char>>,
    bound: Set<Seq<char>>,
    cases: Seq<(Ident, Vec<Pattern>, Ident, Expr)>,
    n: nat,
)
    requires
        handler_cases_closed(bound, cases, n),
    ensures
        handler_cases_deps(store, namespace, bound, cases, n) == Set::<Seq<u8>>::empty(),
    decreases cases, n,
{
    if n > 0 && n <= cases.len() {
        lemma_closed_handler_cases(store, namespace, bound, cases, (n - 1) as nat);
        law_closed_expression_has_no_dependencies(
            store,
            namespace,
            bound.insert(cases[n - 1].2@).union(
                patterns_names(cases[n - 1].1@, cases[n - 1].1@.len()),
            ),
            cases[n - 1].3,
        );
    }
}

/// Statements with closed expressions depend on nothing.
pub proof fn lemma_closed_statements(
    store: Map<(Seq<Seq<char>>, Seq<char>), Seq<u8>>,
    namespace: Seq<Seq<char>>,
    bound: Set<Seq<char>>,
    statements: Seq<DoStatement>,
    n: nat,
)
    requires
        statements_closed(bound, statements, n),
    ensures
        statements_deps(store, namespace, bound, statements, n) == Set::<Seq<u8>>::empty(),
    decreases statements, n,
{
    if n > 0 && n <= statements.len() {
        lemma_closed_statements(store, namespace, bound, statements, (n - 1) as nat);
        match statements[n - 1] {
            DoStatement::Bind { expr, .. } => {
                law_closed_expression_has_no_dependencies(
                    store,
                    namespace,
                    bound.union(statements_leaked(statements, (n - 1) as nat)),
                    expr,
                );
            },
            DoStatement::Expression(expr) => {
                law_closed_expression_has_no_dependencies(
                    store,
                    namespace,
                    bound.union(statements_leaked(statements, (n - 1) as nat)),
                    expr,
                );
            },
        }
    }
}

/// Fields with closed values depend on nothing.
pub proof fn lemma_closed_fields(
    store: Map<(Seq<Seq<char>>, Seq<char>), Seq<u8>>,
    namespace: Seq<Seq<char>>,
    bound: Set<Seq<char>>,
    fields: Seq<(Ident, Expr)>,
    n: nat,
)
    requires
        fields_closed(bound, fields, n),
    ensures
        fields_deps(store, namespace, bound, fields, n) == Set::<Seq<u8>>::empty(),
    decreases fields, n,
{
    if n > 0 && n <= fields.len() {
        lemma_closed_fields(store, namespace, bound, fields, (n - 1) as nat);
        law_closed_expression_has_no_dependencies(
            store,
            namespace,
            bound.union(fields_leaked(fields, (n - 1) as nat)),
            fields[n - 1].1,
        );
    }
}

/// Handlers with closed bodies depend on nothing.
pub proof fn lemma_closed_handlers(
    store: Map<(Seq<Seq<char>>, Seq<char>), Seq<u8>>,
    namespace: Seq<Seq<char>>,
    bound: Set<Seq<char>>,
    handlers: Seq<HandlerCase>,
    n: nat,
)
    requires
        handlers_closed(bound, handlers, n),
    ensures
        handlers_deps(store, namespace, bound, handlers, n) == Set::<Seq<u8>>::empty(),
    decreases handlers, n,
{
    if n > 0 && n <= handlers.len() {
        lemma_closed_handlers(store, namespace, bound, handlers, (n - 1) as nat);
        law_closed_expression_has_no_dependencies(
            store,
            namespace,
            bound.insert(handlers[n - 1].continuation@).union(
                patterns_names(handlers[n - 1].patterns@, handlers[n - 1].patterns@.len()),
            ),
            handlers[n - 1].body,
        );
    }
}

} // verus!
