//! Binding more names never adds a dependency.

use crate::ast::{DoStatement, Expr, HandlerCase, Ident, Pattern};
use crate::semantics::{
    cases_deps, expr_deps, exprs_deps, exprs_leaked, fields_deps, fields_leaked,
    function_params_names, handler_cases_deps, handlers_deps, leaked,
    params_names, pattern_names, patterns_names, statements_deps, statements_leaked,
};
use vstd::prelude::*;

verus! {

/// Shadowing only hides: where more names are locally bound, an
/// expression depends on no more than it did, whatever the store holds.
pub proof fn law_binding_never_adds_dependencies(
    store: Map<(Seq<Seq<char>>, Seq<char>), Seq<u8>>,
    namespace: Seq<Seq<char>>,
    fewer: Set<Seq<char>>,
    more: Set<Seq<char>>,
    expr: Expr,
)
    requires
        fewer.subset_of(more),
    ensures
        expr_deps(store, namespace, more, expr).subset_of(expr_deps(store, namespace, fewer, expr)),
    decreases expr, 0nat,
{
    match expr {
        Expr::Lambda { params, body, .. } => {
            let names = params_names(params@, params@.len());
            law_binding_never_adds_dependencies(
                store,
                namespace,
                fewer.union(names),
                more.union(names),
                *body,
            );
        },
        Expr::Let { value, .. } => {
            law_binding_never_adds_dependencies(store, namespace, fewer, more, *value);
        },
        Expr::LetIn { name, value, body, .. } => {
            law_binding_never_adds_dependencies(store, namespace, fewer, more, *value);
            law_binding_never_adds_dependencies(
                store,
                namespace,
                fewer.union(leaked(*value)).insert(name@),
                more.union(leaked(*value)).insert(name@),
                *body,
            );
        },
        Expr::LetRec { name, value, .. } => {
            law_binding_never_adds_dependencies(
                store,
                namespace,
                fewer.insert(name@),
                more.insert(name@),
                *value,
            );
        },
        Expr::LetRecIn { name, value, body, .. } => {
            law_binding_never_adds_dependencies(
                store,
                namespace,
                fewer.insert(name@),
                more.insert(name@),
                *value,
            );
            law_binding_never_adds_dependencies(
                store,
                namespace,
                fewer.insert(name@).union(leaked(*value)),
                more.insert(name@).union(leaked(*value)),
                *body,
            );
        },
        Expr::Rec { name, params, body, .. } => {
            let names = params_names(params@, params@.len());
            law_binding_never_adds_dependencies(
                store,
                namespace,
                fewer.insert(name@).union(names),
                more.insert(name@).union(names),
                *body,
            );
        },
        Expr::If { cond, then_expr, else_expr, .. } => {
            law_binding_never_adds_dependencies(store, namespace, fewer, more, *cond);
            law_binding_never_adds_dependencies(
                store,
                namespace,
                fewer.union(leaked(*cond)),
                more.union(leaked(*cond)),
                *then_expr,
            );
            law_binding_never_adds_dependencies(
                store,
                namespace,
                fewer.union(leaked(*cond)).union(leaked(*then_expr)),
                more.union(leaked(*cond)).union(leaked(*then_expr)),
                *else_expr,
            );
        },
        Expr::Apply { func, args, .. } => {
            law_binding_never_adds_dependencies(store, namespace, fewer, more, *func);
            lemma_exprs_shadowing(
                store,
                namespace,
                fewer.union(leaked(*func)),
                more.union(leaked(*func)),
                args@,
                args@.len(),
            );
        },
        Expr::Match { expr, cases, .. } => {
            law_binding_never_adds_dependencies(store, namespace, fewer, more, *expr);
            lemma_cases_shadowing(
                store,
                namespace,
                fewer.union(leaked(*expr)),
                more.union(leaked(*expr)),
                cases@,
                cases@.len(),
            );
        },
        Expr::List(items, _) => {
            lemma_exprs_shadowing(store, namespace, fewer, more, items@, items@.len());
        },
        Expr::Constructor { args, .. } => {
            lemma_exprs_shadowing(store, namespace, fewer, more, args@, args@.len());
        },
        Expr::Module { body, .. } => {
            lemma_exprs_shadowing(store, namespace, fewer, more, body@, body@.len());
        },
        Expr::Handler { cases, body, .. } => {
            lemma_handler_cases_shadowing(store, namespace, fewer, more, cases@, cases@.len());
            law_binding_never_adds_dependencies(store, namespace, fewer, more, *body);
        },
        Expr::WithHandler { handler, body, .. } => {
            law_binding_never_adds_dependencies(store, namespace, fewer, more, *handler);
            law_binding_never_adds_dependencies(
                store,
                namespace,
                fewer.union(leaked(*handler)),
                more.union(leaked(*handler)),
                *body,
            );
        },
        Expr::Perform { args, .. } => {
            lemma_exprs_shadowing(store, namespace, fewer, more, args@, args@.len());
        },
        Expr::Pipeline { expr, func, .. } => {
            law_binding_never_adds_dependencies(store, namespace, fewer, more, *expr);
            law_binding_never_adds_dependencies(
                store,
                namespace,
                fewer.union(leaked(*expr)),
                more.union(leaked(*expr)),
                *func,
            );
        },
        Expr::Block { exprs, .. } => {
            lemma_exprs_shadowing(store, namespace, fewer, more, exprs@, exprs@.len());
        },
        Expr::Do { statements, .. } => {
            lemma_statements_shadowing(
                store,
                namespace,
                fewer,
                more,
                statements@,
                statements@.len(),
            );
        },
        Expr::RecordLiteral { fields, .. } => {
            lemma_fields_shadowing(store, namespace, fewer, more, fields@, fields@.len());
        },
        Expr::RecordAccess { record, .. } => {
            law_binding_never_adds_dependencies(store, namespace, fewer, more, *record);
        },
        Expr::RecordUpdate { record, updates, .. } => {
            law_binding_never_adds_dependencies(store, namespace, fewer, more, *record);
            lemma_fields_shadowing(
                store,
                namespace,
                fewer.union(leaked(*record)),
                more.union(leaked(*record)),
                updates@,
                updates@.len(),
            );
        },
        Expr::HandleExpr { expr, handlers, return_handler, .. } => {
            law_binding_never_adds_dependencies(store, namespace, fewer, more, *expr);
            lemma_handlers_shadowing(
                store,
                namespace,
                fewer.union(leaked(*expr)),
                more.union(leaked(*expr)),
                handlers@,
                handlers@.len(),
            );
            match return_handler {
                Some((_, body)) => {
                    law_binding_never_adds_dependencies(
                        store,
                        namespace,
                        fewer.union(leaked(*expr)),
                        more.union(leaked(*expr)),
                        *body,
                    );
                },
                None => {},
            }
        },
        Expr::FunctionDef { params, body, .. } => {
            let names = function_params_names(params@, params@.len());
            law_binding_never_adds_dependencies(
                store,
                namespace,
                fewer.union(names),
                more.union(names),
                *body,
            );
        },
        _ => {},
    }
}

/// Shadowing only hides, for the first `n` of a sequence of expressions.
pub proof fn lemma_exprs_shadowing(
    store: Map<(Seq<Seq<char>>, Seq<char>), Seq<u8>>,
    namespace: Seq<Seq<char>>,
    fewer: Set<Seq<char>>,
    more: Set<Seq<char>>,
    exprs: Seq<Expr>,
    n: nat,
)
    requires
        fewer.subset_of(more),
    ensures
        exprs_deps(store, namespace, more, exprs, n).subset_of(
            exprs_deps(store, namespace, fewer, exprs, n),
        ),
    decreases exprs, n,
{
    if n > 0 && n <= exprs.len() {
        let before = exprs_leaked(exprs, (n - 1) as nat);
        lemma_exprs_shadowing(store, namespace, fewer, more, exprs, (n - 1) as nat);
        law_binding_never_adds_dependencies(
            store,
            namespace,
            fewer.union(before),
            more.union(before),
            exprs[n - 1],
        );
    }
}

/// Shadowing only hides, for the first `n` arms of a match.
pub proof fn lemma_cases_shadowing(
    store: Map<(Seq<Seq<char>>, Seq<char>), Seq<u8>>,
    namespace: Seq<Seq<char>>,
    fewer: Set<Seq<char>>,
    more: Set<Seq<char>>,
    cases: Seq<(Pattern, Expr)>,
    n: nat,
)
    requires
        fewer.subset_of(more),
    ensures
        cases_deps(store, namespace, more, cases, n).subset_of(
            cases_deps(store, namespace, fewer, cases, n),
        ),
    decreases cases, n,
{
    if n > 0 && n <= cases.len() {
        let names = pattern_names(cases[n - 1].0);
        lemma_cases_shadowing(store, namespace, fewer, more, cases, (n - 1) as nat);
        law_binding_never_adds_dependencies(
            store,
            namespace,
            fewer.union(names),
            more.union(names),
            cases[n - 1].1,
        );
    }
}

/// Shadowing only hides, for the first `n` clauses of a handler.
pub proof fn lemma_handler_cases_shadowing(
    store: Map<(Seq<Seq<char>>, Seq<char>), Seq<u8>>,
    namespace: Seq<Seq<char>>,
    fewer: Set<Seq<char>>,
    more: Set<Seq<char>>,
    cases: Seq<(Ident, Vec<Pattern>, Ident, Expr)>,
    n: nat,
)
    requires
        fewer.subset_of(more),
    ensures
        handler_cases_deps(store, namespace, more, cases, n).subset_of(
            handler_cases_deps(store, namespace, fewer, cases, n),
        ),
    decreases cases, n,
{
    if n > 0 && n <= cases.len() {
        let names = patterns_names(cases[n - 1].1@, cases[n - 1].1@.len());
        lemma_handler_cases_shadowing(store, namespace, fewer, more, cases, (n - 1) as nat);
        law_binding_never_adds_dependencies(
            store,
            namespace,
            fewer.insert(cases[n - 1].2@).union(names),
            more.insert(cases[n - 1].2@).union(names),
            cases[n - 1].3,
        );
    }
}

/// Shadowing only hides, for the first `n` statements of a sequence.
pub proof fn lemma_statements_shadowing(
    store: Map<(Seq<Seq<char>>, Seq<char>), Seq<u8>>,
    namespace: Seq<Seq<char>>,
    fewer: Set<Seq<char>>,
    more: Set<Seq<char>>,
    statements: Seq<DoStatement>,
    n: nat,
)
    requires
        fewer.subset_of(more),
    ensures
        statements_deps(store, namespace, more, statements, n).subset_of(
            statements_deps(store, namespace, fewer, statements, n),
        ),
    decreases statements, n,
{
    if n > 0 && n <= statements.len() {
        let before = statements_leaked(statements, (n - 1) as nat);
        lemma_statements_shadowing(store, namespace, fewer, more, statements, (n - 1) as nat);
        match statements[n - 1] {
            DoStatement::Bind { expr, .. } => {
                law_binding_never_adds_dependencies(
                    store,
                    namespace,
                    fewer.union(before),
                    more.union(before),
                    expr,
                );
            },
            DoStatement::Expression(expr) => {
                law_binding_never_adds_dependencies(
                    store,
                    namespace,
                    fewer.union(before),
                    more.union(before),
                    expr,
                );
            },
        }
    }
}

/// Shadowing only hides, for the values of the first `n` fields.
pub proof fn lemma_fields_shadowing(
    store: Map<(Seq<Seq<char>>, Seq<char>), Seq<u8>>,
    namespace: Seq<Seq<char>>,
    fewer: Set<Seq<char>>,
    more: Set<Seq<char>>,
    fields: Seq<(Ident, Expr)>,
    n: nat,
)
    requires
        fewer.subset_of(more),
    ensures
        fields_deps(store, namespace, more, fields, n).subset_of(
            fields_deps(store, namespace, fewer, fields, n),
        ),
    decreases fields, n,
{
    if n > 0 && n <= fields.len() {
        let before = fields_leaked(fields, (n - 1) as nat);
        lemma_fields_shadowing(store, namespace, fewer, more, fields, (n - 1) as nat);
        law_binding_never_adds_dependencies(
            store,
            namespace,
            fewer.union(before),
            more.union(before),
            fields[n - 1].1,
        );
    }
}

/// Shadowing only hides, for the first `n` clauses of a `handle` expression.
pub proof fn lemma_handlers_shadowing(
    store: Map<(Seq<Seq<char>>, Seq<char>), Seq<u8>>,
    namespace: Seq<Seq<char>>,
    fewer: Set<Seq<char>>,
    more: Set<Seq<char>>,
    handlers: Seq<HandlerCase>,
    n: nat,
)
    requires
        fewer.subset_of(more),
    ensures
        handlers_deps(store, namespace, more, handlers, n).subset_of(
            handlers_deps(store, namespace, fewer, handlers, n),
        ),
    decreases handlers, n,
{
    if n > 0 && n <= handlers.len() {
        let names = patterns_names(handlers[n - 1].patterns@, handlers[n - 1].patterns@.len());
        lemma_handlers_shadowing(store, namespace, fewer, more, handlers, (n - 1) as nat);
        law_binding_never_adds_dependencies(
            store,
            namespace,
            fewer.insert(handlers[n - 1].continuation@).union(names),
            more.insert(handlers[n - 1].continuation@).union(names),
            handlers[n - 1].body,
        );
    }
}

} // verus!
