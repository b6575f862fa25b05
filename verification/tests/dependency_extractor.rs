use vibe_codebase::ast::{
    DoStatement, Expr, FunctionParam, HandlerCase, Ident, Literal, Pattern, Span, Type,
};
use vibe_codebase::dependency_extractor::DependencyExtractor;
use vibe_codebase::hash::DefinitionHash;
use vibe_codebase::namespace::{DefinitionPath, NamespacePath, NamespaceStore};

fn hash_of(byte: u8) -> DefinitionHash {
    DefinitionHash([byte; 32])
}

fn ident(name: &str) -> Ident {
    Ident(name.to_string())
}

fn span() -> Span {
    Span::new(0, 0)
}

fn var(name: &str) -> Expr {
    Expr::Ident(ident(name), span())
}

fn number(value: i64) -> Expr {
    Expr::Literal(Literal::Int(value), span())
}

fn define(store: &mut NamespaceStore, path: &str, byte: u8) -> DefinitionHash {
    let hash = hash_of(byte);
    store.add_definition(DefinitionPath::from_str(path).unwrap(), hash);
    hash
}

fn extract_in(store: &NamespaceStore, namespace: &str, expr: &Expr) -> Vec<DefinitionHash> {
    let mut extractor = DependencyExtractor::new(store, NamespacePath::from_str(namespace));
    let mut found = extractor.extract_from_expr(expr).to_vec();
    found.sort_by_key(|hash| hash.0);
    found
}

fn extract(store: &NamespaceStore, expr: &Expr) -> Vec<DefinitionHash> {
    extract_in(store, "", expr)
}

#[test]
fn test_extract_simple_dependency() {
    let mut store = NamespaceStore::new();

    // Add a definition
    let foo_def = DefinitionPath::from_str("foo").unwrap();
    let foo_hash = hash_of(42);
    store.add_definition(foo_def, foo_hash);

    // Create expression that references foo
    let expr = Expr::Apply {
        func: Box::new(Expr::Ident(Ident("add".to_string()), Span::new(0, 3))),
        args: vec![
            Expr::Ident(Ident("foo".to_string()), Span::new(4, 7)),
            Expr::Literal(Literal::Int(1), Span::new(8, 9)),
        ],
        span: Span::new(0, 10),
    };

    // Extract dependencies
    let mut extractor = DependencyExtractor::new(&store, NamespacePath::root());
    let deps = extractor.extract_from_expr(&expr);

    // Should find foo
    assert!(deps.contains(&foo_hash));
}

#[test]
fn test_local_bindings_not_dependencies() {
    let store = NamespaceStore::new();

    // Create let expression
    let expr = Expr::LetIn {
        name: Ident("x".to_string()),
        type_ann: None,
        value: Box::new(Expr::Literal(Literal::Int(42), Span::new(5, 7))),
        body: Box::new(Expr::Apply {
            func: Box::new(Expr::Ident(Ident("add".to_string()), Span::new(11, 14))),
            args: vec![
                Expr::Ident(Ident("x".to_string()), Span::new(15, 16)),
                Expr::Literal(Literal::Int(1), Span::new(17, 18)),
            ],
            span: Span::new(10, 19),
        }),
        span: Span::new(0, 19),
    };

    // Extract dependencies
    let mut extractor = DependencyExtractor::new(&store, NamespacePath::root());
    let deps = extractor.extract_from_expr(&expr);

    // Should not include x as a dependency (it's a local binding)
    assert!(deps.is_empty());
}

#[test]
fn test_qualified_identifier() {
    let mut store = NamespaceStore::new();

    // Add a definition in Math namespace
    let math_square = DefinitionPath::from_str("Math.square").unwrap();
    let square_hash = hash_of(7);
    store.add_definition(math_square, square_hash);

    // Create expression with qualified identifier
    let expr = Expr::QualifiedIdent {
        module_name: Ident("Math".to_string()),
        name: Ident("square".to_string()),
        span: Span::new(0, 10),
    };

    // Extract dependencies
    let mut extractor = DependencyExtractor::new(&store, NamespacePath::root());
    let deps = extractor.extract_from_expr(&expr);

    // Should find Math.square
    assert!(deps.contains(&square_hash));
}

#[test]
fn simple_dependency_is_the_only_one_when_add_is_undefined() {
    let mut store = NamespaceStore::new();
    let foo = define(&mut store, "foo", 1);
    let expr = Expr::Apply { func: Box::new(var("add")), args: vec![var("foo"), number(1)], span: span() };
    assert_eq!(extract(&store, &expr), vec![foo]);
}

#[test]
fn both_are_dependencies_when_add_is_stored_too() {
    let mut store = NamespaceStore::new();
    let foo = define(&mut store, "foo", 1);
    let add = define(&mut store, "add", 2);
    let expr = Expr::Apply { func: Box::new(var("add")), args: vec![var("foo"), number(1)], span: span() };
    assert_eq!(extract(&store, &expr), vec![foo, add]);
}

#[test]
fn qualified_reference_yields_exactly_its_hash() {
    let mut store = NamespaceStore::new();
    let square = define(&mut store, "Math.square", 9);
    define(&mut store, "square", 3);
    let expr = Expr::QualifiedIdent { module_name: ident("Math"), name: ident("square"), span: span() };
    assert_eq!(extract(&store, &expr), vec![square]);
    assert_eq!(extract_in(&store, "Other.Place", &expr), vec![square]);
}

#[test]
fn qualified_reference_has_no_ancestor_fallback() {
    let mut store = NamespaceStore::new();
    define(&mut store, "square", 3);
    define(&mut store, "Math.Deep.square", 4);
    let expr = Expr::QualifiedIdent { module_name: ident("Math"), name: ident("square"), span: span() };
    assert_eq!(extract(&store, &expr), vec![]);
    assert_eq!(extract_in(&store, "Math.Deep", &expr), vec![]);
}

#[test]
fn qualified_reference_ignores_local_scope() {
    let mut store = NamespaceStore::new();
    let square = define(&mut store, "Math.square", 9);
    let expr = Expr::Lambda {
        params: vec![(ident("square"), None), (ident("Math"), None)],
        body: Box::new(Expr::QualifiedIdent {
            module_name: ident("Math"),
            name: ident("square"),
            span: span(),
        }),
        span: span(),
    };
    assert_eq!(extract(&store, &expr), vec![square]);
}

#[test]
fn qualified_reference_with_dotted_module() {
    let mut store = NamespaceStore::new();
    let dot = define(&mut store, "Math.Linear.dot", 5);
    let expr = Expr::QualifiedIdent { module_name: ident("Math.Linear"), name: ident("dot"), span: span() };
    assert_eq!(extract(&store, &expr), vec![dot]);
}

#[test]
fn literals_holes_and_locals_have_no_dependencies() {
    let mut store = NamespaceStore::new();
    define(&mut store, "x", 1);
    define(&mut store, "y", 2);
    let expr = Expr::Lambda {
        params: vec![(ident("x"), None), (ident("y"), None)],
        body: Box::new(Expr::List(
            vec![var("x"), number(3), Expr::Hole { span: span() }, var("y")],
            span(),
        )),
        span: span(),
    };
    assert_eq!(extract(&store, &expr), vec![]);
    assert_eq!(extract(&store, &number(5)), vec![]);
    assert_eq!(extract(&store, &Expr::Hole { span: span() }), vec![]);
}

#[test]
fn bare_reference_in_current_namespace_is_a_singleton() {
    let mut store = NamespaceStore::new();
    let here = define(&mut store, "App.Util.helper", 11);
    define(&mut store, "App.helper", 12);
    define(&mut store, "helper", 13);
    let mut extractor = DependencyExtractor::new(&store, NamespacePath::from_str("App.Util"));
    let deps = extractor.extract_from_expr(&var("helper"));
    assert_eq!(deps.len(), 1);
    assert!(deps.contains(&here));
}

#[test]
fn lambda_parameter_shadows_stored_definition() {
    let mut store = NamespaceStore::new();
    let foo = define(&mut store, "foo", 1);
    let lambda = Expr::Lambda {
        params: vec![(ident("foo"), None)],
        body: Box::new(var("foo")),
        span: span(),
    };
    assert_eq!(extract(&store, &lambda), vec![]);
    // outside the lambda the name resolves again
    let both = Expr::Block { exprs: vec![lambda_with_foo(), var("foo")], span: span() };
    assert_eq!(extract(&store, &both), vec![foo]);
}

fn lambda_with_foo() -> Expr {
    Expr::Lambda { params: vec![(ident("foo"), None)], body: Box::new(var("foo")), span: span() }
}

#[test]
fn sequential_let_is_visible_later_not_earlier() {
    let mut store = NamespaceStore::new();
    let x = define(&mut store, "x", 1);
    let let_x = || Expr::Let { name: ident("x"), type_ann: None, value: Box::new(number(1)), span: span() };
    let later = Expr::Block { exprs: vec![let_x(), var("x")], span: span() };
    assert_eq!(extract(&store, &later), vec![]);
    let earlier = Expr::Block { exprs: vec![var("x"), let_x()], span: span() };
    assert_eq!(extract(&store, &earlier), vec![x]);
}

#[test]
fn sequential_let_does_not_see_itself_in_its_value() {
    let mut store = NamespaceStore::new();
    let x = define(&mut store, "x", 1);
    let expr = Expr::Let { name: ident("x"), type_ann: None, value: Box::new(var("x")), span: span() };
    assert_eq!(extract(&store, &expr), vec![x]);
}

#[test]
fn no_binding_of_one_extraction_reaches_the_next() {
    let mut store = NamespaceStore::new();
    let x = define(&mut store, "x", 42);
    let mut extractor = DependencyExtractor::new(&store, NamespacePath::root());
    assert_eq!(extractor.extract_from_expr(&var("x")).to_vec(), vec![x]);
    let let_x = Expr::Let { name: ident("x"), type_ann: None, value: Box::new(number(1)), span: span() };
    assert!(extractor.extract_from_expr(&let_x).is_empty());
    assert!(!extractor.is_local_binding(&"x".to_string()));
    assert_eq!(extractor.extract_from_expr(&var("x")).to_vec(), vec![x]);
    let letrec_x = Expr::LetRec { name: ident("x"), type_ann: None, value: Box::new(number(1)), span: span() };
    assert!(extractor.extract_from_expr(&letrec_x).is_empty());
    assert_eq!(extractor.extract_from_expr(&var("x")).to_vec(), vec![x]);
}

#[test]
fn extraction_starts_from_an_empty_scope_and_leaves_the_stack_alone() {
    let mut store = NamespaceStore::new();
    let x = define(&mut store, "x", 1);
    let mut extractor = DependencyExtractor::new(&store, NamespacePath::root());
    extractor.add_binding("x".to_string());
    extractor.push_scope();
    extractor.add_binding("y".to_string());
    assert_eq!(extractor.extract_from_expr(&var("x")).to_vec(), vec![x]);
    assert!(extractor.is_local_binding(&"x".to_string()));
    assert!(extractor.is_local_binding(&"y".to_string()));
    extractor.pop_scope();
    assert!(extractor.is_local_binding(&"x".to_string()));
    assert!(!extractor.is_local_binding(&"y".to_string()));
}

#[test]
fn sequential_let_inside_a_scope_leaves_with_it() {
    let mut store = NamespaceStore::new();
    let x = define(&mut store, "x", 1);
    let inner = Expr::Lambda {
        params: vec![],
        body: Box::new(Expr::Block {
            exprs: vec![
                Expr::Let { name: ident("x"), type_ann: None, value: Box::new(number(1)), span: span() },
                var("x"),
            ],
            span: span(),
        }),
        span: span(),
    };
    let expr = Expr::Block { exprs: vec![inner, var("x")], span: span() };
    assert_eq!(extract(&store, &expr), vec![x]);
}

#[test]
fn recursive_let_does_not_depend_on_itself() {
    let mut store = NamespaceStore::new();
    define(&mut store, "loop", 1);
    let letrec = Expr::LetRec {
        name: ident("loop"),
        type_ann: None,
        value: Box::new(Expr::Apply { func: Box::new(var("loop")), args: vec![number(1)], span: span() }),
        span: span(),
    };
    assert_eq!(extract(&store, &letrec), vec![]);
    let letrec_in = Expr::LetRecIn {
        name: ident("loop"),
        value: Box::new(var("loop")),
        body: Box::new(var("loop")),
        span: span(),
    };
    assert_eq!(extract(&store, &letrec_in), vec![]);
    let rec = Expr::Rec {
        name: ident("loop"),
        params: vec![(ident("n"), None)],
        return_type: None,
        body: Box::new(Expr::Apply { func: Box::new(var("loop")), args: vec![var("n")], span: span() }),
        span: span(),
    };
    assert_eq!(extract(&store, &rec), vec![]);
}

#[test]
fn recursive_let_is_visible_later_in_its_sequence() {
    let mut store = NamespaceStore::new();
    define(&mut store, "f", 1);
    let expr = Expr::Block {
        exprs: vec![
            Expr::LetRec { name: ident("f"), type_ann: None, value: Box::new(number(1)), span: span() },
            var("f"),
        ],
        span: span(),
    };
    assert_eq!(extract(&store, &expr), vec![]);
}

#[test]
fn recursive_function_scope_ends_with_it() {
    let mut store = NamespaceStore::new();
    let f = define(&mut store, "f", 1);
    let n = define(&mut store, "n", 2);
    let rec = Expr::Rec {
        name: ident("f"),
        params: vec![(ident("n"), None)],
        return_type: None,
        body: Box::new(number(0)),
        span: span(),
    };
    let expr = Expr::Block { exprs: vec![rec, var("f"), var("n")], span: span() };
    assert_eq!(extract(&store, &expr), vec![f, n]);
}

#[test]
fn function_definition_binds_parameters_but_not_its_name() {
    let mut store = NamespaceStore::new();
    let f = define(&mut store, "f", 1);
    define(&mut store, "a", 2);
    let t = define(&mut store, "T", 3);
    let r = define(&mut store, "R", 4);
    let def = Expr::FunctionDef {
        name: ident("f"),
        params: vec![FunctionParam {
            name: ident("a"),
            typ: Some(Type::UserDefined { name: "T".to_string(), type_params: vec![] }),
        }],
        return_type: Some(Type::UserDefined { name: "R".to_string(), type_params: vec![] }),
        effects: vec!["IO".to_string()],
        body: Box::new(Expr::Apply { func: Box::new(var("f")), args: vec![var("a")], span: span() }),
        span: span(),
    };
    assert_eq!(extract(&store, &def), vec![f, t, r]);
}

#[test]
fn hash_literal_decodes_without_lookup() {
    let store = NamespaceStore::new();
    let text = "000102030405060708090a0b0c0d0e0f101112131415161718191A1B1C1D1E1F";
    let mut bytes = [0u8; 32];
    for (i, byte) in bytes.iter_mut().enumerate() {
        *byte = i as u8;
    }
    let expr = Expr::HashRef { hash: text.to_string(), span: span() };
    assert_eq!(extract(&store, &expr), vec![DefinitionHash(bytes)]);
    assert_eq!(extract_in(&store, "Some.Where", &expr), vec![DefinitionHash(bytes)]);
}

#[test]
fn invalid_hash_literal_yields_nothing() {
    let mut store = NamespaceStore::new();
    define(&mut store, "abcd", 1);
    let too_short = Expr::HashRef { hash: "abcd".to_string(), span: span() };
    assert_eq!(extract(&store, &too_short), vec![]);
    let too_long = Expr::HashRef { hash: "00".repeat(33), span: span() };
    assert_eq!(extract(&store, &too_long), vec![]);
    let odd = Expr::HashRef { hash: "0".repeat(63), span: span() };
    assert_eq!(extract(&store, &odd), vec![]);
    let not_hex = Expr::HashRef { hash: "zz".repeat(32), span: span() };
    assert_eq!(extract(&store, &not_hex), vec![]);
    let empty = Expr::HashRef { hash: String::new(), span: span() };
    assert_eq!(extract(&store, &empty), vec![]);
    let wide = Expr::HashRef { hash: "é".repeat(32), span: span() };
    assert_eq!(extract(&store, &wide), vec![]);
}

#[test]
fn ancestor_fallback_takes_the_nearest() {
    let mut store = NamespaceStore::new();
    let root = define(&mut store, "name", 1);
    let a = define(&mut store, "A.name", 2);
    define(&mut store, "A.B.C.D.name", 9);
    define(&mut store, "X.name", 8);
    assert_eq!(extract_in(&store, "A.B.C", &var("name")), vec![a]);
    assert_eq!(extract_in(&store, "A", &var("name")), vec![a]);
    assert_eq!(extract_in(&store, "Q.R", &var("name")), vec![root]);
    assert_eq!(extract_in(&store, "", &var("name")), vec![root]);
    let b = define(&mut store, "A.B.name", 3);
    assert_eq!(extract_in(&store, "A.B.C", &var("name")), vec![b]);
}

#[test]
fn unresolved_names_contribute_nothing() {
    let mut store = NamespaceStore::new();
    define(&mut store, "A.B.deep", 1);
    assert_eq!(extract_in(&store, "A", &var("deep")), vec![]);
    assert_eq!(extract(&store, &var("+")), vec![]);
}

#[test]
fn let_in_binds_only_in_its_body() {
    let mut store = NamespaceStore::new();
    let x = define(&mut store, "x", 1);
    let let_in = Expr::LetIn {
        name: ident("x"),
        type_ann: None,
        value: Box::new(var("x")),
        body: Box::new(var("x")),
        span: span(),
    };
    assert_eq!(extract(&store, &let_in), vec![x]);
    let after = Expr::Block {
        exprs: vec![
            Expr::LetIn {
                name: ident("x"),
                type_ann: None,
                value: Box::new(number(1)),
                body: Box::new(var("x")),
                span: span(),
            },
            var("x"),
        ],
        span: span(),
    };
    assert_eq!(extract(&store, &after), vec![x]);
}

#[test]
fn match_arms_bind_their_patterns_and_do_not_leak() {
    let mut store = NamespaceStore::new();
    let head = define(&mut store, "head", 1);
    define(&mut store, "tail", 2);
    let scrutinee = define(&mut store, "list", 3);
    let expr = Expr::Match {
        expr: Box::new(var("list")),
        cases: vec![
            (
                Pattern::Constructor {
                    name: ident("Cons"),
                    patterns: vec![
                        Pattern::Variable(ident("head"), span()),
                        Pattern::List {
                            patterns: vec![Pattern::Variable(ident("tail"), span())],
                            span: span(),
                        },
                    ],
                    span: span(),
                },
                Expr::List(vec![var("head"), var("tail")], span()),
            ),
            (Pattern::Wildcard(span()), var("head")),
            (Pattern::Literal(Literal::Int(0), span()), number(0)),
        ],
        span: span(),
    };
    assert_eq!(extract(&store, &expr), vec![head, scrutinee]);
}

#[test]
fn pattern_constructor_is_not_a_dependency_but_constructor_expression_is() {
    let mut store = NamespaceStore::new();
    let some = define(&mut store, "Some", 1);
    let arm = Expr::Match {
        expr: Box::new(number(1)),
        cases: vec![(
            Pattern::Constructor { name: ident("Some"), patterns: vec![], span: span() },
            number(1),
        )],
        span: span(),
    };
    assert_eq!(extract(&store, &arm), vec![]);
    let built = Expr::Constructor { name: ident("Some"), args: vec![number(1)], span: span() };
    assert_eq!(extract(&store, &built), vec![some]);
}

#[test]
fn constructor_name_is_resolved_even_when_locally_bound() {
    let mut store = NamespaceStore::new();
    let some = define(&mut store, "Some", 1);
    let expr = Expr::Lambda {
        params: vec![(ident("Some"), None)],
        body: Box::new(Expr::Constructor { name: ident("Some"), args: vec![var("Some")], span: span() }),
        span: span(),
    };
    assert_eq!(extract(&store, &expr), vec![some]);
}

#[test]
fn handler_clauses_bind_continuation_and_patterns() {
    let mut store = NamespaceStore::new();
    define(&mut store, "k", 1);
    define(&mut store, "arg", 2);
    let state = define(&mut store, "State", 3);
    let expr = Expr::Handler {
        cases: vec![
            (
                ident("State"),
                vec![Pattern::Variable(ident("arg"), span())],
                ident("k"),
                Expr::Apply { func: Box::new(var("k")), args: vec![var("arg")], span: span() },
            ),
            (ident("Other"), vec![], ident("resume"), var("State")),
        ],
        body: Box::new(number(1)),
        span: span(),
    };
    assert_eq!(extract(&store, &expr), vec![state]);
}

#[test]
fn handled_body_is_read_outside_the_clause_scopes() {
    let mut store = NamespaceStore::new();
    let k = define(&mut store, "k", 1);
    let expr = Expr::Handler {
        cases: vec![(ident("State"), vec![], ident("k"), var("k"))],
        body: Box::new(var("k")),
        span: span(),
    };
    assert_eq!(extract(&store, &expr), vec![k]);
}

fn clause(patterns: Vec<Pattern>, continuation: &str, body: Expr) -> HandlerCase {
    HandlerCase { effect: ident("State"), patterns, continuation: ident(continuation), body }
}

#[test]
fn handle_expression_reads_every_part() {
    let mut store = NamespaceStore::new();
    let a = define(&mut store, "a", 1);
    let b = define(&mut store, "b", 2);
    let c = define(&mut store, "c", 3);
    define(&mut store, "State", 4);
    let expr = Expr::HandleExpr {
        expr: Box::new(var("a")),
        handlers: vec![clause(vec![], "k", var("b"))],
        return_handler: Some((ident("r"), Box::new(var("c")))),
        span: span(),
    };
    assert_eq!(extract(&store, &expr), vec![a, b, c]);
}

#[test]
fn handle_clause_binds_its_continuation() {
    let mut store = NamespaceStore::new();
    define(&mut store, "k", 1);
    let expr = Expr::HandleExpr {
        expr: Box::new(number(1)),
        handlers: vec![clause(vec![], "k", var("k"))],
        return_handler: None,
        span: span(),
    };
    assert_eq!(extract(&store, &expr), vec![]);
}

#[test]
fn handle_clause_binds_its_patterns() {
    let mut store = NamespaceStore::new();
    define(&mut store, "arg", 1);
    define(&mut store, "rest", 2);
    let expr = Expr::HandleExpr {
        expr: Box::new(number(1)),
        handlers: vec![clause(
            vec![
                Pattern::Variable(ident("arg"), span()),
                Pattern::List { patterns: vec![Pattern::Variable(ident("rest"), span())], span: span() },
            ],
            "k",
            Expr::List(vec![var("arg"), var("rest"), var("k")], span()),
        )],
        return_handler: None,
        span: span(),
    };
    assert_eq!(extract(&store, &expr), vec![]);
}

#[test]
fn handle_clause_scopes_are_siblings() {
    let mut store = NamespaceStore::new();
    let k = define(&mut store, "k", 1);
    let arg = define(&mut store, "arg", 2);
    let x = define(&mut store, "x", 3);
    let let_x = Expr::Let { name: ident("x"), type_ann: None, value: Box::new(number(1)), span: span() };
    let expr = Expr::HandleExpr {
        expr: Box::new(number(1)),
        handlers: vec![
            clause(
                vec![Pattern::Variable(ident("arg"), span())],
                "k",
                Expr::Block { exprs: vec![let_x, var("x")], span: span() },
            ),
            clause(vec![], "resume", Expr::List(vec![var("k"), var("arg"), var("x")], span())),
        ],
        return_handler: Some((ident("r"), Box::new(var("x")))),
        span: span(),
    };
    assert_eq!(extract(&store, &expr), vec![k, arg, x]);
    // nothing of a clause is bound after the expression either
    let after = Expr::Block { exprs: vec![expr, var("k")], span: span() };
    assert_eq!(extract(&store, &after), vec![k, arg, x]);
}

#[test]
fn handle_clause_sees_what_the_handled_expression_left_bound() {
    let mut store = NamespaceStore::new();
    define(&mut store, "x", 3);
    let let_x = Expr::Let { name: ident("x"), type_ann: None, value: Box::new(number(1)), span: span() };
    let expr = Expr::HandleExpr {
        expr: Box::new(let_x),
        handlers: vec![clause(vec![], "k", var("x"))],
        return_handler: Some((ident("r"), Box::new(var("x")))),
        span: span(),
    };
    assert_eq!(extract(&store, &expr), vec![]);
}

#[test]
fn handle_return_clause_is_read_where_the_expression_stands() {
    let mut store = NamespaceStore::new();
    let r = define(&mut store, "r", 5);
    define(&mut store, "y", 6);
    let let_y = Expr::Let { name: ident("y"), type_ann: None, value: Box::new(var("r")), span: span() };
    let expr = Expr::HandleExpr {
        expr: Box::new(number(1)),
        handlers: vec![],
        return_handler: Some((ident("r"), Box::new(let_y))),
        span: span(),
    };
    // the name of the returned value is not bound in the return clause,
    // and what the clause binds stays bound after the expression
    let after = Expr::Block { exprs: vec![expr, var("y")], span: span() };
    assert_eq!(extract(&store, &after), vec![r]);
}

#[test]
fn do_statements_are_read_in_order_and_bind_nothing() {
    let mut store = NamespaceStore::new();
    let read = define(&mut store, "read", 1);
    let line = define(&mut store, "line", 2);
    let expr = Expr::Do {
        statements: vec![
            DoStatement::Bind { name: ident("line"), expr: var("read"), span: span() },
            DoStatement::Expression(var("line")),
        ],
        span: span(),
    };
    assert_eq!(extract(&store, &expr), vec![read, line]);
}

#[test]
fn structural_composites_collect_from_every_child() {
    let mut store = NamespaceStore::new();
    let a = define(&mut store, "a", 1);
    let b = define(&mut store, "b", 2);
    let c = define(&mut store, "c", 3);
    let d = define(&mut store, "d", 4);
    let cond = Expr::If {
        cond: Box::new(var("a")),
        then_expr: Box::new(var("b")),
        else_expr: Box::new(var("c")),
        span: span(),
    };
    assert_eq!(extract(&store, &cond), vec![a, b, c]);
    let pipeline = Expr::Pipeline { expr: Box::new(var("a")), func: Box::new(var("b")), span: span() };
    assert_eq!(extract(&store, &pipeline), vec![a, b]);
    let with = Expr::WithHandler { handler: Box::new(var("c")), body: Box::new(var("d")), span: span() };
    assert_eq!(extract(&store, &with), vec![c, d]);
    let perform = Expr::Perform { effect: ident("a"), args: vec![var("b"), var("d")], span: span() };
    assert_eq!(extract(&store, &perform), vec![b, d]);
    let module = Expr::Module { name: ident("a"), body: vec![var("c"), var("d")], span: span() };
    assert_eq!(extract(&store, &module), vec![c, d]);
    let record = Expr::RecordLiteral {
        fields: vec![(ident("a"), var("b")), (ident("c"), var("d"))],
        span: span(),
    };
    assert_eq!(extract(&store, &record), vec![b, d]);
    let access = Expr::RecordAccess { record: Box::new(var("a")), field: ident("b"), span: span() };
    assert_eq!(extract(&store, &access), vec![a]);
    let update = Expr::RecordUpdate {
        record: Box::new(var("a")),
        updates: vec![(ident("b"), var("c"))],
        span: span(),
    };
    assert_eq!(extract(&store, &update), vec![a, c]);
}

#[test]
fn declarations_have_no_dependencies() {
    let mut store = NamespaceStore::new();
    define(&mut store, "a", 1);
    assert_eq!(extract(&store, &Expr::Import { span: span() }), vec![]);
    assert_eq!(extract(&store, &Expr::Use { span: span() }), vec![]);
    assert_eq!(extract(&store, &Expr::TypeDef { span: span() }), vec![]);
}

#[test]
fn a_let_in_a_condition_is_seen_by_the_branches() {
    let mut store = NamespaceStore::new();
    define(&mut store, "x", 1);
    let expr = Expr::If {
        cond: Box::new(Expr::Let { name: ident("x"), type_ann: None, value: Box::new(number(1)), span: span() }),
        then_expr: Box::new(var("x")),
        else_expr: Box::new(var("x")),
        span: span(),
    };
    assert_eq!(extract(&store, &expr), vec![]);
}

#[test]
fn duplicates_are_reported_once() {
    let mut store = NamespaceStore::new();
    let a = define(&mut store, "a", 1);
    let expr = Expr::List(vec![var("a"), var("a"), var("a")], span());
    let mut extractor = DependencyExtractor::new(&store, NamespacePath::root());
    let deps = extractor.extract_from_expr(&expr);
    assert_eq!(deps.len(), 1);
    assert_eq!(deps.to_vec(), vec![a]);
}

#[test]
fn type_dependencies() {
    let mut store = NamespaceStore::new();
    let tree = define(&mut store, "Tree", 1);
    let key = define(&mut store, "Key", 2);
    let value = define(&mut store, "App.Value", 3);
    define(&mut store, "IO", 4);
    let user = |name: &str, params: Vec<Type>| Type::UserDefined { name: name.to_string(), type_params: params };
    let typ = Type::Function(
        Box::new(user("Tree", vec![user("Key", vec![]), Type::Int])),
        Box::new(Type::FunctionWithEffect {
            from: Box::new(Type::Record {
                fields: vec![("v".to_string(), user("Value", vec![])), ("n".to_string(), Type::Float)],
            }),
            to: Box::new(Type::Tuple(vec![
                Type::List(Box::new(Type::Bool)),
                Type::Option(Box::new(Type::Var("Key".to_string()))),
                Type::String,
                Type::Unit,
            ])),
            effects: vec!["IO".to_string()],
        }),
    );
    let mut extractor = DependencyExtractor::new(&store, NamespacePath::from_str("App"));
    let mut found = extractor.extract_from_type(&typ).to_vec();
    found.sort_by_key(|hash| hash.0);
    assert_eq!(found, vec![tree, key, value]);
}

#[test]
fn type_parameters_are_read_when_the_base_name_is_unknown() {
    let mut store = NamespaceStore::new();
    let key = define(&mut store, "Key", 2);
    let typ = Type::UserDefined {
        name: "Unknown".to_string(),
        type_params: vec![Type::UserDefined { name: "Key".to_string(), type_params: vec![] }],
    };
    let mut extractor = DependencyExtractor::new(&store, NamespacePath::root());
    assert_eq!(extractor.extract_from_type(&typ).to_vec(), vec![key]);
}

#[test]
fn annotations_are_resolved_even_under_a_binder_of_the_same_name() {
    let mut store = NamespaceStore::new();
    let t = define(&mut store, "T", 1);
    let expr = Expr::Lambda {
        params: vec![
            (ident("T"), None),
            (ident("x"), Some(Type::UserDefined { name: "T".to_string(), type_params: vec![] })),
        ],
        body: Box::new(var("T")),
        span: span(),
    };
    assert_eq!(extract(&store, &expr), vec![t]);
    let annotated = Expr::Let {
        name: ident("y"),
        type_ann: Some(Type::UserDefined { name: "T".to_string(), type_params: vec![] }),
        value: Box::new(number(1)),
        span: span(),
    };
    assert_eq!(extract(&store, &annotated), vec![t]);
}

#[test]
fn scope_stack_operations() {
    let store = NamespaceStore::new();
    let mut extractor = DependencyExtractor::new(&store, NamespacePath::root());
    let x = "x".to_string();
    let y = "y".to_string();
    assert!(!extractor.is_local_binding(&x));
    extractor.add_binding(x.clone());
    assert!(extractor.is_local_binding(&x));
    extractor.push_scope();
    assert!(extractor.is_local_binding(&x));
    extractor.add_binding(y.clone());
    extractor.add_binding(y.clone());
    assert!(extractor.is_local_binding(&y));
    extractor.pop_scope();
    assert!(!extractor.is_local_binding(&y));
    assert!(extractor.is_local_binding(&x));
}

#[test]
fn pattern_bindings_go_to_the_current_scope() {
    let store = NamespaceStore::new();
    let mut extractor = DependencyExtractor::new(&store, NamespacePath::root());
    extractor.push_scope();
    extractor.add_pattern_bindings(&Pattern::List {
        patterns: vec![
            Pattern::Variable(ident("a"), span()),
            Pattern::Wildcard(span()),
            Pattern::Constructor {
                name: ident("Pair"),
                patterns: vec![Pattern::Variable(ident("b"), span())],
                span: span(),
            },
        ],
        span: span(),
    });
    assert!(extractor.is_local_binding(&"a".to_string()));
    assert!(extractor.is_local_binding(&"b".to_string()));
    assert!(!extractor.is_local_binding(&"Pair".to_string()));
    extractor.pop_scope();
    assert!(!extractor.is_local_binding(&"a".to_string()));
}

#[test]
fn resolvers() {
    let mut store = NamespaceStore::new();
    let a = define(&mut store, "a", 1);
    let b = define(&mut store, "M.N.b", 2);
    let extractor = DependencyExtractor::new(&store, NamespacePath::from_str("M.N.O"));
    assert_eq!(extractor.resolve_ident(&ident("a")), Some(a));
    assert_eq!(extractor.resolve_ident(&ident("b")), Some(b));
    assert_eq!(extractor.resolve_ident(&ident("c")), None);
    assert_eq!(extractor.resolve_type_name(&"b".to_string()), Some(b));
    assert_eq!(extractor.resolve_constructor_type(&ident("a")), Some(a));
    assert_eq!(extractor.resolve_qualified_ident(&ident("M.N"), &ident("b")), Some(b));
    assert_eq!(extractor.resolve_qualified_ident(&ident("M"), &ident("b")), None);
    assert_eq!(extractor.resolve_qualified_ident(&ident(""), &ident("a")), Some(a));
}
