use cjs_lexer::ast::{CjsModule, Declarator, Expr, Prop, Stmt};

fn ident(n: &str) -> Expr {
    Expr::Ident(n.to_string())
}

fn member(obj: Expr, name: &str) -> Expr {
    Expr::Member(Box::new(obj), name.to_string())
}

fn module_exports() -> Expr {
    member(ident("module"), "exports")
}

fn assign_stmt(t: Expr, v: Expr) -> Stmt {
    Stmt::Expr(Expr::Assign(Box::new(t), Box::new(v)))
}

fn require_call(spec: &str) -> Expr {
    Expr::Call(
        Box::new(ident("require")),
        vec![Expr::StrLit(spec.to_string())],
    )
}

fn var_decl(name: &str, init: Expr) -> Stmt {
    Stmt::VarDecl(vec![Declarator {
        name: name.to_string(),
        init: Some(init),
    }])
}

fn call_stmt(callee: Expr, args: Vec<Expr>) -> Stmt {
    Stmt::Expr(Expr::Call(Box::new(callee), args))
}

fn define_property(target: Expr, key: Expr) -> Expr {
    Expr::Call(
        Box::new(member(ident("Object"), "defineProperty")),
        vec![target, key, Expr::ObjectLit(vec![])],
    )
}

fn names(v: &[&str]) -> Vec<String> {
    v.iter().map(|s| s.to_string()).collect()
}

fn run(body: Vec<Stmt>, env: &str, call_mode: bool) -> (Vec<String>, Vec<String>) {
    CjsModule { body }.get_exports(env, call_mode)
}

#[test]
fn deterministic_across_runs() {
    let body = vec![
        assign_stmt(member(ident("exports"), "a"), Expr::Other),
        assign_stmt(module_exports(), require_call("./other")),
        assign_stmt(member(ident("exports"), "b"), Expr::Other),
    ];
    let m = CjsModule { body };
    let first = m.get_exports("production", false);
    let second = m.get_exports("production", false);
    assert_eq!(first, second);
}

#[test]
fn order_preserved_and_duplicates_collapse() {
    let body = vec![
        assign_stmt(member(ident("exports"), "a"), Expr::Other),
        assign_stmt(member(ident("exports"), "b"), Expr::Other),
        assign_stmt(member(ident("exports"), "a"), Expr::Other),
    ];
    let (named, reexports) = run(body, "production", false);
    assert_eq!(named, names(&["a", "b"]));
    assert_eq!(reexports, Vec::<String>::new());
}

fn node_env_guard() -> Expr {
    member(member(ident("process"), "env"), "NODE_ENV")
}

fn env_if(test: Expr, cons: Vec<Stmt>, alt: Option<Vec<Stmt>>) -> Stmt {
    Stmt::If(
        test,
        Box::new(Stmt::Block(cons)),
        alt.map(|ss| Box::new(Stmt::Block(ss))),
    )
}

#[test]
fn conditional_selects_else_under_production() {
    let body = vec![env_if(
        Expr::StrictEq(
            Box::new(node_env_guard()),
            Box::new(Expr::StrLit("development".to_string())),
        ),
        vec![assign_stmt(member(ident("exports"), "a"), Expr::Other)],
        Some(vec![assign_stmt(member(ident("exports"), "b"), Expr::Other)]),
    )];
    let (named, _) = run(body, "production", false);
    assert_eq!(named, names(&["b"]));
}

#[test]
fn conditional_selects_then_under_development() {
    let body = vec![env_if(
        Expr::StrictEq(
            Box::new(node_env_guard()),
            Box::new(Expr::StrLit("development".to_string())),
        ),
        vec![assign_stmt(member(ident("exports"), "a"), Expr::Other)],
        Some(vec![assign_stmt(member(ident("exports"), "b"), Expr::Other)]),
    )];
    let (named, _) = run(body, "development", false);
    assert_eq!(named, names(&["a"]));
}

#[test]
fn strict_neq_inverts_selection() {
    let body = vec![env_if(
        Expr::StrictNeq(
            Box::new(node_env_guard()),
            Box::new(Expr::StrLit("production".to_string())),
        ),
        vec![assign_stmt(member(ident("exports"), "a"), Expr::Other)],
        Some(vec![assign_stmt(member(ident("exports"), "b"), Expr::Other)]),
    )];
    let (named, _) = run(body, "production", false);
    assert_eq!(named, names(&["b"]));
}

#[test]
fn literal_may_stand_on_either_side() {
    let body = vec![env_if(
        Expr::StrictEq(
            Box::new(Expr::StrLit("production".to_string())),
            Box::new(node_env_guard()),
        ),
        vec![assign_stmt(member(ident("exports"), "a"), Expr::Other)],
        None,
    )];
    let (named, _) = run(body, "production", false);
    assert_eq!(named, names(&["a"]));
}

#[test]
fn unrecognized_guard_descends_into_neither_branch() {
    let body = vec![env_if(
        Expr::StrictEq(Box::new(ident("flag")), Box::new(Expr::StrLit("on".to_string()))),
        vec![assign_stmt(member(ident("exports"), "a"), Expr::Other)],
        Some(vec![assign_stmt(member(ident("exports"), "b"), Expr::Other)]),
    )];
    let (named, _) = run(body, "production", false);
    assert_eq!(named, Vec::<String>::new());
}

#[test]
fn else_if_chain_resolves_recursively() {
    let inner = Stmt::If(
        Expr::StrictEq(
            Box::new(node_env_guard()),
            Box::new(Expr::StrLit("production".to_string())),
        ),
        Box::new(Stmt::Block(vec![assign_stmt(
            member(ident("exports"), "y"),
            Expr::Other,
        )])),
        Some(Box::new(Stmt::Block(vec![assign_stmt(
            member(ident("exports"), "z"),
            Expr::Other,
        )]))),
    );
    let body = vec![Stmt::If(
        Expr::StrictEq(
            Box::new(node_env_guard()),
            Box::new(Expr::StrLit("test".to_string())),
        ),
        Box::new(Stmt::Block(vec![assign_stmt(
            member(ident("exports"), "x"),
            Expr::Other,
        )])),
        Some(Box::new(inner)),
    )];
    let (named, _) = run(body, "production", false);
    assert_eq!(named, names(&["y"]));
}

#[test]
fn env_alias_is_tracked() {
    let body = vec![
        var_decl("env", node_env_guard()),
        env_if(
            Expr::StrictEq(
                Box::new(ident("env")),
                Box::new(Expr::StrLit("production".to_string())),
            ),
            vec![assign_stmt(member(ident("exports"), "a"), Expr::Other)],
            None,
        ),
    ];
    let (named, _) = run(body, "production", false);
    assert_eq!(named, names(&["a"]));
}

#[test]
fn reexport_wholesale() {
    let body = vec![assign_stmt(module_exports(), require_call("./other"))];
    let (named, reexports) = run(body, "production", false);
    assert_eq!(named, Vec::<String>::new());
    assert_eq!(reexports, names(&["./other"]));
}

#[test]
fn object_literal_export() {
    let body = vec![assign_stmt(
        module_exports(),
        Expr::ObjectLit(vec![
            Prop::KeyValue("a".to_string(), Box::new(Expr::Other)),
            Prop::KeyValue("b".to_string(), Box::new(ident("foo"))),
            Prop::Spread(Box::new(require_call("./x"))),
        ]),
    )];
    let (named, reexports) = run(body, "production", false);
    assert_eq!(named, names(&["a", "b"]));
    assert_eq!(reexports, names(&["./x"]));
}

#[test]
fn shorthand_and_opaque_properties() {
    let body = vec![assign_stmt(
        module_exports(),
        Expr::ObjectLit(vec![
            Prop::Shorthand("a".to_string()),
            Prop::Opaque,
            Prop::Spread(Box::new(ident("rest"))),
        ]),
    )];
    let (named, reexports) = run(body, "production", false);
    assert_eq!(named, names(&["a"]));
    assert_eq!(reexports, Vec::<String>::new());
}

fn wrapper_call(body: Vec<Stmt>) -> Stmt {
    Stmt::Expr(Expr::Call(
        Box::new(Expr::Paren(Box::new(Expr::FnExpr(vec![], body)))),
        vec![],
    ))
}

#[test]
fn wrapper_hidden_when_call_mode_off() {
    let body = vec![wrapper_call(vec![assign_stmt(
        member(ident("exports"), "a"),
        Expr::Other,
    )])];
    let (named, _) = run(body, "production", false);
    assert_eq!(named, Vec::<String>::new());
}

#[test]
fn wrapper_analyzed_when_call_mode_on() {
    let body = vec![wrapper_call(vec![assign_stmt(
        member(ident("exports"), "a"),
        Expr::Other,
    )])];
    let (named, _) = run(body, "production", true);
    assert_eq!(named, names(&["a"]));
}

#[test]
fn wrapper_statements_after_return_are_unreachable() {
    let body = vec![wrapper_call(vec![
        assign_stmt(member(ident("exports"), "a"), Expr::Other),
        Stmt::Return,
        assign_stmt(member(ident("exports"), "b"), Expr::Other),
    ])];
    let (named, _) = run(body, "production", true);
    assert_eq!(named, names(&["a"]));
}

#[test]
fn alias_of_export_object_is_tracked() {
    let body = vec![
        var_decl("e", module_exports()),
        assign_stmt(member(ident("e"), "a"), Expr::Other),
    ];
    let (named, _) = run(body, "production", false);
    assert_eq!(named, names(&["a"]));
}

#[test]
fn alias_of_alias_is_tracked() {
    let body = vec![
        var_decl("e", ident("exports")),
        var_decl("f", ident("e")),
        assign_stmt(member(ident("f"), "a"), Expr::Other),
    ];
    let (named, _) = run(body, "production", false);
    assert_eq!(named, names(&["a"]));
}

#[test]
fn assignment_alias_is_tracked() {
    let body = vec![
        assign_stmt(ident("e"), module_exports()),
        assign_stmt(member(ident("e"), "a"), Expr::Other),
    ];
    let (named, _) = run(body, "production", false);
    assert_eq!(named, names(&["a"]));
}

#[test]
fn bare_exports_takes_object_literal() {
    let body = vec![assign_stmt(
        ident("exports"),
        Expr::ObjectLit(vec![Prop::KeyValue("a".to_string(), Box::new(Expr::Other))]),
    )];
    let (named, _) = run(body, "production", false);
    assert_eq!(named, names(&["a"]));
}

#[test]
fn module_alias_reaches_exports() {
    let body = vec![
        var_decl("m", ident("module")),
        assign_stmt(member(member(ident("m"), "exports"), "a"), Expr::Other),
    ];
    let (named, _) = run(body, "production", false);
    assert_eq!(named, names(&["a"]));
}

#[test]
fn computed_key_is_suppressed() {
    let body = vec![assign_stmt(
        Expr::ComputedMember(Box::new(ident("exports")), Box::new(ident("someVar"))),
        Expr::Other,
    )];
    let (named, reexports) = run(body, "production", false);
    assert_eq!(named, Vec::<String>::new());
    assert_eq!(reexports, Vec::<String>::new());
}

#[test]
fn define_property_records_literal_key() {
    let body = vec![Stmt::Expr(define_property(
        ident("exports"),
        Expr::StrLit("x".to_string()),
    ))];
    let (named, _) = run(body, "production", false);
    assert_eq!(named, names(&["x"]));
}

#[test]
fn define_property_needs_literal_key() {
    let body = vec![Stmt::Expr(define_property(ident("exports"), ident("name")))];
    let (named, _) = run(body, "production", false);
    assert_eq!(named, Vec::<String>::new());
}

#[test]
fn define_properties_records_each_key() {
    let body = vec![call_stmt(
        member(ident("Object"), "defineProperties"),
        vec![
            ident("exports"),
            Expr::ObjectLit(vec![
                Prop::KeyValue("x".to_string(), Box::new(Expr::Other)),
                Prop::KeyValue("y".to_string(), Box::new(Expr::Other)),
            ]),
        ],
    )];
    let (named, _) = run(body, "production", false);
    assert_eq!(named, names(&["x", "y"]));
}

#[test]
fn key_copy_loop_is_a_reexport() {
    let keys = Expr::Call(
        Box::new(member(ident("Object"), "keys")),
        vec![require_call("./dep")],
    );
    let callback = Expr::FnExpr(
        vec!["k".to_string()],
        vec![Stmt::Expr(define_property(ident("exports"), ident("k")))],
    );
    let body = vec![call_stmt(member(keys, "forEach"), vec![callback])];
    let (named, reexports) = run(body, "production", false);
    assert_eq!(named, Vec::<String>::new());
    assert_eq!(reexports, names(&["./dep"]));
}

#[test]
fn key_copy_loop_needs_matching_iteration_variable() {
    let keys = Expr::Call(
        Box::new(member(ident("Object"), "keys")),
        vec![require_call("./dep")],
    );
    let callback = Expr::FnExpr(
        vec!["k".to_string()],
        vec![Stmt::Expr(define_property(
            ident("exports"),
            ident("other"),
        ))],
    );
    let body = vec![call_stmt(member(keys, "forEach"), vec![callback])];
    let (_, reexports) = run(body, "production", false);
    assert_eq!(reexports, Vec::<String>::new());
}

#[test]
fn duplicate_reexports_collapse() {
    let body = vec![
        assign_stmt(module_exports(), require_call("./a")),
        assign_stmt(module_exports(), require_call("./b")),
        assign_stmt(module_exports(), require_call("./a")),
    ];
    let (_, reexports) = run(body, "production", false);
    assert_eq!(reexports, names(&["./a", "./b"]));
}

#[test]
fn unknown_shapes_are_inert() {
    let body = vec![
        Stmt::Other,
        Stmt::Expr(Expr::Other),
        Stmt::Block(vec![assign_stmt(member(ident("exports"), "a"), Expr::Other)]),
        Stmt::Return,
        var_decl("x", ident("y")),
    ];
    let (named, reexports) = run(body, "production", false);
    assert_eq!(named, Vec::<String>::new());
    assert_eq!(reexports, Vec::<String>::new());
}

#[test]
fn empty_module_has_no_exports() {
    let (named, reexports) = run(vec![], "production", false);
    assert_eq!(named, Vec::<String>::new());
    assert_eq!(reexports, Vec::<String>::new());
}

#[test]
fn parenthesized_targets_and_values_are_unwrapped() {
    let body = vec![assign_stmt(
        Expr::Paren(Box::new(member(Expr::Paren(Box::new(ident("exports"))), "a"))),
        Expr::Other,
    )];
    let (named, _) = run(body, "production", false);
    assert_eq!(named, names(&["a"]));
}

#[test]
fn wholesale_of_unknown_value_records_nothing() {
    let body = vec![assign_stmt(module_exports(), ident("somethingElse"))];
    let (named, reexports) = run(body, "production", false);
    assert_eq!(named, Vec::<String>::new());
    assert_eq!(reexports, Vec::<String>::new());
}
