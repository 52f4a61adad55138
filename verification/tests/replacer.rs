use react_native_replacer::ast::{
    Expr, ExprOrSpread, Function, Ident, Lit, MemberProp, Prop, PropName,
};
use react_native_replacer::collect::{Collect, Import};
use react_native_replacer::replacer::{ReactNativeReplacer, DEFAULT_RANK, UNMATCHED_RANK};

// Syntax contexts used below: 0 for names that nothing in the file binds, 1 for
// the top level of the file, 2 for a nested scope.

fn id(sym: &str, ctxt: u32) -> Ident {
    Ident { sym: sym.to_string(), ctxt }
}

fn ident(sym: &str, ctxt: u32) -> Expr {
    Expr::Ident(id(sym, ctxt))
}

fn string(s: &str) -> Expr {
    Expr::Lit(Lit::Str(s.to_string()))
}

fn num(s: &str) -> Expr {
    Expr::Lit(Lit::Num(s.to_string()))
}

fn boolean(b: bool) -> Expr {
    Expr::Lit(Lit::Bool(b))
}

fn member(obj: Expr, name: &str) -> Expr {
    Expr::Member { obj: Box::new(obj), prop: MemberProp::Ident(name.to_string()) }
}

fn index(obj: Expr, key: Expr) -> Expr {
    Expr::Member { obj: Box::new(obj), prop: MemberProp::Computed(Box::new(key)) }
}

fn arg(expr: Expr) -> ExprOrSpread {
    ExprOrSpread { spread: false, expr }
}

fn spread_arg(expr: Expr) -> ExprOrSpread {
    ExprOrSpread { spread: true, expr }
}

fn call(callee: Expr, args: Vec<ExprOrSpread>) -> Expr {
    Expr::Call { callee: Box::new(callee), args }
}

fn object(props: Vec<Prop>) -> Expr {
    Expr::Object { props }
}

fn kv(name: &str, value: Expr) -> Prop {
    Prop::KeyValue { key: PropName::Ident(name.to_string()), value }
}

fn other(label: &str, children: Vec<Expr>) -> Expr {
    Expr::Other { label: label.to_string(), children }
}

fn function(params: &[&str], body: Vec<Expr>, is_generator: bool, is_async: bool) -> Function {
    Function {
        params: params.iter().map(|p| other(&format!("param {}", p), vec![])).collect(),
        body,
        is_generator,
        is_async,
    }
}

fn ret(value: Expr) -> Expr {
    other("return", vec![value])
}

fn log(value: Expr) -> Expr {
    other(
        "expression statement",
        vec![call(member(ident("console", 0), "log"), vec![arg(value)])],
    )
}

fn module(items: Vec<Expr>) -> Expr {
    other("module", items)
}

fn import_platform() -> Expr {
    other("import { Platform } from \"react-native\"", vec![])
}

fn platform() -> Expr {
    ident("Platform", 1)
}

fn select(arg_expr: Expr) -> Expr {
    call(member(platform(), "select"), vec![arg(arg_expr)])
}

fn named_import(local: Ident, source: &str, name: &str) -> Import {
    Import { local, source: source.to_string(), specifier: Some(name.to_string()) }
}

fn namespace_import(local: Ident, source: &str) -> Import {
    Import { local, source: source.to_string(), specifier: None }
}

/// The tables of a file that imports `Platform` from `react-native` by name.
fn platform_imported() -> Collect {
    Collect {
        decls: vec![id("Platform", 1)],
        imports: vec![named_import(id("Platform", 1), "react-native", "Platform")],
    }
}

fn no_tables() -> Collect {
    Collect { decls: vec![], imports: vec![] }
}

fn run_with(platforms: Vec<&str>, collect: &Collect, is_development: bool, node: Expr) -> Expr {
    let mut replacer = ReactNativeReplacer { platforms: &platforms, collect, is_development };
    replacer.fold_expr(node)
}

/// The usual configuration: android first, then native, development on.
fn run(collect: &Collect, node: Expr) -> Expr {
    run_with(vec!["android", "native"], collect, true, node)
}

#[test]
fn dev() {
    // console.log(__DEV__);
    assert_eq!(
        run(&no_tables(), module(vec![log(ident("__DEV__", 0))])),
        module(vec![log(boolean(true))])
    );

    // let __DEV__ = 1;
    // console.log(__DEV__);
    let declared = Collect { decls: vec![id("__DEV__", 1)], imports: vec![] };
    let program = || module(vec![other("let __DEV__", vec![num("1")]), log(ident("__DEV__", 1))]);
    assert_eq!(run(&declared, program()), program());

    // function f() {
    //     let __DEV__ = 2;
    //     console.log(__DEV__);
    // }
    let declared = Collect { decls: vec![id("f", 1), id("__DEV__", 2)], imports: vec![] };
    let program = || {
        module(vec![other(
            "function f",
            vec![other("let __DEV__", vec![num("2")]), log(ident("__DEV__", 2))],
        )])
    };
    assert_eq!(run(&declared, program()), program());
}

#[test]
fn os() {
    // import { Platform } from "react-native";
    // console.log(Platform.OS);
    assert_eq!(
        run(&platform_imported(), module(vec![import_platform(), log(member(platform(), "OS"))])),
        module(vec![import_platform(), log(string("android"))])
    );

    // const { Platform } = require("react-native");
    // console.log(Platform.OS);
    let require = || {
        other(
            "const { Platform }",
            vec![call(ident("require", 0), vec![arg(string("react-native"))])],
        )
    };
    assert_eq!(
        run(&platform_imported(), module(vec![require(), log(member(platform(), "OS"))])),
        module(vec![require(), log(string("android"))])
    );

    // import * as RN from "react-native";
    // console.log(RN.Platform.OS);
    let namespace = Collect {
        decls: vec![id("RN", 1)],
        imports: vec![namespace_import(id("RN", 1), "react-native")],
    };
    let import = || other("import * as RN from \"react-native\"", vec![]);
    assert_eq!(
        run(
            &namespace,
            module(vec![import(), log(member(member(ident("RN", 1), "Platform"), "OS"))])
        ),
        module(vec![import(), log(string("android"))])
    );

    // import { Platform } from "react-native";
    // function x() {
    //     const Platform = 2;
    //     console.log(Platform.OS);
    // }
    let shadowed = Collect {
        decls: vec![id("Platform", 1), id("x", 1), id("Platform", 2)],
        imports: vec![named_import(id("Platform", 1), "react-native", "Platform")],
    };
    let program = || {
        module(vec![
            import_platform(),
            other(
                "function x",
                vec![
                    other("const Platform", vec![num("2")]),
                    log(member(ident("Platform", 2), "OS")),
                ],
            ),
        ])
    };
    assert_eq!(run(&shadowed, program()), program());
}

#[test]
fn select_expr() {
    let collect = platform_imported();

    // console.log(Platform.select({ android: 1, ios: 2 }));
    assert_eq!(
        run(
            &collect,
            module(vec![
                import_platform(),
                log(select(object(vec![kv("android", num("1")), kv("ios", num("2"))]))),
            ])
        ),
        module(vec![import_platform(), log(num("1"))])
    );

    // console.log(Platform.select({ default: 3, ios: 4 }));
    assert_eq!(
        run(
            &collect,
            module(vec![
                import_platform(),
                log(select(object(vec![kv("default", num("3")), kv("ios", num("4"))]))),
            ])
        ),
        module(vec![import_platform(), log(num("3"))])
    );

    // console.log(Platform.select({ default: 3, native: 3.5, ios: 4 }));
    assert_eq!(
        run(
            &collect,
            module(vec![
                import_platform(),
                log(select(object(vec![
                    kv("default", num("3")),
                    kv("native", num("3.5")),
                    kv("ios", num("4")),
                ]))),
            ])
        ),
        module(vec![import_platform(), log(num("3.5"))])
    );

    // let x = { default: 3, native: 3.5 };
    // console.log(Platform.select({ ...x, ios: 4 }));
    let with_x = Collect {
        decls: vec![id("Platform", 1), id("x", 1)],
        imports: vec![named_import(id("Platform", 1), "react-native", "Platform")],
    };
    let program = || {
        module(vec![
            import_platform(),
            other(
                "let x",
                vec![object(vec![kv("default", num("3")), kv("native", num("3.5"))])],
            ),
            log(select(object(vec![Prop::Spread(ident("x", 1)), kv("ios", num("4"))]))),
        ])
    };
    assert_eq!(run(&with_x, program()), program());

    // console.log(Platform.select(foo));
    let program = || module(vec![import_platform(), log(select(ident("foo", 0)))]);
    assert_eq!(run(&collect, program()), program());
}

#[test]
fn select_functions() {
    let collect = platform_imported();

    // console.log(Platform.select({
    //     get ios() { return 'get1'; },
    //     default() { return 'get2'; }
    // }));
    let program = || {
        module(vec![
            import_platform(),
            log(select(object(vec![
                Prop::Getter {
                    key: PropName::Ident("ios".to_string()),
                    function: function(&[], vec![ret(string("get1"))], false, false),
                },
                Prop::Method {
                    key: PropName::Ident("default".to_string()),
                    function: function(&[], vec![ret(string("get2"))], false, false),
                },
            ]))),
        ])
    };
    assert_eq!(run(&collect, program()), program());

    // console.log(Platform.select({
    //     ios() { return 1; },
    //     async *android(a, b) { return 2; },
    // }));
    assert_eq!(
        run(
            &collect,
            module(vec![
                import_platform(),
                log(select(object(vec![
                    Prop::Method {
                        key: PropName::Ident("ios".to_string()),
                        function: function(&[], vec![ret(num("1"))], false, false),
                    },
                    Prop::Method {
                        key: PropName::Ident("android".to_string()),
                        function: function(&["a", "b"], vec![ret(num("2"))], true, true),
                    },
                ]))),
            ])
        ),
        module(vec![
            import_platform(),
            log(Expr::Fn {
                ident: None,
                function: function(&["a", "b"], vec![ret(num("2"))], true, true),
            }),
        ])
    );
}

#[test]
fn os_is_the_first_platform_of_the_list() {
    let collect = platform_imported();
    assert_eq!(run_with(vec!["ios"], &collect, true, member(platform(), "OS")), string("ios"));
    assert_eq!(
        run_with(vec!["native", "android", "ios"], &collect, true, member(platform(), "OS")),
        string("native")
    );
}

#[test]
fn other_members_of_platform_are_kept() {
    let collect = platform_imported();
    assert_eq!(run(&collect, member(platform(), "Version")), member(platform(), "Version"));
    // Platform["OS"] is a computed access, which the pass does not specialise.
    assert_eq!(run(&collect, index(platform(), string("OS"))), index(platform(), string("OS")));
}

#[test]
fn platform_of_another_module_is_kept() {
    let collect = Collect {
        decls: vec![],
        imports: vec![named_import(id("Platform", 1), "react-native-web", "Platform")],
    };
    assert_eq!(run(&collect, member(platform(), "OS")), member(platform(), "OS"));
    let collect = Collect {
        decls: vec![],
        imports: vec![named_import(id("Platform", 1), "react-native", "Dimensions")],
    };
    assert_eq!(run(&collect, member(platform(), "OS")), member(platform(), "OS"));
}

#[test]
fn renamed_import_is_resolved() {
    // import { Platform as P } from "react-native"; P.OS
    let collect = Collect {
        decls: vec![],
        imports: vec![named_import(id("P", 1), "react-native", "Platform")],
    };
    assert_eq!(run(&collect, member(ident("P", 1), "OS")), string("android"));
    // The same name in another syntax context is another binding.
    assert_eq!(run(&collect, member(ident("P", 2), "OS")), member(ident("P", 2), "OS"));
}

#[test]
fn development_flag_off() {
    assert_eq!(
        run_with(vec!["android"], &no_tables(), false, ident("__DEV__", 0)),
        boolean(false)
    );
}

#[test]
fn other_identifiers_are_kept() {
    assert_eq!(run(&no_tables(), ident("__PROD__", 0)), ident("__PROD__", 0));
    assert_eq!(run(&no_tables(), ident("DEV", 0)), ident("DEV", 0));
}

#[test]
fn property_named_dev_is_kept() {
    // foo.__DEV__ keeps its property name, and foo[__DEV__] has its key replaced.
    assert_eq!(
        run(&no_tables(), member(ident("foo", 0), "__DEV__")),
        member(ident("foo", 0), "__DEV__")
    );
    assert_eq!(
        run(&no_tables(), index(ident("foo", 0), ident("__DEV__", 0))),
        index(ident("foo", 0), boolean(true))
    );
    // __DEV__.foo has its object replaced.
    assert_eq!(
        run(&no_tables(), member(ident("__DEV__", 0), "foo")),
        member(boolean(true), "foo")
    );
}

#[test]
fn shorthand_property_is_kept() {
    // ({ __DEV__ }) holds a name, not an expression.
    let program = || object(vec![Prop::Shorthand(id("__DEV__", 0))]);
    assert_eq!(run(&no_tables(), program()), program());
}

#[test]
fn every_kind_of_child_is_visited() {
    let dev = || ident("__DEV__", 0);
    let t = || boolean(true);
    let f = |e: Expr| function(&[], vec![ret(e)], false, false);
    let input = object(vec![
        Prop::Spread(dev()),
        Prop::KeyValue { key: PropName::Computed(dev()), value: dev() },
        Prop::KeyValue { key: PropName::Str("__DEV__".to_string()), value: dev() },
        Prop::KeyValue { key: PropName::Num("1".to_string()), value: dev() },
        Prop::Assign { name: id("__DEV__", 0), value: dev() },
        Prop::Getter { key: PropName::Computed(dev()), function: f(dev()) },
        Prop::Setter { key: PropName::Ident("__DEV__".to_string()), function: f(dev()) },
        Prop::Method { key: PropName::Ident("m".to_string()), function: f(dev()) },
    ]);
    let expected = object(vec![
        Prop::Spread(t()),
        Prop::KeyValue { key: PropName::Computed(t()), value: t() },
        Prop::KeyValue { key: PropName::Str("__DEV__".to_string()), value: t() },
        Prop::KeyValue { key: PropName::Num("1".to_string()), value: t() },
        Prop::Assign { name: id("__DEV__", 0), value: t() },
        Prop::Getter { key: PropName::Computed(t()), function: f(t()) },
        Prop::Setter { key: PropName::Ident("__DEV__".to_string()), function: f(t()) },
        Prop::Method { key: PropName::Ident("m".to_string()), function: f(t()) },
    ]);
    assert_eq!(run(&no_tables(), input), expected);

    // Callee, arguments (spread or not), function expressions and their names.
    let input = call(
        Expr::Fn {
            ident: Some(id("__DEV__", 2)),
            function: Function {
                params: vec![other("param a =", vec![dev()])],
                body: vec![ret(dev())],
                is_generator: true,
                is_async: false,
            },
        },
        vec![arg(dev()), spread_arg(dev())],
    );
    let expected = call(
        Expr::Fn {
            ident: Some(id("__DEV__", 2)),
            function: Function {
                params: vec![other("param a =", vec![t()])],
                body: vec![ret(t())],
                is_generator: true,
                is_async: false,
            },
        },
        vec![arg(t()), spread_arg(t())],
    );
    assert_eq!(run(&no_tables(), input), expected);
}

#[test]
fn rank_values() {
    let collect = no_tables();
    let platforms = vec!["android", "native", "android"];
    let replacer = ReactNativeReplacer { platforms: &platforms, collect: &collect, is_development: true };
    assert_eq!(replacer.rank(&"android".to_string()), 0);
    assert_eq!(replacer.rank(&"native".to_string()), 1);
    assert_eq!(replacer.rank(&"default".to_string()), usize::MAX / 2);
    assert_eq!(replacer.rank(&"ios".to_string()), usize::MAX);
    assert_eq!(replacer.rank(&"".to_string()), usize::MAX);
    assert_eq!(DEFAULT_RANK, usize::MAX / 2);
    assert_eq!(UNMATCHED_RANK, usize::MAX);
}

#[test]
fn default_in_the_list_still_ranks_as_default() {
    let collect = no_tables();
    let platforms = vec!["default", "android"];
    let replacer = ReactNativeReplacer { platforms: &platforms, collect: &collect, is_development: true };
    assert_eq!(replacer.rank(&"default".to_string()), DEFAULT_RANK);
    assert_eq!(replacer.rank(&"android".to_string()), 1);
}

#[test]
fn select_picks_the_least_rank() {
    let collect = no_tables();
    let platforms = vec!["android", "native"];
    let replacer = ReactNativeReplacer { platforms: &platforms, collect: &collect, is_development: true };
    let props = |names: &[&str]| -> Vec<Prop> { names.iter().map(|n| kv(n, num("0"))).collect() };
    assert_eq!(replacer.select(&props(&["android", "ios"])), Some(0));
    assert_eq!(replacer.select(&props(&["ios", "android"])), Some(1));
    assert_eq!(replacer.select(&props(&["default", "native", "ios"])), Some(1));
    assert_eq!(replacer.select(&props(&["native", "default", "android"])), Some(2));
    assert_eq!(replacer.select(&props(&["ios", "default", "web"])), Some(1));
    assert_eq!(replacer.select(&props(&["ios", "web"])), None);
    assert_eq!(replacer.select(&props(&[])), None);
}

#[test]
fn select_first_of_equal_rank_wins() {
    let collect = platform_imported();
    assert_eq!(
        run(&collect, select(object(vec![kv("native", num("1")), kv("native", num("2"))]))),
        num("1")
    );
    assert_eq!(
        run(&collect, select(object(vec![kv("default", num("1")), kv("default", num("2"))]))),
        num("1")
    );
}

#[test]
fn select_without_a_match_is_kept() {
    let collect = platform_imported();
    let program = || select(object(vec![kv("ios", num("4")), kv("web", num("5"))]));
    assert_eq!(run(&collect, program()), program());
    let program = || select(object(vec![]));
    assert_eq!(run(&collect, program()), program());
    // The children of a call that is kept are still visited.
    assert_eq!(
        run(&collect, select(object(vec![kv("ios", ident("__DEV__", 0))]))),
        select(object(vec![kv("ios", boolean(true))]))
    );
}

#[test]
fn select_with_a_disallowed_property_is_kept() {
    let collect = platform_imported();
    let android = || kv("android", ident("__DEV__", 0));
    let android_done = || kv("android", boolean(true));
    let cases: Vec<(Prop, Prop)> = vec![
        (Prop::Spread(ident("x", 0)), Prop::Spread(ident("x", 0))),
        (Prop::Shorthand(id("android", 0)), Prop::Shorthand(id("android", 0))),
        (
            Prop::KeyValue { key: PropName::Str("ios".to_string()), value: num("1") },
            Prop::KeyValue { key: PropName::Str("ios".to_string()), value: num("1") },
        ),
        (
            Prop::KeyValue { key: PropName::Num("1".to_string()), value: num("1") },
            Prop::KeyValue { key: PropName::Num("1".to_string()), value: num("1") },
        ),
        (
            Prop::KeyValue { key: PropName::Computed(ident("k", 0)), value: num("1") },
            Prop::KeyValue { key: PropName::Computed(ident("k", 0)), value: num("1") },
        ),
        (
            Prop::Assign { name: id("ios", 0), value: num("1") },
            Prop::Assign { name: id("ios", 0), value: num("1") },
        ),
        (
            Prop::Setter {
                key: PropName::Ident("ios".to_string()),
                function: function(&["v"], vec![], false, false),
            },
            Prop::Setter {
                key: PropName::Ident("ios".to_string()),
                function: function(&["v"], vec![], false, false),
            },
        ),
        (
            Prop::Method {
                key: PropName::Str("ios".to_string()),
                function: function(&[], vec![], false, false),
            },
            Prop::Method {
                key: PropName::Str("ios".to_string()),
                function: function(&[], vec![], false, false),
            },
        ),
    ];
    for (before, after) in cases {
        assert_eq!(
            run(&collect, select(object(vec![android(), before]))),
            select(object(vec![android_done(), after]))
        );
    }
}

#[test]
fn select_needs_one_plain_object_argument() {
    let collect = platform_imported();
    let obj = || object(vec![kv("android", num("1"))]);
    let program = || call(member(platform(), "select"), vec![]);
    assert_eq!(run(&collect, program()), program());
    let program = || call(member(platform(), "select"), vec![arg(obj()), arg(obj())]);
    assert_eq!(run(&collect, program()), program());
    let program = || call(member(platform(), "select"), vec![spread_arg(obj())]);
    assert_eq!(run(&collect, program()), program());
    let program = || call(index(platform(), string("select")), vec![arg(obj())]);
    assert_eq!(run(&collect, program()), program());
    let program = || call(member(platform(), "choose"), vec![arg(obj())]);
    assert_eq!(run(&collect, program()), program());
    let program = || call(member(ident("Platform", 2), "select"), vec![arg(obj())]);
    assert_eq!(run(&collect, program()), program());
    let program = || call(platform(), vec![arg(obj())]);
    assert_eq!(run(&collect, program()), program());
}

#[test]
fn selected_branch_is_specialised_in_turn() {
    let collect = platform_imported();
    let input = select(object(vec![
        kv("ios", ident("__DEV__", 0)),
        kv(
            "native",
            object(vec![
                kv("os", member(platform(), "OS")),
                kv("dev", ident("__DEV__", 0)),
                kv("inner", select(object(vec![kv("default", string("d"))]))),
            ]),
        ),
    ]));
    let expected = object(vec![
        kv("os", string("android")),
        kv("dev", boolean(true)),
        kv("inner", string("d")),
    ]);
    assert_eq!(run(&collect, input), expected);
}

#[test]
fn losing_branches_are_dropped() {
    let collect = platform_imported();
    let effect = || call(ident("sideEffect", 0), vec![]);
    assert_eq!(
        run(&collect, select(object(vec![kv("ios", effect()), kv("android", num("1"))]))),
        num("1")
    );
}

#[test]
fn select_through_a_namespace_import() {
    let collect = Collect {
        decls: vec![],
        imports: vec![namespace_import(id("RN", 1), "react-native")],
    };
    let input = call(
        member(member(ident("RN", 1), "Platform"), "select"),
        vec![arg(object(vec![kv("native", num("7"))]))],
    );
    assert_eq!(run(&collect, input), num("7"));
}

#[test]
fn second_run_changes_nothing() {
    let collect = platform_imported();
    let program = || {
        module(vec![
            import_platform(),
            log(member(platform(), "OS")),
            log(ident("__DEV__", 0)),
            log(select(object(vec![
                kv("default", ident("__DEV__", 0)),
                kv("ios", member(platform(), "OS")),
            ]))),
            log(select(object(vec![kv("ios", num("1"))]))),
        ])
    };
    let once = run(&collect, program());
    let twice = run(&collect, run(&collect, program()));
    assert_eq!(once, twice);
    assert_eq!(
        once,
        module(vec![
            import_platform(),
            log(string("android")),
            log(boolean(true)),
            log(boolean(true)),
            log(select(object(vec![kv("ios", num("1"))]))),
        ])
    );
}

#[test]
fn a_selected_branch_can_complete_a_new_match() {
    // Platform.select({ default: Platform }).OS only becomes Platform.OS in
    // the first run, which a second run then replaces.
    let collect = platform_imported();
    let program = || member(select(object(vec![kv("default", platform())])), "OS");
    assert_eq!(run(&collect, program()), member(platform(), "OS"));
    assert_eq!(run(&collect, run(&collect, program())), string("android"));
}

#[test]
fn tables_answer_for_the_binding_asked() {
    let collect = Collect {
        decls: vec![id("a", 1), id("b", 2)],
        imports: vec![
            named_import(id("x", 1), "first", "one"),
            named_import(id("x", 1), "second", "two"),
            namespace_import(id("ns", 1), "third"),
        ],
    };
    assert!(collect.is_declared(&id("a", 1)));
    assert!(collect.is_declared(&id("b", 2)));
    assert!(!collect.is_declared(&id("a", 2)));
    assert!(!collect.is_declared(&id("c", 1)));
    assert_eq!(collect.import_of(&id("x", 1)), Some(&named_import(id("x", 1), "first", "one")));
    assert_eq!(collect.import_of(&id("x", 2)), None);
    assert_eq!(
        collect.match_module_reference(&ident("x", 1)),
        Some(("first".to_string(), "one".to_string()))
    );
    assert_eq!(collect.match_module_reference(&ident("ns", 1)), None);
    assert_eq!(
        collect.match_module_reference(&member(ident("ns", 1), "Platform")),
        Some(("third".to_string(), "Platform".to_string()))
    );
    assert_eq!(collect.match_module_reference(&member(ident("x", 1), "Platform")), None);
    assert_eq!(collect.match_module_reference(&index(ident("ns", 1), string("Platform"))), None);
    assert_eq!(collect.match_module_reference(&string("react-native")), None);
    assert!(id("a", 1).same(&id("a", 1)));
    assert!(!id("a", 1).same(&id("a", 2)));
    assert!(!id("a", 1).same(&id("b", 1)));
}

#[test]
fn match_platform_answers() {
    let collect = platform_imported();
    let platforms = vec!["android"];
    let replacer = ReactNativeReplacer { platforms: &platforms, collect: &collect, is_development: true };
    assert!(replacer.match_platform(&platform()));
    assert!(!replacer.match_platform(&ident("Platform", 2)));
    assert!(!replacer.match_platform(&member(platform(), "OS")));
}
