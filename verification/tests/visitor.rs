use console_prefix::{
    console_method, CallExpr, Config, Ident, Lit, MemberExpr, Node, Program, TransformVisitor,
};

fn ident(name: &str) -> Node {
    Node::Ident(Ident { sym: name.to_owned() })
}

fn string(value: &str) -> Node {
    Node::Lit(Lit::Str(value.to_owned()))
}

fn number(raw: &str) -> Node {
    Node::Lit(Lit::Other(raw.to_owned()))
}

fn member(obj: Node, prop: &str) -> Node {
    Node::Member(MemberExpr { obj: Box::new(obj), prop: Box::new(ident(prop)), computed: false })
}

fn index(obj: Node, prop: Node) -> Node {
    Node::Member(MemberExpr { obj: Box::new(obj), prop: Box::new(prop), computed: true })
}

fn call(callee: Node, args: Vec<Node>) -> Node {
    Node::Call(CallExpr { callee: Box::new(callee), args })
}

fn statement(expr: Node) -> Node {
    Node::Other { kind: "ExprStmt".to_owned(), children: vec![expr] }
}

fn array(items: Vec<Node>) -> Node {
    Node::Other { kind: "ArrayLit".to_owned(), children: items }
}

fn console(method: &str, args: Vec<Node>) -> Node {
    call(member(ident("console"), method), args)
}

/// `console.<method>(<args>);` as a program.
fn console_call(method: &str, args: Vec<Node>) -> Program {
    Program { body: vec![statement(console(method, args))] }
}

fn with_prefix(prefix: &str) -> Config {
    Config { prefix_pattern: prefix.to_owned(), ..Default::default() }
}

fn run(config: Config, mut program: Program) -> Program {
    let mut visitor = TransformVisitor::new(config);
    visitor.visit_mut_program(&mut program);
    program
}

fn run_node(config: Config, mut node: Node) -> Node {
    let mut visitor = TransformVisitor::new(config);
    visitor.visit_mut_node(&mut node);
    node
}

#[test]
fn adds_default_prefix_when_filename_is_some() {
    let config = Config { filename: Some("test.js".to_owned()), ..Default::default() };
    let out = run(config, console_call("log", vec![string("hello world")]));
    assert_eq!(out, console_call("log", vec![string("test.js"), string("hello world")]));
}

#[test]
fn doesnt_add_default_prefix_when_filename_is_none() {
    let out = run(Config::default(), console_call("log", vec![string("hello world")]));
    assert_eq!(out, console_call("log", vec![string("hello world")]));
}

#[test]
fn adds_custom_prefix_to_console_logs() {
    let out = run(with_prefix("custom-prefix:"), console_call("log", vec![string("hello world")]));
    assert_eq!(out, console_call("log", vec![string("custom-prefix:"), string("hello world")]));
}

#[test]
fn does_not_alter_console_table() {
    let fruit = || array(vec![string("apples"), string("oranges"), string("bananas")]);
    let out = run(Config::default(), console_call("table", vec![fruit()]));
    assert_eq!(out, console_call("table", vec![fruit()]));
}

#[test]
fn ignores_console_members() {
    let config = Config { ignore: vec!["log".to_owned()], ..Default::default() };
    let out = run(config, console_call("log", vec![string("hello world")]));
    assert_eq!(out, console_call("log", vec![string("hello world")]));
}

#[test]
fn adds_filename() {
    let config = Config {
        prefix_pattern: "file: [filename]".to_owned(),
        filename: Some("test.js".to_owned()),
        ..Default::default()
    };
    let out = run(config, console_call("log", vec![string("hello world")]));
    assert_eq!(out, console_call("log", vec![string("file: test.js"), string("hello world")]));
}

#[test]
fn table_is_exempt_even_with_a_prefix_and_an_ignore_list() {
    let config = Config {
        ignore: vec!["log".to_owned(), "warn".to_owned()],
        prefix_pattern: "p:".to_owned(),
        filename: Some("a.js".to_owned()),
    };
    let out = run(config, console_call("table", vec![string("x")]));
    assert_eq!(out, console_call("table", vec![string("x")]));
}

#[test]
fn only_the_listed_methods_are_ignored() {
    let config = Config { ignore: vec!["info".to_owned()], ..with_prefix("p:") };
    let program = Program {
        body: vec![
            statement(console("info", vec![string("a")])),
            statement(console("warn", vec![string("b")])),
        ],
    };
    let expected = Program {
        body: vec![
            statement(console("info", vec![string("a")])),
            statement(console("warn", vec![string("p:"), string("b")])),
        ],
    };
    assert_eq!(run(config, program), expected);
}

#[test]
fn ignore_entries_are_compared_by_exact_text() {
    let config = Config { ignore: vec!["Log".to_owned(), "lo".to_owned(), "logs".to_owned()], ..with_prefix("p:") };
    let out = run(config, console_call("log", vec![]));
    assert_eq!(out, console_call("log", vec![string("p:")]));
}

#[test]
fn prefix_goes_first_and_arguments_keep_their_order() {
    let args = || vec![string("a"), number("1"), ident("b"), array(vec![number("2")])];
    let out = run(with_prefix("p:"), console_call("error", args()));
    let mut expected = vec![string("p:")];
    expected.extend(args());
    assert_eq!(out, console_call("error", expected));
}

#[test]
fn call_without_arguments_gets_the_prefix_alone() {
    let out = run(with_prefix("p:"), console_call("log", vec![]));
    assert_eq!(out, console_call("log", vec![string("p:")]));
}

#[test]
fn nested_calls_are_rewritten_each_on_its_own() {
    let inner = || console("info", vec![string("x")]);
    let node = console("log", vec![inner(), string("y")]);
    let expected = console(
        "log",
        vec![string("p:"), console("info", vec![string("p:"), string("x")]), string("y")],
    );
    assert_eq!(run_node(with_prefix("p:"), node), expected);
}

#[test]
fn call_inside_an_exempt_call_is_still_rewritten() {
    let node = console("table", vec![console("log", vec![string("x")])]);
    let expected = console("table", vec![console("log", vec![string("p:"), string("x")])]);
    assert_eq!(run_node(with_prefix("p:"), node), expected);
}

#[test]
fn call_of_another_object_is_left_alone() {
    let node = call(member(ident("logger"), "log"), vec![string("x")]);
    let same = call(member(ident("logger"), "log"), vec![string("x")]);
    assert_eq!(run_node(with_prefix("p:"), node), same);
}

#[test]
fn object_name_is_compared_by_exact_text() {
    for name in ["Console", "console2", "consol", ""] {
        let node = call(member(ident(name), "log"), vec![string("x")]);
        let same = call(member(ident(name), "log"), vec![string("x")]);
        assert_eq!(run_node(with_prefix("p:"), node), same);
    }
}

#[test]
fn computed_member_is_left_alone() {
    let node = call(index(ident("console"), string("log")), vec![string("x")]);
    let same = call(index(ident("console"), string("log")), vec![string("x")]);
    assert_eq!(run_node(with_prefix("p:"), node), same);
    let node = call(index(ident("console"), ident("log")), vec![string("x")]);
    let same = call(index(ident("console"), ident("log")), vec![string("x")]);
    assert_eq!(run_node(with_prefix("p:"), node), same);
}

#[test]
fn bare_call_is_left_alone() {
    let node = call(ident("console"), vec![string("x")]);
    let same = call(ident("console"), vec![string("x")]);
    assert_eq!(run_node(with_prefix("p:"), node), same);
}

#[test]
fn member_of_a_member_is_left_alone() {
    let node = call(member(member(ident("window"), "console"), "log"), vec![string("x")]);
    let same = call(member(member(ident("window"), "console"), "log"), vec![string("x")]);
    assert_eq!(run_node(with_prefix("p:"), node), same);
    let node = call(member(member(ident("console"), "log"), "bind"), vec![ident("console")]);
    let same = call(member(member(ident("console"), "log"), "bind"), vec![ident("console")]);
    assert_eq!(run_node(with_prefix("p:"), node), same);
}

#[test]
fn call_of_a_call_is_rewritten_inside_only() {
    let node = call(console("log", vec![string("x")]), vec![string("y")]);
    let expected = call(console("log", vec![string("p:"), string("x")]), vec![string("y")]);
    assert_eq!(run_node(with_prefix("p:"), node), expected);
}

#[test]
fn calls_are_found_below_any_node() {
    let node = Node::Other {
        kind: "IfStmt".to_owned(),
        children: vec![
            ident("flag"),
            Node::Other {
                kind: "BlockStmt".to_owned(),
                children: vec![statement(console("log", vec![string("x")]))],
            },
        ],
    };
    let expected = Node::Other {
        kind: "IfStmt".to_owned(),
        children: vec![
            ident("flag"),
            Node::Other {
                kind: "BlockStmt".to_owned(),
                children: vec![statement(console("log", vec![string("p:"), string("x")]))],
            },
        ],
    };
    assert_eq!(run_node(with_prefix("p:"), node), expected);
}

#[test]
fn calls_are_found_inside_members() {
    let node = member(console("log", vec![]), "length");
    let expected = member(console("log", vec![string("p:")]), "length");
    assert_eq!(run_node(with_prefix("p:"), node), expected);
    let node = index(ident("a"), console("log", vec![]));
    let expected = index(ident("a"), console("log", vec![string("p:")]));
    assert_eq!(run_node(with_prefix("p:"), node), expected);
}

#[test]
fn empty_prefix_changes_nothing_anywhere() {
    let program = || Program {
        body: vec![
            statement(console("log", vec![console("warn", vec![string("x")])])),
            statement(call(ident("f"), vec![console("error", vec![])])),
        ],
    };
    assert_eq!(run(with_prefix(""), program()), program());
    assert_eq!(run(Config::default(), program()), program());
}

#[test]
fn tree_without_calls_is_unchanged() {
    let node = || array(vec![ident("console"), member(ident("console"), "log"), string("log")]);
    assert_eq!(run_node(with_prefix("p:"), node()), node());
}

#[test]
fn visit_mut_call_expr_rewrites_the_call_and_what_is_below() {
    let mut visitor = TransformVisitor::new(with_prefix("p:"));
    let mut call_expr = CallExpr {
        callee: Box::new(member(ident("console"), "log")),
        args: vec![console("debug", vec![])],
    };
    visitor.visit_mut_call_expr(&mut call_expr);
    assert_eq!(
        call_expr,
        CallExpr {
            callee: Box::new(member(ident("console"), "log")),
            args: vec![string("p:"), console("debug", vec![string("p:")])],
        }
    );
}

#[test]
fn visit_mut_nodes_rewrites_each_node() {
    let mut visitor = TransformVisitor::new(with_prefix("p:"));
    let mut nodes = vec![console("log", vec![]), ident("x"), console("table", vec![])];
    visitor.visit_mut_nodes(&mut nodes);
    assert_eq!(nodes, vec![console("log", vec![string("p:")]), ident("x"), console("table", vec![])]);
    let mut none: Vec<Node> = vec![];
    visitor.visit_mut_nodes(&mut none);
    assert_eq!(none, vec![]);
}

#[test]
fn add_prefix_to_log_inserts_when_the_prefix_is_not_empty() {
    let visitor = TransformVisitor::new(with_prefix("p:"));
    let mut call_expr = CallExpr { callee: Box::new(ident("anything")), args: vec![ident("a")] };
    visitor.add_prefix_to_log(&mut call_expr);
    assert_eq!(
        call_expr,
        CallExpr { callee: Box::new(ident("anything")), args: vec![string("p:"), ident("a")] }
    );
}

#[test]
fn add_prefix_to_log_does_nothing_when_the_prefix_is_empty() {
    let visitor = TransformVisitor::new(Config::default());
    let mut call_expr = CallExpr { callee: Box::new(ident("anything")), args: vec![ident("a")] };
    visitor.add_prefix_to_log(&mut call_expr);
    assert_eq!(call_expr, CallExpr { callee: Box::new(ident("anything")), args: vec![ident("a")] });
}

#[test]
fn ignore_console_method_knows_table_and_the_list() {
    let config = Config { ignore: vec!["info".to_owned(), "debug".to_owned()], ..Default::default() };
    let visitor = TransformVisitor::new(config);
    let ignored = |name: &str| visitor.ignore_console_method(&Ident { sym: name.to_owned() });
    assert!(ignored("table"));
    assert!(ignored("info"));
    assert!(ignored("debug"));
    assert!(!ignored("log"));
    assert!(!ignored("tabl"));
    assert!(!ignored("tables"));
    assert!(!ignored(""));
    let bare = TransformVisitor::new(Config::default());
    assert!(bare.ignore_console_method(&Ident { sym: "table".to_owned() }));
    assert!(!bare.ignore_console_method(&Ident { sym: "info".to_owned() }));
}

#[test]
fn generate_prefix_replaces_every_placeholder() {
    let prefix = |pattern: &str, filename: Option<&str>| {
        TransformVisitor::new(Config {
            ignore: vec![],
            prefix_pattern: pattern.to_owned(),
            filename: filename.map(|name| name.to_owned()),
        })
        .generate_prefix()
    };
    assert_eq!(prefix("[filename]", Some("test.js")), "test.js");
    assert_eq!(prefix("[filename]", None), "");
    assert_eq!(prefix("file: [filename]", Some("test.js")), "file: test.js");
    assert_eq!(prefix("file: [filename]", None), "file: ");
    assert_eq!(prefix("[filename]|[filename]", Some("a")), "a|a");
    assert_eq!(prefix("[filename][filename]", Some("ab")), "abab");
    assert_eq!(prefix("custom-prefix:", Some("test.js")), "custom-prefix:");
    assert_eq!(prefix("", Some("test.js")), "");
    assert_eq!(prefix("[Filename] [filename [file] [name]", Some("x")), "[Filename] [filename [file] [name]");
    assert_eq!(prefix("[[filename]]", Some("x")), "[x]");
    assert_eq!(prefix("[filename]", Some("[filename]")), "[filename]");
    assert_eq!(prefix("→ [filename] ←", Some("día.js")), "→ día.js ←");
}

#[test]
fn generate_prefix_gives_the_same_prefix_every_time() {
    let visitor = TransformVisitor::new(Config {
        ignore: vec![],
        prefix_pattern: "file: [filename]".to_owned(),
        filename: Some("test.js".to_owned()),
    });
    assert_eq!(visitor.generate_prefix(), "file: test.js");
    assert_eq!(visitor.generate_prefix(), "file: test.js");
}

#[test]
fn console_method_reads_the_shape_of_the_callee() {
    assert_eq!(console_method(&member(ident("console"), "log")), Some(&Ident { sym: "log".to_owned() }));
    assert_eq!(console_method(&member(ident("console"), "table")), Some(&Ident { sym: "table".to_owned() }));
    assert_eq!(console_method(&member(ident("konsole"), "log")), None);
    assert_eq!(console_method(&index(ident("console"), ident("log"))), None);
    assert_eq!(console_method(&index(ident("console"), string("log"))), None);
    assert_eq!(console_method(&member(member(ident("a"), "console"), "log")), None);
    assert_eq!(console_method(&ident("console")), None);
    assert_eq!(console_method(&string("console.log")), None);
    assert_eq!(console_method(&console("log", vec![])), None);
    let odd = Node::Member(MemberExpr {
        obj: Box::new(ident("console")),
        prop: Box::new(string("log")),
        computed: false,
    });
    assert_eq!(console_method(&odd), None);
}

#[test]
fn injection_gives_the_prefix_for_qualifying_callees_only() {
    let config = Config {
        ignore: vec!["debug".to_owned()],
        prefix_pattern: "[filename]:".to_owned(),
        filename: Some("a.js".to_owned()),
    };
    let visitor = TransformVisitor::new(config);
    assert_eq!(visitor.injection(&member(ident("console"), "log")), Some("a.js:".to_owned()));
    assert_eq!(visitor.injection(&member(ident("console"), "debug")), None);
    assert_eq!(visitor.injection(&member(ident("console"), "table")), None);
    assert_eq!(visitor.injection(&member(ident("other"), "log")), None);
    assert_eq!(visitor.injection(&index(ident("console"), ident("log"))), None);
    assert_eq!(visitor.injection(&ident("log")), None);
    let silent = TransformVisitor::new(Config::default());
    assert_eq!(silent.injection(&member(ident("console"), "log")), None);
}

#[test]
fn applies_to_tells_the_calls_to_rewrite() {
    let config = Config { ignore: vec!["debug".to_owned()], ..Default::default() };
    let visitor = TransformVisitor::new(config);
    assert!(visitor.applies_to(&member(ident("console"), "log")));
    assert!(visitor.applies_to(&member(ident("console"), "anything")));
    assert!(!visitor.applies_to(&member(ident("console"), "debug")));
    assert!(!visitor.applies_to(&member(ident("console"), "table")));
    assert!(!visitor.applies_to(&member(ident("logger"), "log")));
    assert!(!visitor.applies_to(&index(ident("console"), ident("log"))));
    assert!(!visitor.applies_to(&ident("console")));
    assert!(!visitor.applies_to(&console("log", vec![])));
}

#[test]
fn visit_mut_program_rewrites_the_whole_body() {
    let mut visitor = TransformVisitor::new(with_prefix("p:"));
    let mut program = Program {
        body: vec![statement(console("log", vec![])), statement(console("info", vec![ident("x")]))],
    };
    visitor.visit_mut_program(&mut program);
    assert_eq!(
        program,
        Program {
            body: vec![
                statement(console("log", vec![string("p:")])),
                statement(console("info", vec![string("p:"), ident("x")])),
            ],
        }
    );
    visitor.visit_mut_program(&mut program);
    assert_eq!(
        program,
        Program {
            body: vec![
                statement(console("log", vec![string("p:"), string("p:")])),
                statement(console("info", vec![string("p:"), string("p:"), ident("x")])),
            ],
        }
    );
}
