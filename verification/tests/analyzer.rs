use rustscript::analyzer::{visitor_method_names, BabelVisitorDetector, VisitorBodyAnalyzer};
use rustscript::js::{
    JsArg, JsAssign, JsBinaryOp, JsCall, JsCond, JsExpr, JsForHead, JsLit, JsMember, JsMemberProp, JsObjectPatProp,
    JsPat, JsProp, JsPropName, JsTpl, JsUnaryOp, JsVarDeclarator,
};
use rustscript::metadata::{FieldDef, PluginInfo, PluginMetadata, StructDef};
use rustscript::transform::Transform;

fn ident(s: &str) -> JsExpr {
    JsExpr::Ident(s.to_string())
}

fn str_lit(s: &str) -> JsExpr {
    JsExpr::Lit(JsLit::Str(s.to_string()))
}

fn num_lit(s: &str) -> JsExpr {
    JsExpr::Lit(JsLit::Num(s.to_string()))
}

fn member(obj: JsExpr, prop: &str) -> JsMember {
    JsMember { obj: Box::new(obj), prop: JsMemberProp::Ident(prop.to_string()) }
}

fn member_expr(obj: JsExpr, prop: &str) -> JsExpr {
    JsExpr::Member(member(obj, prop))
}

fn path(parts: &[&str]) -> JsExpr {
    let mut e = ident(parts[0]);
    for p in &parts[1..] {
        e = member_expr(e, p);
    }
    e
}

fn arg(e: JsExpr) -> JsArg {
    JsArg { spread: false, expr: e }
}

fn call(callee: JsExpr, args: Vec<JsExpr>) -> JsCall {
    JsCall { callee: Some(Box::new(callee)), args: args.into_iter().map(arg).collect() }
}

fn analyzer() -> VisitorBodyAnalyzer<'static> {
    VisitorBodyAnalyzer::default()
}

fn metadata_with_struct(name: &str, fields: &[&str]) -> PluginMetadata {
    PluginMetadata {
        version: "1".to_string(),
        plugin: PluginInfo { name: "p".to_string(), description: "d".to_string() },
        structs: vec![(
            name.to_string(),
            StructDef {
                description: None,
                fields: fields
                    .iter()
                    .map(|f| (f.to_string(), FieldDef { field_type: "String".to_string(), required: None, default: None }))
                    .collect(),
            },
        )],
        functions: Vec::new(),
        babel_to_swc_mappings: Vec::new(),
        visitor_context: None,
        code_generation_hints: None,
    }
}

#[test]
fn member_path_of_a_chain() {
    let a = analyzer();
    let m = member(path(&["path", "node", "id"]), "name");
    assert_eq!(a.extract_member_path(&m), "path.node.id.name");
}

#[test]
fn member_path_with_computed_index() {
    let a = analyzer();
    let m = JsMember { obj: Box::new(path(&["body", "body"])), prop: JsMemberProp::Computed(Box::new(num_lit("0"))) };
    assert_eq!(a.extract_member_path(&m), "body.body.[0]");
    let m2 = JsMember { obj: Box::new(ident("xs")), prop: JsMemberProp::Computed(Box::new(JsExpr::Other)) };
    assert_eq!(a.extract_member_path(&m2), "xs.[idx]");
}

#[test]
fn expression_text_of_operators_and_literals() {
    let a = analyzer();
    let eq = JsExpr::Bin { op: JsBinaryOp::EqEqEq, left: Box::new(ident("a")), right: Box::new(num_lit("1")) };
    assert_eq!(a.extract_expr_string(&eq), "a == 1");
    let not = JsExpr::Unary { op: JsUnaryOp::Bang, arg: Box::new(path(&["node", "async"])) };
    assert_eq!(a.extract_expr_string(&not), "!node.async");
    assert_eq!(a.extract_expr_string(&str_lit("hi")), "\"hi\"");
    assert_eq!(a.extract_expr_string(&JsExpr::Lit(JsLit::Bool(true))), "true");
    assert_eq!(a.extract_expr_string(&JsExpr::Lit(JsLit::Regex("ab+".to_string()))), "REGEX(ab+)");
    assert_eq!(a.extract_expr_string(&JsExpr::Lit(JsLit::Null)), "expr");
}

#[test]
fn expression_text_of_calls() {
    let a = analyzer();
    let join = JsExpr::Call(call(member_expr(ident("lines"), "join"), vec![str_lit("a\"b\\c")]));
    assert_eq!(a.extract_expr_string(&join), "lines.join(\"a\\\"b\\\\c\")");
    let f = JsExpr::Call(call(ident("f"), vec![ident("x"), num_lit("2")]));
    assert_eq!(a.extract_expr_string(&f), "f(x, 2)");
    let other = JsExpr::Call(JsCall { callee: None, args: Vec::new() });
    assert_eq!(a.extract_expr_string(&other), "call()");
}

#[test]
fn condition_text() {
    let a = analyzer();
    let sum = JsExpr::Bin { op: JsBinaryOp::Add, left: Box::new(ident("a")), right: Box::new(ident("b")) };
    assert_eq!(a.extract_condition_expr(&sum), "a ? b");
    let and = JsExpr::Bin { op: JsBinaryOp::LogicalAnd, left: Box::new(ident("a")), right: Box::new(ident("b")) };
    assert_eq!(a.extract_condition_expr(&and), "a && b");
    assert_eq!(a.extract_condition_expr(&num_lit("1")), "condition");
}

#[test]
fn argument_names_and_values() {
    let a = analyzer();
    assert_eq!(a.extract_arg_name(&path(&["path", "node"])), "path.node");
    assert_eq!(a.extract_arg_name(&num_lit("3")), "expr");
    assert_eq!(a.extract_arg_value(&str_lit("x")), "\"x\"");
    let tpl = JsExpr::Tpl(JsTpl { quasis: vec!["Hello ".to_string(), "!".to_string()], exprs: vec![ident("name")] });
    assert_eq!(a.extract_arg_value(&tpl), "`Hello ${name}!`");
    let c = JsExpr::Call(call(ident("gen"), vec![ident("c"), path(&["a", "b"])]));
    assert_eq!(a.extract_arg_value(&c), "gen(c, a.b)");
    assert_eq!(a.extract_arg_value(&num_lit("1")), "value");
    assert_eq!(a.extract_string_literal(&str_lit("\n")), "\n");
    assert_eq!(a.extract_string_literal(&ident("sep")), ",");
}

#[test]
fn detects_array_push_and_join() {
    let a = analyzer();
    let push = call(member_expr(ident("lines"), "push"), vec![str_lit("x")]);
    match a.detect_function_call(&push) {
        Some(Transform::ArrayPush { array_name, value }) => {
            assert_eq!(array_name, "lines");
            assert_eq!(value, "\"x\"");
        },
        other => panic!("unexpected {:?}", other),
    }
    let spread = JsCall {
        callee: Some(Box::new(member_expr(ident("out"), "push"))),
        args: vec![JsArg { spread: true, expr: JsExpr::Call(call(ident("gen"), vec![ident("c")])) }],
    };
    match a.detect_function_call(&spread) {
        Some(Transform::ArrayPushSpread { array_name, source_array }) => {
            assert_eq!(array_name, "out");
            assert_eq!(source_array, "gen(c)");
        },
        other => panic!("unexpected {:?}", other),
    }
    let join = call(member_expr(path(&["a", "b"]), "join"), vec![]);
    match a.detect_function_call(&join) {
        Some(Transform::ArrayJoin { array_name, separator }) => {
            assert_eq!(array_name, "array");
            assert_eq!(separator, ",");
        },
        other => panic!("unexpected {:?}", other),
    }
    let empty_push = call(member_expr(ident("lines"), "push"), vec![]);
    assert!(a.detect_function_call(&empty_push).is_none());
    let map = call(member_expr(ident("xs"), "map"), vec![ident("f")]);
    assert!(a.detect_function_call(&map).is_none());
}

#[test]
fn detects_plain_function_calls() {
    let a = analyzer();
    let c = call(ident("processComponent"), vec![ident("path"), path(&["state", "file"]), num_lit("1")]);
    match a.detect_function_call(&c) {
        Some(Transform::FunctionCall { name, args }) => {
            assert_eq!(name, "processComponent");
            assert_eq!(args, vec!["path".to_string(), "state.file".to_string(), "expr".to_string()]);
        },
        other => panic!("unexpected {:?}", other),
    }
}

#[test]
fn detects_metadata_assignment() {
    let a = analyzer();
    let assign = JsAssign { target: Some(member(path(&["path", "metadata"]), "foo")) };
    match a.detect_assignment(&assign) {
        Some(Transform::MetadataAssignment { key, value_expr }) => {
            assert_eq!(key, "foo");
            assert_eq!(value_expr, "value");
        },
        other => panic!("unexpected {:?}", other),
    }
    let plain = JsAssign { target: Some(member(ident("x"), "y")) };
    assert!(a.detect_assignment(&plain).is_none());
    assert!(a.detect_assignment(&JsAssign { target: None }).is_none());
}

#[test]
fn logical_chain_parts_become_transforms() {
    let a = analyzer();
    match a.expr_to_transform(&JsExpr::Call(call(ident("f"), vec![]))) {
        Transform::FunctionCall { name, args } => {
            assert_eq!(name, "f");
            assert!(args.is_empty());
        },
        other => panic!("unexpected {:?}", other),
    }
    match a.expr_to_transform(&ident("x")) {
        Transform::RawJs { code, reason } => {
            assert_eq!(code, "x");
            assert_eq!(reason, "Unsupported expression in logical chain");
        },
        other => panic!("unexpected {:?}", other),
    }
}

#[test]
fn hook_names_and_rust_paths() {
    let a = analyzer();
    assert_eq!(a.extract_hook_name(&call(ident("useState"), vec![])), Some("useState".to_string()));
    assert_eq!(a.extract_hook_name(&call(ident("setState"), vec![])), None);
    assert_eq!(a.translate_path_to_rust("path.node.id.name"), "node.ident.sym");
    assert_eq!(a.translate_path_to_rust("x.path.node.params"), "node.params");
    assert_eq!(a.translate_path_to_rust("path.parent.type"), "parent_type");
    assert_eq!(a.translate_path_to_rust("path.node.body"), "node.body");
}

#[test]
fn struct_names_from_names_and_fields() {
    let a = analyzer();
    assert_eq!(a.infer_struct_name("hook_info", &vec![]), "Hook");
    assert_eq!(a.infer_struct_name("JSX_Element", &vec![]), "JsxElement");
    assert_eq!(a.infer_struct_name("widget", &vec!["hook_type: x".to_string()]), "Hook");
    assert_eq!(a.infer_struct_name("widget", &vec!["hooks: h".to_string()]), "Component");
    assert_eq!(a.infer_struct_name("widget", &vec!["has_initializer: true".to_string()]), "Variable");
    assert_eq!(a.infer_struct_name("widget", &vec!["size: 1".to_string()]), "Widget");
}

#[test]
fn struct_names_from_metadata() {
    let meta = metadata_with_struct("PropInfo", &["propName", "kind"]);
    let a = VisitorBodyAnalyzer { transforms: Vec::new(), metadata: Some(&meta) };
    assert_eq!(a.infer_struct_name("x", &vec!["prop_name : a".to_string(), "other: b".to_string()]), "PropInfo");
    assert_eq!(a.infer_struct_name("hook", &vec!["other: b".to_string()]), "Hook");
}

#[test]
fn initial_values() {
    let a = analyzer();
    assert_eq!(a.extract_init_value(&None), "undefined");
    assert_eq!(a.extract_init_value(&Some(Box::new(ident("isAsync")))), "is_async");
    assert_eq!(a.extract_init_value(&Some(Box::new(str_lit("a")))), "\"a\"");
    let c = JsExpr::Call(call(ident("getName"), vec![ident("nodeId"), num_lit("1")]));
    assert_eq!(a.extract_init_value(&Some(Box::new(c))), "get_name(&node_id, &expr)");
    let c0 = JsExpr::Call(call(ident("now"), vec![]));
    assert_eq!(a.extract_init_value(&Some(Box::new(c0))), "now()");
    let push = JsExpr::Call(call(member_expr(ident("xs"), "push"), vec![ident("x")]));
    assert_eq!(a.extract_init_value(&Some(Box::new(push))), "call()");
    let arr = JsExpr::Array(vec![Some(arg(num_lit("1"))), None, Some(arg(ident("b")))]);
    assert_eq!(a.extract_init_value(&Some(Box::new(arr))), "vec![1, b]");
    assert_eq!(a.extract_init_value(&Some(Box::new(JsExpr::Array(vec![])))), "vec![]");
    let bin = JsExpr::Bin { op: JsBinaryOp::Add, left: Box::new(ident("a")), right: Box::new(ident("b")) };
    assert_eq!(a.extract_init_value(&Some(Box::new(bin))), "/* TODO: binary expression */false");
    assert_eq!(
        a.extract_init_value(&Some(Box::new(JsExpr::Other))),
        "/* TODO: unsupported expr type swc_ecma_ast::expr::Expr */Default::default()"
    );
}

#[test]
fn object_literals_become_struct_literals() {
    let a = analyzer();
    let obj = JsExpr::Object(vec![
        JsProp::KeyValue(JsPropName::Ident("hookType".to_string()), str_lit("state")),
        JsProp::KeyValue(JsPropName::Str("varName".to_string()), ident("name")),
        JsProp::Other,
    ]);
    assert_eq!(
        a.extract_init_value_with_context(&Some(Box::new(obj)), "hook"),
        "Hook { hook_type: \"state\", var_name: name }"
    );
    let empty = JsExpr::Object(vec![JsProp::Other]);
    assert_eq!(a.extract_init_value_with_context(&Some(Box::new(empty)), "x"), "Default::default()");
    let typed = JsExpr::Object(vec![JsProp::KeyValue(JsPropName::Ident("type".to_string()), num_lit("1"))]);
    assert_eq!(a.extract_init_value_with_context(&Some(Box::new(typed)), "thing"), "Thing { type_: 1 }");
}

#[test]
fn object_literal_fields_filtered_by_metadata() {
    let meta = metadata_with_struct("Prop", &["name"]);
    let a = VisitorBodyAnalyzer { transforms: Vec::new(), metadata: Some(&meta) };
    let obj = JsExpr::Object(vec![
        JsProp::KeyValue(JsPropName::Ident("name".to_string()), ident("n")),
        JsProp::KeyValue(JsPropName::Ident("extra".to_string()), ident("e")),
    ]);
    assert_eq!(a.extract_init_value_with_context(&Some(Box::new(obj)), "p"), "Prop { name: n }");
    let none_kept = JsExpr::Object(vec![JsProp::KeyValue(JsPropName::Ident("extra".to_string()), ident("e"))]);
    assert_eq!(a.extract_init_value_with_context(&Some(Box::new(none_kept)), "prop"), "Prop::default()");
}

#[test]
fn variable_declarations_become_transforms() {
    let mut a = analyzer();
    let decls = vec![
        JsVarDeclarator { name: JsPat::Ident("count".to_string()), init: Some(Box::new(num_lit("0"))) },
        JsVarDeclarator {
            name: JsPat::Object(vec![
                JsObjectPatProp::KeyValue(JsPropName::Ident("id".to_string()), Box::new(JsPat::Ident("ident".to_string()))),
                JsObjectPatProp::Assign("params".to_string()),
                JsObjectPatProp::Rest,
            ]),
            init: Some(Box::new(path(&["path", "node"]))),
        },
        JsVarDeclarator {
            name: JsPat::Array(vec![Some(JsPat::Ident("value".to_string())), Some(JsPat::Ident("setValue".to_string()))]),
            init: Some(Box::new(JsExpr::Call(call(ident("useState"), vec![num_lit("0")])))),
        },
        JsVarDeclarator { name: JsPat::Other, init: None },
    ];
    a.visit_var_decl(&decls);
    assert_eq!(a.transforms.len(), 5);
    match &a.transforms[0] {
        Transform::VariableDeclaration { name, value, is_destructured } => {
            assert_eq!(name, "count");
            assert_eq!(value, "0");
            assert!(!is_destructured);
        },
        other => panic!("unexpected {:?}", other),
    }
    match &a.transforms[1] {
        Transform::VariableDeclaration { name, value, is_destructured } => {
            assert_eq!(name, "ident");
            assert_eq!(value, "path.node.id");
            assert!(is_destructured);
        },
        other => panic!("unexpected {:?}", other),
    }
    match &a.transforms[2] {
        Transform::VariableDeclaration { name, value, .. } => {
            assert_eq!(name, "params");
            assert_eq!(value, "path.node.params");
        },
        other => panic!("unexpected {:?}", other),
    }
    match &a.transforms[3] {
        Transform::HookCapture { hook_type, state_name, setter_name, args } => {
            assert_eq!(hook_type, "useState");
            assert_eq!(state_name, "value");
            assert_eq!(setter_name.as_deref(), Some("setValue"));
            assert_eq!(args, &vec!["expr".to_string()]);
        },
        other => panic!("unexpected {:?}", other),
    }
    match &a.transforms[4] {
        Transform::RawJs { code, reason } => {
            assert_eq!(code, "let unknown = value;");
            assert_eq!(reason, "Unknown destructuring pattern");
        },
        other => panic!("unexpected {:?}", other),
    }
}

#[test]
fn array_pattern_without_hook_adds_nothing() {
    let mut a = analyzer();
    let decls = vec![JsVarDeclarator {
        name: JsPat::Array(vec![None]),
        init: Some(Box::new(JsExpr::Call(call(ident("useRef"), vec![])))),
    }];
    a.visit_var_decl(&decls);
    match &a.transforms[0] {
        Transform::HookCapture { state_name, setter_name, .. } => {
            assert_eq!(state_name, "state");
            assert!(setter_name.is_none());
        },
        other => panic!("unexpected {:?}", other),
    }
    let plain = vec![JsVarDeclarator {
        name: JsPat::Array(vec![]),
        init: Some(Box::new(JsExpr::Call(call(ident("compute"), vec![])))),
    }];
    a.visit_var_decl(&plain);
    assert_eq!(a.transforms.len(), 1);
}

#[test]
fn statements_become_transforms() {
    let mut a = analyzer();
    a.visit_expr_stmt(&JsExpr::Call(call(member_expr(ident("lines"), "push"), vec![ident("x")])));
    a.visit_expr_stmt(&ident("noop"));
    a.visit_for_of_stmt(
        &JsForHead::VarDecl(vec![JsVarDeclarator { name: JsPat::Ident("c".to_string()), init: None }]),
        &path(&["state", "components"]),
        vec![Transform::ReturnStmt { value: "c".to_string() }],
    );
    a.visit_if_stmt(&ident("ok"), vec![], None);
    a.visit_cond_expr(&JsCond { test: Box::new(ident("a")), cons: Box::new(num_lit("1")), alt: Box::new(num_lit("2")) });
    a.visit_return_stmt(&Some(Box::new(ident("code"))));
    a.visit_return_stmt(&None);
    a.visit_tpl(&JsTpl { quasis: vec!["a".to_string(), "b".to_string()], exprs: vec![path(&["x", "y"])] });
    assert_eq!(a.transforms.len(), 6);
    match &a.transforms[1] {
        Transform::ForOfLoop { iterator, iterable, body_transforms } => {
            assert_eq!(iterator, "c");
            assert_eq!(iterable, "state.components");
            assert_eq!(body_transforms.len(), 1);
        },
        other => panic!("unexpected {:?}", other),
    }
    match &a.transforms[2] {
        Transform::Conditional { condition, then_transforms, else_transforms } => {
            assert_eq!(condition, "ok");
            assert!(then_transforms.is_empty());
            assert!(else_transforms.is_none());
        },
        other => panic!("unexpected {:?}", other),
    }
    match &a.transforms[3] {
        Transform::TernaryExpr { condition, then_expr, else_expr } => {
            assert_eq!((condition.as_str(), then_expr.as_str(), else_expr.as_str()), ("a", "1", "2"));
        },
        other => panic!("unexpected {:?}", other),
    }
    match &a.transforms[5] {
        Transform::TemplateLiteral { parts, exprs } => {
            assert_eq!(parts, &vec!["a".to_string(), "b".to_string()]);
            assert_eq!(exprs, &vec!["x.y".to_string()]);
        },
        other => panic!("unexpected {:?}", other),
    }
}

#[test]
fn for_of_heads_without_names() {
    let mut a = analyzer();
    a.visit_for_of_stmt(&JsForHead::Pat(Box::new(JsPat::Other)), &num_lit("1"), vec![]);
    match &a.transforms[0] {
        Transform::ForOfLoop { iterator, iterable, .. } => {
            assert_eq!(iterator, "item");
            assert_eq!(iterable, "iterable");
        },
        other => panic!("unexpected {:?}", other),
    }
}

#[test]
fn type_checks_on_babel_types() {
    let mut a = analyzer();
    a.visit_call_expr(&call(member_expr(ident("t"), "isIdentifier"), vec![path(&["node", "id"])]));
    a.visit_call_expr(&call(member_expr(ident("u"), "isIdentifier"), vec![]));
    assert_eq!(a.transforms.len(), 1);
    match &a.transforms[0] {
        Transform::TypeCheck { check_type, target, rust_pattern } => {
            assert_eq!(check_type, "isIdentifier");
            assert_eq!(target, "node.id");
            assert_eq!(rust_pattern, "if let Expr::Ident(ident) = node.id");
        },
        other => panic!("unexpected {:?}", other),
    }
}

#[test]
fn require_declarations() {
    let d = BabelVisitorDetector {
        visitor_methods: Vec::new(),
        helper_functions: Vec::new(),
        current_file_path: "a.cjs".to_string(),
        metadata: None,
    };
    let decl = JsVarDeclarator {
        name: JsPat::Object(vec![
            JsObjectPatProp::KeyValue(JsPropName::Ident("generate".to_string()), Box::new(JsPat::Ident("g".to_string()))),
            JsObjectPatProp::Assign("helper".to_string()),
        ]),
        init: Some(Box::new(JsExpr::Call(call(ident("require"), vec![str_lit("../gen.cjs")])))),
    };
    let (path, names) = d.required_module(&decl).unwrap();
    assert_eq!(path, "../gen.cjs");
    assert_eq!(names, vec!["generate".to_string(), "helper".to_string()]);
    let not_require = JsVarDeclarator {
        name: JsPat::Ident("x".to_string()),
        init: Some(Box::new(JsExpr::Call(call(ident("load"), vec![str_lit("p")])))),
    };
    assert!(d.required_module(&not_require).is_none());
}

#[test]
fn helper_functions_and_visitor_methods() {
    let mut d = BabelVisitorDetector {
        visitor_methods: Vec::new(),
        helper_functions: Vec::new(),
        current_file_path: "plugin.cjs".to_string(),
        metadata: None,
    };
    d.visit_fn_decl("exports", &vec![], vec![]);
    d.visit_fn_decl("gen", &vec![JsPat::Ident("c".to_string()), JsPat::Other], vec![]);
    assert_eq!(d.helper_functions.len(), 1);
    assert_eq!(d.helper_functions[0].name, "gen");
    assert_eq!(d.helper_functions[0].params, vec!["c".to_string()]);
    assert_eq!(d.helper_functions[0].source_module, "plugin.cjs");
    let props = vec![JsProp::KeyValue(
        JsPropName::Ident("visitor".to_string()),
        JsExpr::Object(vec![
            JsProp::KeyValue(JsPropName::Ident("FunctionDeclaration".to_string()), JsExpr::Other),
            JsProp::Method(JsPropName::Ident("JSXElement".to_string())),
            JsProp::Method(JsPropName::Other),
        ]),
    )];
    let names = visitor_method_names(&props);
    assert_eq!(names, vec!["FunctionDeclaration".to_string(), "JSXElement".to_string()]);
    d.visit_object_lit(&props, vec![vec![], vec![Transform::ReturnStmt { value: "x".to_string() }]]);
    assert_eq!(d.visitor_methods.len(), 2);
    assert_eq!(d.visitor_methods[1].name, "JSXElement");
    assert_eq!(d.visitor_methods[1].transforms.len(), 1);
}
