use rustscript::component::{Component, FunctionParam, HelperFunction, Prop, UseRefInfo, UseStateInfo};
use rustscript::hook_extractors;
use rustscript::js::{
    JsArg, JsArrow, JsArrowBody, JsBinaryOp, JsCall, JsCond, JsExpr, JsFnDecl, JsImportDecl, JsLit, JsMember,
    JsMemberProp, JsObjectPatProp, JsParam, JsPat, JsPropName, JsUnaryOp, JsVarDecl, JsVarDeclarator, JsxAttr,
    JsxAttrName, JsxAttrOrSpread, JsxAttrValue, JsxChild, JsxElement, TsKeyword, TsLitKind, TsType, TsTypeElement,
};
use rustscript::minimact::{
    build_member_path, escape_csharp_string, expr_to_csharp, extract_all_bindings, extract_key_from_jsx,
    extract_use_state, generate_csharp_expression, generate_expr_string, generate_hook_class,
    generate_template_string, get_default_value, hex_string, hook_name_to_class_name, infer_csharp_type,
    is_component_name, is_custom_hook_name, is_supported_transform, literal_to_string, ts_type_to_csharp,
    visit_expression_container, visit_helper_fn_decl, visit_hook_expr_stmt, visit_hook_var_declarator,
    visit_jsx_templates, visit_local_var_decl, visit_loop_call_expr, visit_structural_bin_expr,
    visit_structural_cond_expr, HexPathGenerator, HookAnalysis, MinimactTransformer, ParentContext,
};

fn ident(s: &str) -> JsExpr {
    JsExpr::Ident(s.to_string())
}

fn num(s: &str) -> JsExpr {
    JsExpr::Lit(JsLit::Num(s.to_string()))
}

fn str_lit(s: &str) -> JsExpr {
    JsExpr::Lit(JsLit::Str(s.to_string()))
}

fn member(obj: JsExpr, prop: &str) -> JsMember {
    JsMember { obj: Box::new(obj), prop: JsMemberProp::Ident(prop.to_string()) }
}

fn member_expr(obj: JsExpr, prop: &str) -> JsExpr {
    JsExpr::Member(member(obj, prop))
}

fn call(callee: JsExpr, args: Vec<JsExpr>) -> JsCall {
    JsCall {
        callee: Some(Box::new(callee)),
        args: args.into_iter().map(|e| JsArg { spread: false, expr: e }).collect(),
    }
}

fn array_pat(names: &[&str]) -> JsPat {
    JsPat::Array(names.iter().map(|n| Some(JsPat::Ident(n.to_string()))).collect())
}

fn declarator(name: JsPat, init: JsExpr) -> JsVarDeclarator {
    JsVarDeclarator { name, init: Some(Box::new(init)) }
}

fn expr_attr(name: &str, e: JsExpr) -> JsxAttrOrSpread {
    JsxAttrOrSpread::Attr(JsxAttr {
        name: JsxAttrName::Ident(name.to_string()),
        value: Some(JsxAttrValue::ExprContainer(Some(Box::new(e)))),
    })
}

fn element(attrs: Vec<JsxAttrOrSpread>, children: Vec<JsxChild>) -> JsxElement {
    JsxElement { attrs, children }
}

#[test]
fn hex_paths_count_up() {
    let mut g = HexPathGenerator::new();
    let mut keys = Vec::new();
    for _ in 0..17 {
        keys.push(g.next());
    }
    assert_eq!(keys[0], "0");
    assert_eq!(keys[10], "a");
    assert_eq!(keys[15], "f");
    assert_eq!(keys[16], "10");
    assert_eq!(hex_string(255), "ff");
    assert_eq!(hex_string(4096), "1000");
    for i in 0..keys.len() {
        for j in (i + 1)..keys.len() {
            assert_ne!(keys[i], keys[j]);
        }
    }
}

#[test]
fn component_and_hook_names() {
    assert!(is_component_name("Counter"));
    assert!(!is_component_name("counter"));
    assert!(!is_component_name(""));
    assert!(MinimactTransformer::is_component_name("Ärger"));
    assert!(is_custom_hook_name("useCounter"));
    assert!(!is_custom_hook_name("useful"));
    assert!(!is_custom_hook_name("use"));
    assert!(MinimactTransformer::is_custom_hook("useState"));
    assert_eq!(hook_name_to_class_name("useCounter"), "CounterHook");
    assert_eq!(hook_name_to_class_name("fetchData"), "fetchDataHook");
}

#[test]
fn csharp_strings_and_defaults() {
    assert_eq!(escape_csharp_string("a\"b\\c\nd\te\r"), "a\\\"b\\\\c\\nd\\te\\r");
    assert_eq!(get_default_value("List<int>"), "new List<int>()");
    assert_eq!(get_default_value("int"), "0");
    assert_eq!(get_default_value("bool"), "false");
    assert_eq!(get_default_value("string"), "\"\"");
    assert_eq!(get_default_value("object"), "null");
}

#[test]
fn csharp_values_and_types() {
    assert_eq!(infer_csharp_type(&str_lit("x")), "string");
    assert_eq!(infer_csharp_type(&num("1")), "int");
    assert_eq!(infer_csharp_type(&JsExpr::Lit(JsLit::Bool(true))), "bool");
    assert_eq!(infer_csharp_type(&JsExpr::Array(vec![])), "List<dynamic>");
    assert_eq!(infer_csharp_type(&JsExpr::Object(vec![])), "Dictionary<string, dynamic>");
    assert_eq!(infer_csharp_type(&ident("x")), "dynamic");
    assert_eq!(expr_to_csharp(&str_lit("hi")), "\"hi\"");
    assert_eq!(expr_to_csharp(&num("2.5")), "2.5");
    assert_eq!(expr_to_csharp(&JsExpr::Lit(JsLit::Bool(false))), "false");
    assert_eq!(expr_to_csharp(&JsExpr::Lit(JsLit::Null)), "null");
    assert_eq!(expr_to_csharp(&ident("count")), "count");
    assert_eq!(expr_to_csharp(&JsExpr::Array(vec![])), "new List<dynamic>()");
    assert_eq!(expr_to_csharp(&JsExpr::Object(vec![])), "new Dictionary<string, dynamic>()");
    assert_eq!(generate_csharp_expression(None), "null");
    assert_eq!(generate_csharp_expression(Some(&num("3"))), "3");
}

#[test]
fn typescript_types_in_csharp() {
    assert_eq!(ts_type_to_csharp(&TsType::Array(Box::new(TsType::Keyword(TsKeyword::String)))), "List<string>");
    let arr = TsType::TypeRef { name: Some("Array".to_string()), type_params: Some(vec![TsType::Keyword(TsKeyword::Number)]) };
    assert_eq!(ts_type_to_csharp(&arr), "List<int>");
    let bare = TsType::TypeRef { name: Some("Array".to_string()), type_params: None };
    assert_eq!(ts_type_to_csharp(&bare), "List<dynamic>");
    let rec = TsType::TypeRef { name: Some("Record".to_string()), type_params: None };
    assert_eq!(ts_type_to_csharp(&rec), "Dictionary<string, dynamic>");
    let f = TsType::TypeRef { name: Some("Function".to_string()), type_params: None };
    assert_eq!(ts_type_to_csharp(&f), "Action");
    let user = TsType::TypeRef { name: Some("User".to_string()), type_params: None };
    assert_eq!(MinimactTransformer::ts_type_to_csharp(&user), "User");
    assert_eq!(ts_type_to_csharp(&TsType::Keyword(TsKeyword::Null)), "object");
    assert_eq!(ts_type_to_csharp(&TsType::Keyword(TsKeyword::Void)), "void");
    assert_eq!(ts_type_to_csharp(&TsType::Lit(TsLitKind::Bool)), "bool");
    assert_eq!(ts_type_to_csharp(&TsType::FnOrConstructor), "Action");
    assert_eq!(ts_type_to_csharp(&TsType::UnionOrIntersection), "dynamic");
}

#[test]
fn new_component_is_empty() {
    let c = Component::new("Counter".to_string());
    assert_eq!(c.name, "Counter");
    assert!(c.props.is_empty() && c.use_state.is_empty() && c.templates.is_empty());
    assert!(c.render_body.is_none() && c.use_template.is_none());
}

#[test]
fn hooks_in_declarators() {
    let mut c = Component::new("C".to_string());
    let mut stack = vec![ParentContext::Program];
    let state = declarator(array_pat(&["count", "setCount"]), JsExpr::Call(call(ident("useState"), vec![num("0")])));
    visit_hook_var_declarator(&mut c, &mut stack, &state);
    let client = declarator(array_pat(&["open"]), JsExpr::Call(call(ident("useClientState"), vec![])));
    visit_hook_var_declarator(&mut c, &mut stack, &client);
    let r = declarator(JsPat::Ident("inputRef".to_string()), JsExpr::Call(call(ident("useRef"), vec![JsExpr::Lit(JsLit::Null)])));
    visit_hook_var_declarator(&mut c, &mut stack, &r);
    let md = declarator(array_pat(&["text", "setText"]), JsExpr::Call(call(ident("useMarkdown"), vec![str_lit("# hi")])));
    visit_hook_var_declarator(&mut c, &mut stack, &md);
    let other = declarator(JsPat::Ident("t".to_string()), JsExpr::Call(call(ident("useToggle"), vec![])));
    visit_hook_var_declarator(&mut c, &mut stack, &other);
    assert_eq!(stack.len(), 1);
    assert_eq!(c.use_state.len(), 1);
    assert_eq!(c.use_state[0].var_name, "count");
    assert_eq!(c.use_state[0].setter_name.as_deref(), Some("setCount"));
    assert_eq!(c.use_state[0].initial_value, "0");
    assert_eq!(c.use_state[0].state_type, "dynamic");
    assert!(!c.use_state[0].is_client_state);
    assert_eq!(c.use_client_state.len(), 1);
    assert_eq!(c.use_client_state[0].setter_name.as_deref(), Some(""));
    assert_eq!(c.use_client_state[0].initial_value, "null");
    assert!(c.use_client_state[0].is_client_state);
    assert_eq!(c.use_ref.len(), 1);
    assert_eq!(c.use_ref[0].name, "inputRef");
    assert_eq!(c.use_ref[0].initial_value, "null");
    assert_eq!(c.use_markdown.len(), 1);
    assert_eq!(c.use_markdown[0].initial_value, "\"# hi\"");
    assert!(c.custom_hooks.is_empty());
}

#[test]
fn effects_in_statements() {
    let mut c = Component::new("C".to_string());
    let deps = JsExpr::Array(vec![
        Some(JsArg { spread: false, expr: ident("a") }),
        None,
        Some(JsArg { spread: false, expr: num("1") }),
        Some(JsArg { spread: false, expr: ident("b") }),
    ]);
    visit_hook_expr_stmt(&mut c, &JsExpr::Call(call(ident("useEffect"), vec![JsExpr::Other, deps])));
    visit_hook_expr_stmt(&mut c, &JsExpr::Call(call(ident("useEffect"), vec![JsExpr::Other])));
    visit_hook_expr_stmt(&mut c, &JsExpr::Call(call(ident("log"), vec![])));
    assert_eq!(c.use_effect.len(), 2);
    assert_eq!(c.use_effect[0].dependencies, vec!["a".to_string(), "b".to_string()]);
    assert!(c.use_effect[1].dependencies.is_empty());
}

#[test]
fn typed_state_hooks() {
    let mut c = Component::new("C".to_string());
    extract_use_state(&call(ident("useState"), vec![str_lit("x")]), &array_pat(&["name", "setName"]), &mut c, "useState");
    extract_use_state(&call(ident("useClientState"), vec![]), &array_pat(&["open"]), &mut c, "useClientState");
    extract_use_state(&call(ident("useState"), vec![]), &JsPat::Array(vec![None]), &mut c, "useState");
    assert_eq!(c.use_state.len(), 1);
    assert_eq!(c.use_state[0].state_type, "string");
    assert_eq!(c.use_state[0].initial_value, "\"x\"");
    assert_eq!(c.use_client_state.len(), 1);
    assert_eq!(c.use_client_state[0].setter_name, None);
    assert_eq!(c.use_client_state[0].state_type, "dynamic");
    assert!(c.use_client_state[0].is_client_state);
}

#[test]
fn local_variables_skip_hooks() {
    let mut c = Component::new("C".to_string());
    let decl = JsVarDecl {
        is_const: true,
        decls: vec![
            declarator(JsPat::Ident("x".to_string()), num("5")),
            declarator(JsPat::Ident("s".to_string()), JsExpr::Call(call(ident("useState"), vec![]))),
            JsVarDeclarator { name: JsPat::Ident("y".to_string()), init: None },
            declarator(array_pat(&["p"]), num("1")),
        ],
    };
    visit_local_var_decl(&mut c, &decl);
    assert_eq!(c.local_variables.len(), 2);
    assert_eq!(c.local_variables[0].name, "x");
    assert_eq!(c.local_variables[0].initial_value, "5");
    assert_eq!(c.local_variables[0].var_type, "dynamic");
    assert!(c.local_variables[0].is_const);
    assert_eq!(c.local_variables[1].initial_value, "null");
}

#[test]
fn helper_functions_of_a_component() {
    let mut c = Component::new("C".to_string());
    let f = JsFnDecl {
        name: "handleClick".to_string(),
        params: vec![JsParam { pat: JsPat::Ident("e".to_string()), type_ann: None }, JsParam { pat: JsPat::Other, type_ann: None }],
        is_async: true,
    };
    visit_helper_fn_decl(&mut c, &f);
    let hook = JsFnDecl { name: "useThing".to_string(), params: vec![], is_async: false };
    visit_helper_fn_decl(&mut c, &hook);
    assert_eq!(c.helper_functions.len(), 1);
    let h = &c.helper_functions[0];
    assert_eq!(h.name, "handleClick");
    assert_eq!(h.return_type, "void");
    assert!(h.is_async);
    assert_eq!(h.params[0].name, "e");
    assert_eq!(h.params[1].name, "param");
    assert_eq!(h.params[1].param_type, "dynamic");
}

#[test]
fn props_with_typescript_annotations() {
    let mut t = MinimactTransformer::new("App.tsx".to_string());
    let mut c = Component::new("App".to_string());
    let ann = TsType::TypeLit(vec![
        TsTypeElement::PropertySignature { key: Some("name".to_string()), type_ann: Some(TsType::Keyword(TsKeyword::String)) },
        TsTypeElement::PropertySignature { key: Some("count".to_string()), type_ann: Some(TsType::Keyword(TsKeyword::Number)) },
        TsTypeElement::PropertySignature { key: Some("count".to_string()), type_ann: Some(TsType::Keyword(TsKeyword::Boolean)) },
        TsTypeElement::PropertySignature { key: Some("extra".to_string()), type_ann: None },
    ]);
    let params = vec![JsParam {
        pat: JsPat::Object(vec![
            JsObjectPatProp::KeyValue(JsPropName::Ident("name".to_string()), Box::new(JsPat::Ident("n".to_string()))),
            JsObjectPatProp::Assign("count".to_string()),
            JsObjectPatProp::Assign("missing".to_string()),
            JsObjectPatProp::Rest,
        ]),
        type_ann: Some(ann),
    }];
    t.extract_props(&params, &mut c);
    let got: Vec<(String, String)> = c.props.iter().map(|p: &Prop| (p.name.clone(), p.prop_type.clone())).collect();
    assert_eq!(
        got,
        vec![
            ("name".to_string(), "string".to_string()),
            ("count".to_string(), "bool".to_string()),
            ("missing".to_string(), "dynamic".to_string()),
        ]
    );
    let mut c2 = Component::new("B".to_string());
    t.extract_props(&vec![JsParam { pat: JsPat::Ident("props".to_string()), type_ann: None }], &mut c2);
    assert_eq!(c2.props[0].name, "props");
    assert_eq!(c2.props[0].prop_type, "dynamic");
    let mut c3 = Component::new("D".to_string());
    t.extract_arrow_props(&vec![JsPat::Object(vec![JsObjectPatProp::Assign("title".to_string())])], &mut c3);
    assert_eq!(c3.props[0].name, "title");
    assert_eq!(c3.props[0].prop_type, "dynamic");
}

#[test]
fn external_imports_form_a_set() {
    let mut t = MinimactTransformer::new("App.tsx".to_string());
    assert_eq!(t.parent_stack.len(), 1);
    t.process_import(&JsImportDecl { src: "react".to_string(), locals: vec!["useMemo".to_string(), "React".to_string()] });
    t.process_import(&JsImportDecl { src: "lodash".to_string(), locals: vec!["React".to_string(), "_".to_string()] });
    t.process_import(&JsImportDecl { src: "./local".to_string(), locals: vec!["x".to_string()] });
    t.process_import(&JsImportDecl { src: "minimact-core".to_string(), locals: vec!["y".to_string()] });
    t.process_import(&JsImportDecl { src: "theme.css".to_string(), locals: vec!["z".to_string()] });
    assert_eq!(t.external_imports, vec!["useMemo".to_string(), "React".to_string(), "_".to_string()]);
    t.push_parent(ParentContext::BlockStatement);
    assert!(matches!(t.get_parent(), Some(ParentContext::BlockStatement)));
    t.pop_parent();
    assert!(matches!(t.get_parent(), Some(ParentContext::Program)));
}

#[test]
fn bindings_and_template_text() {
    let path = member(member_expr(ident("user"), "profile"), "name");
    assert_eq!(build_member_path(&path), "user.profile.name");
    let computed = member(
        JsExpr::Member(JsMember { obj: Box::new(ident("items")), prop: JsMemberProp::Computed(Box::new(num("0"))) }),
        "name",
    );
    assert_eq!(build_member_path(&computed), "items.name");
    let sum = JsExpr::Bin { op: JsBinaryOp::Add, left: Box::new(ident("a")), right: Box::new(member_expr(ident("b"), "c")) };
    assert_eq!(extract_all_bindings(&sum), vec!["a".to_string(), "b.c".to_string()]);
    let plus_one = JsExpr::Bin { op: JsBinaryOp::Add, left: Box::new(ident("count")), right: Box::new(num("1")) };
    assert_eq!(generate_template_string(&plus_one), "${{count}} + ?");
    let not = JsExpr::Unary { op: JsUnaryOp::Bang, arg: Box::new(ident("done")) };
    assert_eq!(generate_expr_string(&not), "!done");
    let tof = JsExpr::Unary { op: JsUnaryOp::TypeOf, arg: Box::new(ident("x")) };
    assert_eq!(generate_expr_string(&tof), "typeofx");
    let strict = JsExpr::Bin { op: JsBinaryOp::EqEqEq, left: Box::new(ident("a")), right: Box::new(ident("b")) };
    assert_eq!(generate_expr_string(&strict), "a === b");
    assert!(is_supported_transform("toFixed"));
    assert!(!is_supported_transform("map"));
    assert_eq!(literal_to_string(&num("2")), Some("2".to_string()));
    assert_eq!(literal_to_string(&ident("x")), None);
}

#[test]
fn text_and_attribute_templates() {
    let mut c = Component::new("C".to_string());
    let mut path: Vec<usize> = Vec::new();
    let jsx = element(
        vec![expr_attr("title", member_expr(ident("user"), "name")), expr_attr("onClick", num("1"))],
        vec![
            JsxChild::Element(Box::new(element(vec![], vec![JsxChild::ExprContainer(Some(Box::new(ident("count"))))]))),
            JsxChild::Text("  ".to_string()),
            JsxChild::ExprContainer(Some(Box::new(ident("label")))),
            JsxChild::ExprContainer(Some(Box::new(ident("label")))),
        ],
    );
    visit_jsx_templates(&mut c, &mut path, &jsx);
    assert!(path.is_empty());
    let keys: Vec<&str> = c.templates.iter().map(|(k, _)| k.as_str()).collect();
    assert_eq!(keys, vec!["@title", "0.0", "2", "3"]);
    assert_eq!(c.templates[0].1.path, "");
    assert_eq!(c.templates[0].1.template, "${{user.name}}");
    assert_eq!(c.templates[0].1.bindings, vec!["user.name".to_string()]);
    assert_eq!(c.templates[1].1.path, "0.0");
    assert_eq!(c.templates[1].1.template, "${{count}}");
}

#[test]
fn repeated_template_keys_are_replaced() {
    let mut c = Component::new("C".to_string());
    let mut path: Vec<usize> = vec![1];
    let jsx = element(vec![expr_attr("a", ident("x")), expr_attr("a", ident("y"))], vec![]);
    visit_jsx_templates(&mut c, &mut path, &jsx);
    assert_eq!(c.templates.len(), 1);
    assert_eq!(c.templates[0].0, "1@a");
    assert_eq!(c.templates[0].1.template, "${{y}}");
}

#[test]
fn loop_templates_of_map_calls() {
    let mut c = Component::new("C".to_string());
    let li = element(vec![expr_attr("key", member_expr(ident("item"), "id"))], vec![]);
    let arrow = JsExpr::Arrow(JsArrow {
        params: vec![JsPat::Ident("item".to_string()), JsPat::Ident("i".to_string())],
        body: JsArrowBody::Expr(Box::new(JsExpr::JsxElement(Box::new(li)))),
    });
    visit_loop_call_expr(&mut c, &call(member_expr(member_expr(ident("state"), "items"), "map"), vec![arrow]));
    let block = JsExpr::Arrow(JsArrow { params: vec![JsPat::Other], body: JsArrowBody::Block });
    visit_loop_call_expr(&mut c, &call(member_expr(ident("todos"), "map"), vec![block]));
    visit_loop_call_expr(&mut c, &call(member_expr(ident("todos"), "filter"), vec![]));
    assert_eq!(c.loop_templates.len(), 2);
    assert_eq!(c.loop_templates[0].state_key, "state.items");
    assert_eq!(c.loop_templates[0].item_var, "item");
    assert_eq!(c.loop_templates[0].index_var.as_deref(), Some("i"));
    assert_eq!(c.loop_templates[0].key_expression, "item.id");
    assert_eq!(c.loop_templates[1].item_var, "item");
    assert_eq!(c.loop_templates[1].index_var, None);
    assert_eq!(c.loop_templates[1].key_expression, "");
    let body = JsArrowBody::Expr(Box::new(JsExpr::JsxElement(Box::new(element(vec![], vec![])))));
    assert_eq!(extract_key_from_jsx(&body), None);
}

#[test]
fn structural_templates() {
    let mut c = Component::new("C".to_string());
    let jsx = || JsExpr::JsxElement(Box::new(element(vec![], vec![])));
    visit_structural_cond_expr(&mut c, &JsCond { test: Box::new(ident("open")), cons: Box::new(jsx()), alt: Box::new(JsExpr::Lit(JsLit::Null)) });
    visit_structural_cond_expr(&mut c, &JsCond { test: Box::new(ident("a")), cons: Box::new(num("1")), alt: Box::new(num("2")) });
    let test = JsExpr::Unary { op: JsUnaryOp::Bang, arg: Box::new(ident("loading")) };
    visit_structural_bin_expr(&mut c, JsBinaryOp::LogicalAnd, &test, &jsx());
    visit_structural_bin_expr(&mut c, JsBinaryOp::LogicalOr, &ident("x"), &jsx());
    assert_eq!(c.structural_templates.len(), 2);
    assert_eq!(c.structural_templates[0].template_type, "conditional");
    assert_eq!(c.structural_templates[0].condition_binding, "open");
    assert_eq!(c.structural_templates[1].template_type, "logical");
    assert_eq!(c.structural_templates[1].condition_binding, "!loading");
}

#[test]
fn expression_templates() {
    let mut c = Component::new("C".to_string());
    let fixed = JsExpr::Call(call(member_expr(ident("price"), "toFixed"), vec![num("2"), ident("x")]));
    visit_expression_container(&mut c, &Some(Box::new(fixed)));
    let times = JsExpr::Bin { op: JsBinaryOp::Mul, left: Box::new(member_expr(ident("cart"), "total")), right: Box::new(ident("rate")) };
    visit_expression_container(&mut c, &Some(Box::new(times)));
    let neg = JsExpr::Unary { op: JsUnaryOp::Minus, arg: Box::new(ident("count")) };
    visit_expression_container(&mut c, &Some(Box::new(neg)));
    visit_expression_container(&mut c, &Some(Box::new(member_expr(ident("items"), "length"))));
    visit_expression_container(&mut c, &Some(Box::new(member_expr(ident("items"), "first"))));
    visit_expression_container(&mut c, &None);
    assert_eq!(c.expression_templates.len(), 4);
    let m = &c.expression_templates[0];
    assert_eq!((m.template_type.as_str(), m.state_key.as_str(), m.binding.as_str()), ("methodCall", "price", "price"));
    assert_eq!(m.method.as_deref(), Some("toFixed"));
    assert_eq!(m.args, vec!["2".to_string()]);
    let b = &c.expression_templates[1];
    assert_eq!((b.template_type.as_str(), b.state_key.as_str(), b.binding.as_str()), ("binaryExpression", "cart", "cart.total, rate"));
    let u = &c.expression_templates[2];
    assert_eq!(u.template_type, "unaryExpression");
    assert_eq!(u.args, vec!["-".to_string()]);
    let p = &c.expression_templates[3];
    assert_eq!((p.template_type.as_str(), p.state_key.as_str(), p.binding.as_str()), ("memberExpression", "items", "items.length"));
    assert_eq!(p.method.as_deref(), Some("length"));
}

#[test]
fn csharp_class_for_a_component() {
    let t = MinimactTransformer::new(String::new());
    let mut c = Component::new("Counter".to_string());
    c.props.push(Prop { name: "title".to_string(), prop_type: "string".to_string() });
    c.use_state.push(UseStateInfo {
        var_name: "count".to_string(),
        setter_name: Some("setCount".to_string()),
        initial_value: "0".to_string(),
        state_type: "int".to_string(),
        is_client_state: false,
    });
    c.use_ref.push(UseRefInfo { name: "box".to_string(), initial_value: "null".to_string() });
    c.helper_functions.push(HelperFunction {
        name: "inc".to_string(),
        params: vec![FunctionParam { name: "by".to_string(), param_type: "int".to_string() }],
        return_type: "void".to_string(),
        is_async: true,
    });
    let expected = [
        "using System;\n",
        "using System.Collections.Generic;\n",
        "using Minimact;\n\n",
        "public class Counter : MinimactComponent\n{\n",
        "    public string title { get; set; }\n",
        "    private int _count;\n",
        "    public int count { get => _count; set { _count = value; StateHasChanged(); } }\n\n",
        "    public dynamic box { get; set; } = null;\n",
        "\n    public Counter()\n    {\n",
        "        _count = 0;\n",
        "    }\n",
        "\n    public async voidinc(int by)\n    {\n        // TODO: Implement\n    }\n",
        "\n    public override void Render()\n    {\n",
        "        // JSX rendering handled by runtime\n",
        "    }\n",
        "}\n",
    ]
    .concat();
    assert_eq!(t.generate_csharp_code(&c), expected);
}

#[test]
fn hook_classes() {
    let a = HookAnalysis {
        class_name: "CounterHook".to_string(),
        states: vec![],
        methods: vec![],
        event_handlers: vec![],
        return_values: vec![],
        jsx_elements: None,
    };
    let g = generate_hook_class(&a, &Component::new("C".to_string()));
    assert_eq!(g.name, "CounterHook");
    assert!(g.code.is_empty());
}

#[test]
fn hooks_named_by_their_declarator() {
    let mut t = MinimactTransformer::new(String::new());
    let mut c = Component::new("C".to_string());
    let r = call(ident("useRef"), vec![num("0")]);
    hook_extractors::extract_use_ref(&r, &mut c, &t);
    assert!(c.use_ref.is_empty());
    t.push_parent(ParentContext::VarDeclarator("inputRef".to_string()));
    hook_extractors::extract_use_ref(&r, &mut c, &t);
    hook_extractors::extract_custom_hook(&call(ident("useCounter"), vec![]), &mut c, "useCounter", &t);
    hook_extractors::extract_use_state(&call(ident("useState"), vec![]), &mut c, &t);
    let deps = JsExpr::Array(vec![Some(JsArg { spread: false, expr: ident("x") })]);
    hook_extractors::extract_use_effect(&call(ident("useEffect"), vec![JsExpr::Other, deps]), &mut c, &t);
    assert_eq!(c.use_ref.len(), 1);
    assert_eq!(c.use_ref[0].name, "inputRef");
    assert_eq!(c.use_ref[0].initial_value, "0");
    assert_eq!(c.custom_hooks[0].instance_name, "inputRef");
    assert_eq!(c.custom_hooks[0].class_name, "CounterHook");
    assert!(c.use_state.is_empty());
    assert_eq!(c.use_effect[0].dependencies, vec!["x".to_string()]);
}

#[test]
fn element_keys_in_a_rendered_tree() {
    let span = element(vec![], vec![]);
    let a = JsExpr::JsxElement(Box::new(element(vec![], vec![])));
    let b = JsExpr::JsxElement(Box::new(element(vec![expr_attr("key", ident("k"))], vec![])));
    let cond = JsExpr::Cond(JsCond { test: Box::new(ident("ok")), cons: Box::new(a), alt: Box::new(b) });
    let div = element(
        vec![],
        vec![JsxChild::Element(Box::new(span)), JsxChild::ExprContainer(Some(Box::new(JsExpr::Paren(Box::new(cond)))))],
    );
    let mut tree = JsExpr::JsxElement(Box::new(div));
    let mut g = HexPathGenerator::new();
    MinimactTransformer::assign_hex_paths_to_jsx(&mut tree, &mut g);
    assert_eq!(g.next(), "4");
    let key_attr = |attrs: &Vec<JsxAttrOrSpread>| -> Option<(String, String)> {
        match attrs.last() {
            Some(JsxAttrOrSpread::Attr(JsxAttr { name: JsxAttrName::Ident(n), value: Some(JsxAttrValue::Str(v)) })) => {
                Some((n.clone(), v.clone()))
            },
            _ => None,
        }
    };
    match &tree {
        JsExpr::JsxElement(div) => {
            assert_eq!(key_attr(&div.attrs), Some(("data-minimact-key".to_string(), "0".to_string())));
            match &div.children[0] {
                JsxChild::Element(span) => {
                    assert_eq!(key_attr(&span.attrs), Some(("data-minimact-key".to_string(), "1".to_string())))
                },
                _ => panic!("span expected"),
            }
            match &div.children[1] {
                JsxChild::ExprContainer(Some(e)) => match &**e {
                    JsExpr::Paren(inner) => match &**inner {
                        JsExpr::Cond(c) => {
                            match &*c.cons {
                                JsExpr::JsxElement(a) => assert_eq!(key_attr(&a.attrs), Some(("data-minimact-key".to_string(), "2".to_string()))),
                                _ => panic!("element expected"),
                            }
                            match &*c.alt {
                                JsExpr::JsxElement(b) => assert_eq!(b.attrs.len(), 1),
                                _ => panic!("element expected"),
                            }
                        },
                        _ => panic!("conditional expected"),
                    },
                    _ => panic!("parentheses expected"),
                },
                _ => panic!("expression expected"),
            }
        },
        _ => panic!("element expected"),
    }
}
