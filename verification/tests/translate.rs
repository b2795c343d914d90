use rustscript::metadata::{PluginInfo, PluginMetadata};
use rustscript::transform::{HelperFunction, Transform};
use rustscript::translate::{
    babel_to_swc_method, convert_identifier, escape_rust_keyword, generate_inferred_params, generate_mod_rs,
    get_node_param, infer_param_type_from_usage, infer_return_type, to_snake_case, translate_js_to_rust,
    translate_js_to_rust_with_metadata, translate_type_check,
};

fn metadata(mappings: Vec<(&str, &str)>) -> PluginMetadata {
    PluginMetadata {
        version: "1".to_string(),
        plugin: PluginInfo { name: "p".to_string(), description: String::new() },
        structs: vec![],
        functions: vec![],
        babel_to_swc_mappings: mappings.into_iter().map(|(a, b)| (a.to_string(), b.to_string())).collect(),
        visitor_context: None,
        code_generation_hints: None,
    }
}

fn helper(name: &str, params: Vec<&str>, transforms: Vec<Transform>) -> HelperFunction {
    HelperFunction {
        name: name.to_string(),
        params: params.into_iter().map(|p| p.to_string()).collect(),
        transforms,
        source_module: "helpers.js".to_string(),
    }
}

#[test]
fn snake_case_names() {
    assert_eq!(to_snake_case("getComponentName"), "get_component_name");
    assert_eq!(to_snake_case("MyType"), "my_type");
    assert_eq!(to_snake_case("value"), "value");
    assert_eq!(to_snake_case("type"), "type_");
    assert_eq!(to_snake_case(""), "");
}

#[test]
fn keywords_are_escaped() {
    assert_eq!(escape_rust_keyword("match"), "match_");
    assert_eq!(escape_rust_keyword("in"), "in_");
    assert_eq!(escape_rust_keyword("input"), "input");
}

#[test]
fn identifiers_follow_metadata_first() {
    let m = metadata(vec![("jsxNode", "node")]);
    assert_eq!(convert_identifier("jsxNode", Some(&m)), "node");
    assert_eq!(convert_identifier("otherNode", Some(&m)), "other_node");
    assert_eq!(convert_identifier("jsxNode", None), "jsx_node");
}

#[test]
fn visitor_names() {
    assert_eq!(babel_to_swc_method("Program"), "visit_module");
    assert_eq!(babel_to_swc_method("JSXElement"), "visit_jsx_element");
    assert_eq!(babel_to_swc_method("Foo"), "visit_unknown");
    assert_eq!(get_node_param("Program"), ("module", "Module"));
    assert_eq!(get_node_param("CallExpression"), ("node", "CallExpr"));
    assert_eq!(get_node_param("Foo"), ("node", "Node"));
}

#[test]
fn type_checks() {
    assert_eq!(translate_type_check("isIdentifier", "expr"), "if let Expr::Ident(ident) = expr");
    assert_eq!(translate_type_check("isVariableDeclarator", "d"), "if let VarDeclarator { .. } = d");
    assert_eq!(translate_type_check("isFoo", "x"), "// TODO: Translate isFoo");
}

#[test]
fn return_types() {
    let h = helper("inferCSharpType", vec![], vec![]);
    assert_eq!(infer_return_type(&h, false, false), "&'static str");
    assert_eq!(infer_return_type(&h, true, false), "Vec<_>");
    let h = helper("convertProps", vec![], vec![]);
    assert_eq!(infer_return_type(&h, false, false), "String");
    let h = helper("escapeText", vec![], vec![]);
    assert_eq!(infer_return_type(&h, false, false), "String");
    let h = helper("getName", vec![], vec![]);
    assert_eq!(infer_return_type(&h, false, true), "String");
    assert_eq!(infer_return_type(&h, false, false), "&'static str");
}

#[test]
fn parameter_types() {
    assert_eq!(infer_param_type_from_usage("components", &vec![]), "&[Component]");
    assert_eq!(infer_param_type_from_usage("component", &vec![]), "&Component");
    assert_eq!(infer_param_type_from_usage("name", &vec![]), "&str");
    let uses = vec![Transform::Conditional {
        condition: "matches!(node, Expr::Ident(_))".to_string(),
        then_transforms: vec![],
        else_transforms: None,
    }];
    assert_eq!(infer_param_type_from_usage("node", &uses), "&Expr");
    let uses = vec![Transform::ReturnStmt { value: "matches!(t, TsType::TsArrayType(_))".to_string() }];
    assert_eq!(infer_param_type_from_usage("t", &uses), "&TsType");
}

#[test]
fn inferred_parameter_lists() {
    let h = helper("gen", vec!["componentList", "hookName"], vec![]);
    assert_eq!(generate_inferred_params(&h), "component_list: &Component, hook_name: &str");
    let h = helper("gen", vec![], vec![]);
    assert_eq!(generate_inferred_params(&h), "");
}

#[test]
fn mod_rs_lists_modules() {
    let names = vec!["a".to_string(), "csharp_file".to_string()];
    assert_eq!(
        generate_mod_rs(&names),
        "// Auto-generated module declarations\n\npub mod a;\npub mod csharp_file;\n"
    );
}

#[test]
fn javascript_expressions() {
    assert_eq!(translate_js_to_rust("path"), "n");
    assert_eq!(translate_js_to_rust("state"), "self");
    assert_eq!(translate_js_to_rust("\"text\""), "\"text\"");
    assert_eq!(translate_js_to_rust("component.hooks.length"), "component.hooks.len()");
    assert_eq!(translate_js_to_rust("generateComponent(component)"), "generate_component(&component)");
    assert_eq!(translate_js_to_rust("makeList()"), "make_list()");
    assert_eq!(translate_js_to_rust("pair(aValue, b)"), "pair(&a_value, &b)");
    assert_eq!(translate_js_to_rust("hook.stateName"), "hook.state_name");
    assert_eq!(translate_js_to_rust("hook.type"), "hook.hook_type");
    assert_eq!(translate_js_to_rust("items.filter(Boolean)"), "items.into_iter().flatten().collect::<Vec<_>>()");
    assert_eq!(translate_js_to_rust("typeMap.[key]"), "typeMap[&key]");
    assert_eq!(translate_js_to_rust("arr.[0]"), "arr[0]");
    assert_eq!(translate_js_to_rust("name.startsWith(x)"), "name.starts_with(x)");
    assert_eq!(translate_js_to_rust("path.node.name"), "node.name");
    assert_eq!(translate_js_to_rust("csharpType"), "csharp_type");
    assert_eq!(translate_js_to_rust("someValue"), "some_value");
    assert_eq!(translate_js_to_rust("a + b"), "a + b");
    assert_eq!(translate_js_to_rust("vec![]"), "vec![]");
    assert_eq!(
        translate_js_to_rust("list.map(expr).filter(Boolean)"),
        "list.iter().filter_map(|item| /* map logic here */).collect::<Vec<_>>()"
    );
}

#[test]
fn javascript_expressions_with_metadata() {
    let m = metadata(vec![("node.value", "n.val"), ("path.node.id", "node.ident")]);
    assert_eq!(translate_js_to_rust_with_metadata("path.node.id", Some(&m)), "node.ident");
    assert_eq!(translate_js_to_rust_with_metadata("node.value.toString()", Some(&m)), "n.val.toString()");
    assert_eq!(translate_js_to_rust_with_metadata("other.thing", Some(&m)), "other.thing");
    assert_eq!(translate_js_to_rust_with_metadata("path", None), "n");
}
