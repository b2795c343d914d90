use rustscript::debug_text::{debug_string, debug_transform};
use rustscript::codegen::{decimal_string, generate_helper_function, generate_transform_code, generate_transform_code_smart};
use rustscript::condition::{snake_word, translate_condition};
use rustscript::crate_files::{generate_module_file, generate_rust_visitor_with_transforms, generate_structs_from_metadata};
use rustscript::metadata::{
    CodeGenerationHints, FieldDef, FunctionDef, ParamDef, PluginInfo, PluginMetadata, StructDef,
};
use rustscript::transform::{HelperFunction, Transform};
use rustscript::crate_files::{get_module_name, group_helpers_by_module};
use rustscript::codegen::{helper_generatable, transform_ok_exec};
use rustscript::condition::condition_translatable;
use rustscript::translate::{js_translatable, js_translatable_with_metadata};

fn s(x: &str) -> String {
    x.to_string()
}

fn metadata() -> PluginMetadata {
    PluginMetadata {
        version: s("1"),
        plugin: PluginInfo { name: s("p"), description: s("") },
        structs: vec![(
            s("Hook"),
            StructDef {
                description: Some(s("A hook")),
                fields: vec![
                    (s("stateName"), FieldDef { field_type: s("String"), required: None, default: None }),
                    (s("items"), FieldDef { field_type: s("Vec<String>"), required: None, default: None }),
                    (s("count"), FieldDef { field_type: s("u32"), required: None, default: Some(s("7")) }),
                ],
            },
        )],
        functions: vec![(
            s("getName"),
            FunctionDef {
                description: None,
                params: vec![ParamDef { name: s("hookData"), param_type: s("&Hook") }],
                returns: s("String"),
                uses_string_builder: None,
                babel_specific: None,
                swc_implementation: None,
            },
        )],
        babel_to_swc_mappings: vec![(s("node"), s("n")), (s("t.isFoo(x)"), s("is_foo(x)"))],
        visitor_context: None,
        code_generation_hints: Some(CodeGenerationHints { skip_helper_generation: vec![s("skipMe")] }),
    }
}

#[test]
fn decimal_numbers() {
    assert_eq!(decimal_string(0), "0");
    assert_eq!(decimal_string(7), "7");
    assert_eq!(decimal_string(1204), "1204");
}

#[test]
fn conditions_type_checks() {
    assert_eq!(translate_condition("t.isIdentifier(node)", None), "matches!(node, Expr::Ident(_))");
    let m = metadata();
    assert_eq!(translate_condition("t.isIdentifier(node.callee)", Some(&m)), "matches!(n.callee, Expr::Ident(_))");
    assert_eq!(
        translate_condition("t.isIdentifier(callee, { name: 'useState' })", None),
        "matches!(callee, Expr::Ident(ident) if ident.sym == \"useState\")"
    );
    assert_eq!(translate_condition("t.isWeird(x)", None), "/* TODO: translate isWeird */ true");
    assert_eq!(translate_condition("t.isFoo(x)", Some(&m)), "is_foo(x)");
    assert_eq!(translate_condition("t.isFoo", None), "true");
}

#[test]
fn conditions_rewritten() {
    assert_eq!(translate_condition("path.node.id", None), "path.node.id.is_some()");
    assert_eq!(translate_condition("component.hooks && x > 1", None), "!component.hooks.is_empty() && x > 1");
    assert_eq!(translate_condition("items.length === 0", None), "items.len() == 0");
    assert_eq!(translate_condition("map.[key] !== other", None), "map.get(&key) != other");
    assert_eq!(translate_condition("!name || other", None), "name.is_empty() || other");
    assert_eq!(translate_condition("REGEX(^\\d+$).test(value)", None), "value.chars().all(|c| c.is_numeric())");
    assert_eq!(translate_condition("hookType == stateName", None), "hook_type == state_name");
}

#[test]
fn matched_words() {
    assert_eq!(snake_word("fooBar"), "foo_bar");
    assert_eq!(snake_word("plain"), "plain");
}

#[test]
fn transform_lines() {
    let t = Transform::VariableDeclaration { name: s("myValue"), value: s("path"), is_destructured: false };
    assert_eq!(generate_transform_code(&t, 1, None), "    let my_value = n;\n");
    let t = Transform::FunctionCall { name: s("escapeCSharpString"), args: vec![s("text")] };
    assert_eq!(generate_transform_code(&t, 0, None), "self.escape_c_sharp_string(&text);\n".replace("&text", "text"));
    let t = Transform::FunctionCall { name: s("doWork"), args: vec![s("a"), s("bValue")] };
    assert_eq!(generate_transform_code(&t, 0, None), "do_work(a, b_value);\n");
    let t = Transform::TraverseCall { visitors: vec![s("a"), s("b"), s("c")] };
    assert_eq!(generate_transform_code(&t, 0, None), "// path.traverse() with 3 visitors\n");
    let t = Transform::ReturnStmt { value: s("name") };
    assert_eq!(generate_transform_code(&t, 1, None), "    return name.to_string();\n");
    let t = Transform::ReturnStmt { value: s("lines.join('\\n')") };
    assert_eq!(generate_transform_code(&t, 1, None), "");
    let t = Transform::ArrayPush { array_name: s("lines"), value: s("\"hello\"") };
    assert_eq!(generate_transform_code(&t, 0, None), "code.push_str(\"hello\\n\");\n");
    let t = Transform::ArrayPush { array_name: s("lines"), value: s("`ns ${nameSpace};`") };
    assert_eq!(generate_transform_code(&t, 0, None), "code.push_str(&format!(\"ns {};\\n\", name_space));\n");
    let t = Transform::ArrayJoin { array_name: s("lines"), separator: s("\n") };
    assert_eq!(generate_transform_code(&t, 0, None), "// lines already a String (joined with \"\\n\")\n");
    let t = Transform::TemplateLiteral { parts: vec![s("Hi "), s("!")], exprs: vec![s("userName")] };
    assert_eq!(generate_transform_code(&t, 0, None), "return format!(\"Hi {}!\", user_name);\n");
    let t = Transform::Conditional {
        condition: s("x === 1"),
        then_transforms: vec![Transform::RawJs { code: s("a()"), reason: s("why") }],
        else_transforms: Some(vec![]),
    };
    assert_eq!(generate_transform_code(&t, 0, None), "if x == 1 {\n    // TODO: why - a()\n} else {\n}\n");
    let t = Transform::ForOfLoop {
        iterator: s("h"),
        iterable: s("component.hooks"),
        body_transforms: vec![Transform::ArrayPushSpread { array_name: s("lines"), source_array: s("gen(h)") }],
    };
    assert_eq!(generate_transform_code(&t, 0, None), "for h in &component.hooks {\n    code.push_str(&gen(&h));\n}\n");
}

#[test]
fn transform_lines_in_helpers() {
    let t = Transform::ReturnStmt { value: s("node") };
    assert_eq!(generate_transform_code_smart(&t, 1, "Option<_>", None), "    return Some(node);\n");
    assert_eq!(generate_transform_code_smart(&t, 1, "String", None), "    return node.to_string();\n");
    assert_eq!(generate_transform_code_smart(&t, 1, "&'static str", None), "    return node;\n");
    let t = Transform::ReturnStmt { value: s("expr") };
    assert_eq!(generate_transform_code_smart(&t, 1, "String", None), "");
    let t = Transform::Conditional {
        condition: s("t.isStringLiteral(value)"),
        then_transforms: vec![Transform::ReturnStmt { value: s("value.value") }],
        else_transforms: None,
    };
    assert_eq!(
        generate_transform_code_smart(&t, 1, "&'static str", None),
        "    if let Lit::Str(ref str_lit) = value {\n        return String::from_utf8_lossy(str_lit.value.as_bytes());\n    }\n"
    );
}

#[test]
fn helper_functions() {
    let h = HelperFunction {
        name: s("getLabel"),
        params: vec![s("nodeName")],
        transforms: vec![Transform::ReturnStmt { value: s("nodeName") }],
        source_module: s("helpers.js"),
    };
    assert_eq!(
        generate_helper_function(&h, None),
        "pub fn get_label(node_name: &str) -> &'static str {\n    return node_name;\n}\n"
    );
    let m = metadata();
    let h = HelperFunction {
        name: s("getName"),
        params: vec![s("hookData")],
        transforms: vec![Transform::ReturnStmt { value: s("hookData.name") }],
        source_module: s("helpers.js"),
    };
    assert_eq!(
        generate_helper_function(&h, Some(&m)),
        "pub fn get_name(hook_data: &Hook) -> String {\n    return hook_data.name.to_string();\n}\n"
    );
}

#[test]
fn struct_definitions() {
    let m = metadata();
    let code = generate_structs_from_metadata(&m);
    let expected = "/// A hook\n#[derive(Debug, Clone, Serialize, Deserialize)]\npub struct Hook {\n    pub state_name: String,\n    pub items: Vec<String>,\n    pub count: u32,\n}\n\nimpl Default for Hook {\n    fn default() -> Self {\n        Self {\n            state_name: String::new(),\n            items: vec![],\n            count: 7,\n        }\n    }\n}\n\n";
    assert_eq!(code, expected);
}

#[test]
fn module_files_skip_excluded_helpers() {
    let m = metadata();
    let keep = HelperFunction { name: s("makeIt"), params: vec![], transforms: vec![], source_module: s("a.js") };
    let private = HelperFunction { name: s("_hidden"), params: vec![], transforms: vec![], source_module: s("a.js") };
    let short_is = HelperFunction { name: s("isJSX"), params: vec![], transforms: vec![], source_module: s("a.js") };
    let skipped = HelperFunction { name: s("skipMe"), params: vec![], transforms: vec![], source_module: s("a.js") };
    let helpers = vec![&keep, &private, &short_is, &skipped];
    let code = generate_module_file(&helpers, Some(&m));
    assert_eq!(
        code,
        "// Auto-generated module\n\nuse swc_ecma_ast::*;\nuse swc_common::DUMMY_SP;\nuse crate::{Hook};\n\npub fn make_it() -> &'static str {\n}\n\n"
    );
}

#[test]
fn visitor_impls() {
    let code = generate_rust_visitor_with_transforms("Program", &vec![]);
    assert_eq!(
        code,
        "impl Visit for MyTranspiler {\n    fn visit_module(&mut self, module: &Module) {\n        // No transforms detected in Babel plugin body\n        module.visit_children_with(self);\n    }\n}"
    );
}

#[test]
fn module_names_and_groups() {
    assert_eq!(get_module_name("example/src/generators/csharpFile.cjs"), "csharp_file");
    assert_eq!(get_module_name("helpers.js"), "helpers");
    let h = |name: &str, module: &str| HelperFunction {
        name: s(name),
        params: vec![],
        transforms: vec![],
        source_module: s(module),
    };
    let helpers = vec![h("a", "x/one.js"), h("b", "two.js"), h("a", "one.js"), h("c", "y/one.js")];
    let groups = group_helpers_by_module(&helpers);
    assert_eq!(groups.len(), 2);
    assert_eq!(groups[0].0, "one");
    let names: Vec<&str> = groups[0].1.iter().map(|h| h.name.as_str()).collect();
    assert_eq!(names, vec!["a", "c"]);
    assert_eq!(groups[1].0, "two");
    assert_eq!(groups[1].1.len(), 1);
}

#[test]
fn cargo_toml_names_the_crate() {
    let toml = rustscript::crate_files::generate_cargo_toml();
    assert!(toml.starts_with("[package]\nname = \"swc-generated-plugin\"\n"));
    assert!(toml.ends_with("once_cell = \"1\"\n"));
}

#[test]
fn translatability_checks() {
    assert!(js_translatable("foo(a, b)"));
    assert!(!js_translatable("foo(a)é"));
    assert!(js_translatable_with_metadata("foo(a)é", None) == false);
    assert!(condition_translatable("t.isIdentifier(node)", None));
    assert!(!condition_translatable("t.isX)(", None));
    assert!(!condition_translatable("a).test(REGEX(b", None));
    let t = Transform::ReturnStmt { value: s("f(x)é") };
    assert!(!transform_ok_exec(&t, 0, None));
    let h = HelperFunction { name: s("f"), params: vec![], transforms: vec![t], source_module: s("m.js") };
    assert!(!helper_generatable(&h, None));
}

#[test]
fn logical_chain_shows_its_parts_as_debug_text() {
    let left = Transform::ReturnStmt { value: s("a \"b\"\\\n") };
    let right = Transform::Conditional {
        condition: s("x"),
        then_transforms: vec![Transform::TraverseCall { visitors: vec![s("v"), s("w")] }],
        else_transforms: None,
    };
    let chain = Transform::LogicalChain { operator: s("And"), left: Box::new(left), right: Box::new(right) };
    let code = generate_transform_code(&chain, 0, None);
    let expected = format!(
        "// Logical chain: {:?} && {:?}\n",
        Transform::ReturnStmt { value: s("a \"b\"\\\n") },
        Transform::Conditional {
            condition: s("x"),
            then_transforms: vec![Transform::TraverseCall { visitors: vec![s("v"), s("w")] }],
            else_transforms: None,
        }
    );
    assert_eq!(code, expected);
    assert_eq!(
        code,
        "// Logical chain: ReturnStmt { value: \"a \\\"b\\\"\\\\\\n\" } && Conditional { condition: \"x\", then_transforms: [TraverseCall { visitors: [\"v\", \"w\"] }], else_transforms: None }\n"
    );
}

#[test]
fn debug_text_matches_the_derived_debug() {
    for text in ["plain", "q\"uote", "back\\slash", "tab\tnl\ncr\r", "nul\0bell\u{7}del\u{7f}", "é ü 中 \u{301}x \u{200b}", "it's"] {
        assert_eq!(debug_string(text), format!("{:?}", text));
    }
    let t = Transform::HookCapture {
        hook_type: s("useState"),
        state_name: s("n"),
        setter_name: Some(s("setN")),
        args: vec![s("0")],
    };
    assert_eq!(debug_transform(&t), format!("{:?}", t));
    let v = Transform::VariableDeclaration { name: s("a"), value: s("b"), is_destructured: true };
    assert_eq!(debug_transform(&v), format!("{:?}", v));
    let f = Transform::ForOfLoop { iterator: s("i"), iterable: s("xs"), body_transforms: vec![] };
    assert_eq!(debug_transform(&f), format!("{:?}", f));
}

#[test]
fn constraint_name_quote_is_read_at_the_quote_byte_offset() {
    // The opening quote follows a two-byte character: the character at the
    // quote's byte offset is the one that closes the name.
    assert_eq!(
        translate_condition("t.isIdentifier(node, { name: é'x' })", None),
        "matches!(node, Expr::Ident(ident) if ident.sym == \"\")"
    );
    assert_eq!(
        translate_condition("t.isIdentifier(node, { name: 'useState' })", None),
        "matches!(node, Expr::Ident(ident) if ident.sym == \"useState\")"
    );
}
