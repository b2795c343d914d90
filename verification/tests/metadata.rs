use rustscript::metadata::{FieldDef, FunctionDef, ParamDef, PluginInfo, PluginMetadata, StructDef, VisitorContext};

fn function(returns: &str) -> FunctionDef {
    FunctionDef {
        description: None,
        params: vec![ParamDef { name: "node".to_string(), param_type: "Expr".to_string() }],
        returns: returns.to_string(),
        uses_string_builder: Some(false),
        babel_specific: None,
        swc_implementation: None,
    }
}

fn sample() -> PluginMetadata {
    PluginMetadata {
        version: "1.0".to_string(),
        plugin: PluginInfo { name: "demo".to_string(), description: "a demo".to_string() },
        structs: vec![(
            "Hook".to_string(),
            StructDef {
                description: Some("a hook".to_string()),
                fields: vec![(
                    "name".to_string(),
                    FieldDef { field_type: "String".to_string(), required: Some(true), default: None },
                )],
            },
        )],
        functions: vec![
            ("getName".to_string(), function("String")),
            ("isHook".to_string(), function("bool")),
        ],
        babel_to_swc_mappings: vec![
            ("path.node".to_string(), "node".to_string()),
            ("t.isIdentifier".to_string(), "matches_ident".to_string()),
        ],
        visitor_context: Some(VisitorContext { needs_parent_tracking: true, parent_types: vec![] }),
        code_generation_hints: None,
    }
}

#[test]
fn function_signature_lookup() {
    let m = sample();
    let f = m.get_function_signature("isHook").unwrap();
    assert_eq!(f.returns, "bool");
    assert_eq!(f.params.len(), 1);
    assert_eq!(f.params[0].name, "node");
    assert!(m.get_function_signature("missing").is_none());
}

#[test]
fn return_type_lookup() {
    let m = sample();
    assert_eq!(m.get_return_type("getName"), Some("String"));
    assert_eq!(m.get_return_type("isHook"), Some("bool"));
    assert_eq!(m.get_return_type("nothing"), None);
}

#[test]
fn babel_pattern_translation() {
    let m = sample();
    assert_eq!(m.translate_babel_pattern("path.node"), Some("node"));
    assert_eq!(m.translate_babel_pattern("t.isIdentifier"), Some("matches_ident"));
    assert_eq!(m.translate_babel_pattern("path"), None);
}

#[test]
fn struct_lookup() {
    let m = sample();
    let s = m.get_struct("Hook").unwrap();
    assert_eq!(s.description.as_deref(), Some("a hook"));
    assert_eq!(s.fields[0].0, "name");
    assert_eq!(s.fields[0].1.required, Some(true));
    assert!(m.get_struct("hook").is_none());
}
