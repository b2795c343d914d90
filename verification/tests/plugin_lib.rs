use rustscript::crate_files::generate_structs_from_metadata;
use rustscript::metadata::{FieldDef, PluginInfo, PluginMetadata, StructDef};
use rustscript::plugin_lib::generate_lib_rs;

#[test]
fn plugin_library_without_metadata() {
    let code = generate_lib_rs(&vec![], &vec![], None);
    assert!(code.starts_with("use swc_ecma_ast::*;\nuse swc_ecma_visit::{VisitMut, VisitMutWith};\n"));
    assert!(code.contains("pub mod generators;\n\n// Default structs (no metadata provided)\n#[derive(Debug, Clone, Serialize, Deserialize)]\npub struct Component {"));
    assert!(code.contains("impl VisitMut for ComponentExtractor {\n    fn visit_mut_module(&mut self, module: &mut Module) {"));
    assert!(code.contains("    fn visit_mut_fn_decl(&mut self, node: &mut FnDecl) {"));
    assert!(code.contains("    fn visit_mut_fn_expr(&mut self, node: &mut FnExpr) {"));
    assert!(code.contains("    fn visit_mut_jsx_element(&mut self, node: &mut JSXElement) {"));
    assert!(code.contains("    fn visit_mut_var_declarator(&mut self, node: &mut VarDeclarator) {"));
    assert!(code.ends_with("        node.visit_mut_children_with(self);\n    }\n\n}\n"));
    let fn_decl = code.find("fn visit_mut_fn_decl").unwrap();
    let fn_expr = code.find("fn visit_mut_fn_expr").unwrap();
    let jsx = code.find("fn visit_mut_jsx_element").unwrap();
    let var = code.find("fn visit_mut_var_declarator").unwrap();
    assert!(fn_decl < fn_expr && fn_expr < jsx && jsx < var);
}

#[test]
fn plugin_library_with_metadata_structs() {
    let meta = PluginMetadata {
        version: "1".to_string(),
        plugin: PluginInfo { name: "p".to_string(), description: "d".to_string() },
        structs: vec![(
            "Hook".to_string(),
            StructDef {
                description: None,
                fields: vec![("name".to_string(), FieldDef { field_type: "String".to_string(), required: None, default: None })],
            },
        )],
        functions: Vec::new(),
        babel_to_swc_mappings: Vec::new(),
        visitor_context: None,
        code_generation_hints: None,
    };
    let code = generate_lib_rs(&vec![], &vec![], Some(&meta));
    let expected = format!("pub mod generators;\n\n// Structs from metadata\n{}\n/// Parent context tracking", generate_structs_from_metadata(&meta));
    assert!(code.contains(&expected));
    assert!(!code.contains("Default structs"));
}

#[test]
fn generated_program_runs_the_extractor() {
    let code = rustscript::plugin_lib::generate_main_rs();
    assert!(code.starts_with("use swc_common::{sync::Lrc, FileName, SourceMap};\n"));
    assert!(code.contains("let mut extractor = ComponentExtractor::new();"));
    assert!(code.ends_with("}\n"));
}
