use rustscript::nodes::{
    get_node_mapping, get_node_mapping_by_visitor, node_mappings, rustscript_to_babel, rustscript_to_swc,
};

#[test]
fn test_get_node_mapping() {
    let mapping = get_node_mapping("Identifier").unwrap();
    assert_eq!(mapping.swc, "Ident");
    assert_eq!(mapping.babel, "Identifier");
}

#[test]
fn test_function_declaration_mapping() {
    let mapping = get_node_mapping("FunctionDeclaration").unwrap();
    assert_eq!(mapping.swc, "FnDecl");
    assert_eq!(mapping.swc_visitor, "visit_mut_fn_decl");
}

#[test]
fn mapping_by_visitor_method() {
    let mapping = get_node_mapping_by_visitor("visit_function_declaration").unwrap();
    assert_eq!(mapping.rustscript, "FunctionDeclaration");
    assert_eq!(mapping.swc_enum, Some("Decl::Fn"));
    let program = get_node_mapping("Program").unwrap();
    assert_eq!(program.swc_enum, None);
    assert!(get_node_mapping_by_visitor("visit_nothing").is_none());
}

#[test]
fn names_fall_back_to_input() {
    assert_eq!(rustscript_to_swc("Identifier"), "Ident");
    assert_eq!(rustscript_to_babel("Identifier"), "Identifier");
    assert_eq!(rustscript_to_swc("NotANode"), "NotANode");
    assert_eq!(rustscript_to_babel("NotANode"), "NotANode");
    assert!(get_node_mapping("NotANode").is_none());
}

#[test]
fn table_names_are_distinct() {
    let table = node_mappings();
    assert_eq!(table.len(), 47);
    for i in 0..table.len() {
        for j in (i + 1)..table.len() {
            assert_ne!(table[i].rustscript, table[j].rustscript);
            assert_ne!(table[i].visitor_method, table[j].visitor_method);
        }
        // Every name finds its own entry.
        let found = get_node_mapping(table[i].rustscript).unwrap();
        assert_eq!(found.swc, table[i].swc);
    }
}

#[test]
fn program_maps_to_module() {
    assert_eq!(rustscript_to_swc("Program"), "Module");
    assert_eq!(rustscript_to_swc("MemberExpression"), "MemberExpr");
    assert_eq!(rustscript_to_swc("Foo"), "Foo");
}
