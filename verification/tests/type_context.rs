use rustscript::type_context::{
    classify_swc_type, get_swc_variant, get_typed_field_mapping, map_rustscript_to_swc, SwcTypeKind,
    TypeContext, TypeEnvironment,
};

#[test]
fn test_type_environment_shadowing() {
    let mut env = TypeEnvironment::new();

    // Define outer variable
    env.define("current", TypeContext::from_rustscript("Expr"));
    assert_eq!(env.lookup("current").unwrap().swc_type, "Expr");

    // Push scope and shadow with narrowed type
    env.push_scope();
    env.define("current", TypeContext::narrowed("MemberExpression", "MemberExpr"));
    assert_eq!(env.lookup("current").unwrap().swc_type, "MemberExpr");

    // Pop scope, should see outer type again
    env.pop_scope();
    assert_eq!(env.lookup("current").unwrap().swc_type, "Expr");
}

#[test]
fn test_swc_variant_mapping() {
    let (enum_name, variant, struct_name) = get_swc_variant("MemberExpression");
    assert_eq!(enum_name, "Expr");
    assert_eq!(variant, "Member");
    assert_eq!(struct_name, "MemberExpr");
}

#[test]
fn test_classify_swc_type() {
    assert!(matches!(classify_swc_type("Expr"), SwcTypeKind::Enum));
    assert!(matches!(classify_swc_type("MemberExpr"), SwcTypeKind::Struct));
    assert!(matches!(classify_swc_type("MemberProp"), SwcTypeKind::WrapperEnum));
    assert!(matches!(classify_swc_type("JsWord"), SwcTypeKind::Atom));
}

#[test]
fn classify_nested_wrappers() {
    match classify_swc_type("Box<Expr>") {
        SwcTypeKind::Boxed(inner) => assert!(matches!(*inner, SwcTypeKind::Enum)),
        other => panic!("unexpected {:?}", other),
    }
    match classify_swc_type("Option<Box<Ident>>") {
        SwcTypeKind::Optional(inner) => match *inner {
            SwcTypeKind::Boxed(inner2) => assert!(matches!(*inner2, SwcTypeKind::Struct)),
            other => panic!("unexpected {:?}", other),
        },
        other => panic!("unexpected {:?}", other),
    }
    assert!(matches!(classify_swc_type("usize"), SwcTypeKind::Primitive));
    assert!(matches!(classify_swc_type("Whatever"), SwcTypeKind::Unknown));
}

#[test]
fn map_known_and_unknown_names() {
    let (swc, kind) = map_rustscript_to_swc("Expression");
    assert_eq!(swc, "Expr");
    assert!(matches!(kind, SwcTypeKind::Enum));
    let (swc, kind) = map_rustscript_to_swc("Str");
    assert_eq!(swc, "String");
    assert!(matches!(kind, SwcTypeKind::Primitive));
    let (swc, kind) = map_rustscript_to_swc("Callee");
    assert_eq!(swc, "Callee");
    assert!(matches!(kind, SwcTypeKind::WrapperEnum));
    let (swc, kind) = map_rustscript_to_swc("MyThing");
    assert_eq!(swc, "MyThing");
    assert!(matches!(kind, SwcTypeKind::Unknown));
}

#[test]
fn unknown_variant_keeps_name() {
    let (enum_name, variant, struct_name) = get_swc_variant("Foo");
    assert_eq!(enum_name, "Unknown");
    assert_eq!(variant, "Foo");
    assert_eq!(struct_name, "Foo");
    let (enum_name, variant, struct_name) = get_swc_variant("NumericLiteral");
    assert_eq!(enum_name, "Lit");
    assert_eq!(variant, "Num");
    assert_eq!(struct_name, "Number");
}

#[test]
fn context_constructors_and_flags() {
    let unknown = TypeContext::unknown();
    assert_eq!(unknown.rustscript_type, "Unknown");
    assert_eq!(unknown.swc_type, "Unknown");
    assert!(matches!(unknown.kind, SwcTypeKind::Unknown));
    assert!(!unknown.is_boxed());
    assert!(!unknown.needs_unwrap());

    let expr = TypeContext::from_rustscript("Expr");
    assert_eq!(expr.rustscript_type, "Expr");
    assert!(expr.needs_unwrap());

    let member = TypeContext::narrowed("MemberExpression", "MemberExpr");
    assert!(matches!(member.kind, SwcTypeKind::Struct));
    assert!(!member.needs_unwrap());
}

#[test]
fn unboxed_strips_box_and_marks_deref() {
    let boxed = TypeContext {
        rustscript_type: "Expr".to_string(),
        swc_type: "Box<Expr>".to_string(),
        kind: SwcTypeKind::Boxed(Box::new(SwcTypeKind::Enum)),
        known_variant: Some("Member".to_string()),
        needs_deref: false,
    };
    assert!(boxed.is_boxed());
    let inner = boxed.unboxed();
    assert_eq!(inner.swc_type, "Expr");
    assert!(matches!(inner.kind, SwcTypeKind::Enum));
    assert!(inner.needs_deref);
    assert!(inner.is_boxed());
    assert_eq!(inner.known_variant, Some("Member".to_string()));
    assert!(!inner.needs_unwrap());

    let plain = TypeContext::narrowed("Identifier", "Ident");
    let same = plain.unboxed();
    assert_eq!(same.swc_type, "Ident");
    assert!(!same.needs_deref);
}

#[test]
fn scopes_and_current_scope() {
    let mut env = TypeEnvironment::new();
    assert!(env.lookup("x").is_none());
    env.define("x", TypeContext::from_rustscript("Identifier"));
    assert!(env.is_defined_in_current_scope("x"));
    env.push_scope();
    assert!(!env.is_defined_in_current_scope("x"));
    assert_eq!(env.lookup("x").unwrap().swc_type, "Ident");
    env.define("y", TypeContext::unknown());
    assert!(env.is_defined_in_current_scope("y"));
    env.pop_scope();
    assert!(env.lookup("y").is_none());
    // The global scope is never popped.
    env.pop_scope();
    assert_eq!(env.lookup("x").unwrap().swc_type, "Ident");
    // Redefinition in the same scope replaces the binding.
    env.define("x", TypeContext::from_rustscript("Expr"));
    assert_eq!(env.lookup("x").unwrap().swc_type, "Expr");
    let default_env = TypeEnvironment::default();
    assert!(default_env.lookup("x").is_none());
}

#[test]
fn typed_field_mappings() {
    let m = get_typed_field_mapping("MemberExpr", "object").unwrap();
    assert_eq!(m.swc_field, "obj");
    assert!(m.needs_deref);
    let m = get_typed_field_mapping("Ident", "name").unwrap();
    assert_eq!(m.swc_field, "sym");
    assert_eq!(m.read_conversion, ".to_string()");
    assert_eq!(m.write_conversion, ".into()");
    let m = get_typed_field_mapping("BlockStmt", "stmts").unwrap();
    assert_eq!(m.rustscript_field, "body");
    let m = get_typed_field_mapping("FnDecl", "params").unwrap();
    assert_eq!(m.swc_field, "function.params");
    assert!(get_typed_field_mapping("Ident", "object").is_none());
}

#[test]
fn node_table_literals_map_to_their_swc_types() {
    let (swc, kind) = map_rustscript_to_swc("StringLiteral");
    assert_eq!(swc, "Str");
    assert!(matches!(kind, SwcTypeKind::Struct));
    assert_eq!(map_rustscript_to_swc("NumericLiteral").0, "Number");
    assert_eq!(map_rustscript_to_swc("BooleanLiteral").0, "Bool");
    assert_eq!(map_rustscript_to_swc("NullLiteral").0, "Null");
    assert_eq!(map_rustscript_to_swc("JSXAttribute").0, "JSXAttr");
    assert_eq!(map_rustscript_to_swc("JSXExpressionContainer").0, "JSXExprContainer");
    assert_eq!(map_rustscript_to_swc("TSTypeReference").0, "TsTypeRef");
    assert_eq!(map_rustscript_to_swc("Identifier").0, "Ident");
}

#[test]
fn the_global_scope_is_never_left() {
    let mut env = TypeEnvironment::new();
    assert_eq!(env.scope_count(), 1);
    env.define("x", TypeContext::from_rustscript("Identifier"));
    env.pop_scope();
    assert_eq!(env.scope_count(), 1);
    assert!(env.lookup("x").is_some());
    env.push_scope();
    env.define("y", TypeContext::from_rustscript("Expr"));
    env.define("x", TypeContext::from_rustscript("Expr"));
    assert_eq!(env.scope_count(), 2);
    env.pop_scope();
    assert!(env.lookup("y").is_none());
    assert_eq!(env.lookup("x").unwrap().rustscript_type, "Identifier");
}

#[test]
fn variant_table_agrees_with_node_table() {
    for name in ["MemberExpression", "Identifier", "StringLiteral", "NumericLiteral", "IfStatement", "FunctionDeclaration"] {
        let (enum_name, variant, struct_name) = get_swc_variant(name);
        let row = rustscript::nodes::get_node_mapping(name).unwrap();
        assert_eq!(row.rustscript, name);
        assert_eq!(row.swc_enum, Some(format!("{}::{}", enum_name, variant)).as_deref());
        assert_eq!(row.swc, struct_name);
    }
    assert_eq!(get_swc_variant("Foo"), ("Unknown".to_string(), "Foo".to_string(), "Foo".to_string()));
}
