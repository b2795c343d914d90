use rustscript::inline::{generate_visitor_method_with_inlining, inline_helper_call, substitute_arg};
use rustscript::transform::{HelperFunction, Transform, VisitorMethod};

fn s(x: &str) -> String {
    x.to_string()
}

fn helpers() -> Vec<HelperFunction> {
    vec![
        HelperFunction {
            name: s("helperA"),
            params: vec![s("v")],
            transforms: vec![Transform::FunctionCall { name: s("doThing"), args: vec![s("v")] }],
            source_module: s("a.js"),
        },
        HelperFunction {
            name: s("loopy"),
            params: vec![],
            transforms: vec![Transform::FunctionCall { name: s("loopy"), args: vec![] }],
            source_module: s("a.js"),
        },
    ]
}

#[test]
fn longer_parameters_are_replaced_first() {
    let bindings = vec![(s("a"), s("x")), (s("ab"), s("y"))];
    assert_eq!(substitute_arg("a + ab", &bindings), "x + y");
    assert_eq!(substitute_arg("nothing", &vec![]), "nothing");
}

#[test]
fn helpers_are_inlined_with_arguments() {
    let hs = helpers();
    let mut visited = Vec::new();
    let code = inline_helper_call("helperA", &vec![s("node")], &hs, 2, &mut visited, None);
    assert_eq!(code, "        do_thing(node);\n");
    assert!(visited.is_empty());
}

#[test]
fn recursive_helpers_are_not_reentered() {
    let hs = helpers();
    let mut visited = Vec::new();
    let code = inline_helper_call("loopy", &vec![], &hs, 1, &mut visited, None);
    assert_eq!(code, "    // Recursive call to loopy detected, skipping inline\n");
    assert!(visited.is_empty());
}

#[test]
fn unknown_helpers_are_reported() {
    let hs = helpers();
    let mut visited = Vec::new();
    let code = inline_helper_call("nope", &vec![], &hs, 0, &mut visited, None);
    assert_eq!(code, "// TODO: helper 'nope' not found in helpers map\n");
}

#[test]
fn visitor_methods_inline_helpers() {
    let hs = helpers();
    let m = VisitorMethod {
        name: s("CallExpression"),
        transforms: vec![Transform::FunctionCall { name: s("helperA"), args: vec![s("path")] }],
    };
    assert_eq!(
        generate_visitor_method_with_inlining(&m, &hs, None),
        "    fn visit_mut_call_expr(&mut self, n: &mut CallExpr) {\n        do_thing(n);\n        n.visit_mut_children_with(self);\n    }\n\n"
    );
    let unknown = VisitorMethod { name: s("Program"), transforms: vec![] };
    assert_eq!(
        generate_visitor_method_with_inlining(&unknown, &hs, None),
        "    // TODO: Unknown visitor method: Program\n"
    );
}
