use rustscript::component::{Component, LoopTemplate, Template};
use rustscript::templates_json::{generate_templates_json, templates_json_value, JsonValue};

#[test]
fn templates_document_lists_templates_by_key() {
    let mut c = Component::new("Counter".to_string());
    c.templates.push((
        "0.1".to_string(),
        Template { path: "0.1".to_string(), template: "Count: {0}".to_string(), bindings: vec!["count".to_string()] },
    ));
    c.loop_templates.push(LoopTemplate {
        state_key: "items".to_string(),
        item_var: "item".to_string(),
        index_var: None,
        key_expression: "item.id".to_string(),
    });
    let text = generate_templates_json(&c);
    let expected = "{\n  \"componentName\": \"Counter\",\n  \"conditionalElementTemplates\": {},\n  \"expressionTemplates\": [],\n  \"loopTemplates\": [\n    {\n      \"indexVar\": null,\n      \"itemVar\": \"item\",\n      \"keyExpression\": \"item.id\",\n      \"stateKey\": \"items\"\n    }\n  ],\n  \"structuralTemplates\": [],\n  \"templates\": {\n    \"0.1\": {\n      \"bindings\": [\n        \"count\"\n      ],\n      \"path\": \"0.1\",\n      \"template\": \"Count: {0}\"\n    }\n  }\n}";
    assert_eq!(text, expected);
    match templates_json_value(&c) {
        JsonValue::Object(fields) => {
            assert_eq!(fields.len(), 6);
            assert_eq!(fields[0].0, "componentName");
        },
        _ => panic!("object expected"),
    }
}
