use rustscript::js_source::{mark_processed, modules_to_process, parse_source, RequiredModule};

fn required(path: &str) -> RequiredModule {
    RequiredModule { written_path: format!("./{}", path), imported_names: vec![], resolved_path: path.to_string() }
}

#[test]
fn each_required_file_is_analysed_once() {
    let mut processed: Vec<String> = Vec::new();
    mark_processed(&mut processed, "index.js");
    let req = vec![required("a.js"), required("index.js"), required("b.js")];
    assert_eq!(modules_to_process(&req, &processed), vec!["a.js".to_string(), "b.js".to_string()]);
    mark_processed(&mut processed, "a.js");
    mark_processed(&mut processed, "a.js");
    assert_eq!(processed, vec!["index.js".to_string(), "a.js".to_string()]);
    assert_eq!(modules_to_process(&req, &processed), vec!["b.js".to_string()]);
}

#[test]
fn source_text_parses_or_is_refused() {
    assert!(parse_source("plugin.js", "const x = require('./helpers');\nmodule.exports = function() { return { visitor: {} }; };").is_some());
    assert!(parse_source("broken.js", "function (").is_none());
}
