//! The `.templates.json` file of a component: its name and the templates of
//! its rendered tree, laid out as a JSON document and printed by `serde_json`.

use vstd::prelude::*;
use crate::strings::owned;
use crate::component::{
    Component, Template, LoopTemplate, StructuralTemplate, ConditionalElementTemplate, ExpressionTemplate,
};

verus! {

/// A JSON value made of plain values: objects keep their fields in order.
#[derive(Debug)]
pub enum JsonValue {
    Null,
    Bool(bool),
    Str(String),
    Array(Vec<JsonValue>),
    Object(Vec<(String, JsonValue)>),
}

/// The mathematical value of a [`JsonValue`].
pub enum JsonV {
    Null,
    Bool(bool),
    Str(Seq<char>),
    Array(Seq<JsonV>),
    Object(Seq<(Seq<char>, JsonV)>),
}

/// The value of a JSON value.
pub open spec fn json_view(v: JsonValue) -> JsonV
    decreases v, 1int,
{
    match v {
        JsonValue::Null => JsonV::Null,
        JsonValue::Bool(b) => JsonV::Bool(b),
        JsonValue::Str(s) => JsonV::Str(s@),
        JsonValue::Array(xs) => JsonV::Array(json_list_view(xs@)),
        JsonValue::Object(fs) => JsonV::Object(json_fields_view(fs@)),
    }
}

/// The values of a list of JSON values.
pub open spec fn json_list_view(s: Seq<JsonValue>) -> Seq<JsonV>
    decreases s, 0int,
{
    if s.len() == 0 {
        Seq::empty()
    } else {
        json_list_view(s.drop_last()).push(json_view(s.last()))
    }
}

/// The values of a list of named JSON values.
pub open spec fn json_fields_view(s: Seq<(String, JsonValue)>) -> Seq<(Seq<char>, JsonV)>
    decreases s, 0int,
{
    if s.len() == 0 {
        Seq::empty()
    } else {
        json_fields_view(s.drop_last()).push((s.last().0@, json_view(s.last().1)))
    }
}

impl View for JsonValue {
    type V = JsonV;

    open spec fn view(&self) -> JsonV {
        json_view(*self)
    }
}

/// What `serde_json::to_string_pretty` prints for a value: two-space
/// indentation, and the fields of each object in the order of their names.
pub uninterp spec fn json_pretty_text(v: JsonV) -> Seq<char>;

/// `serde_json::Value`, carried through as it is.
#[verifier::external_type_specification]
#[verifier::external_body]
pub struct ExSerdeJsonValue(serde_json::Value);

/// The `serde_json::Value` with the same contents: `null`, a flag, a string,
/// an array, or an object with the same fields (a later field of a repeated
/// name replacing an earlier one).
#[verifier::external_body]
fn to_serde_value(v: &JsonValue) -> serde_json::Value {
    match v {
        JsonValue::Null => serde_json::Value::Null,
        JsonValue::Bool(b) => serde_json::Value::Bool(*b),
        JsonValue::Str(s) => serde_json::Value::String(s.clone()),
        JsonValue::Array(xs) => serde_json::Value::Array(xs.iter().map(to_serde_value).collect()),
        JsonValue::Object(fs) => serde_json::Value::Object(fs.iter().map(|(k, x)| (k.clone(), to_serde_value(x))).collect()),
    }
}

/// `serde_json::to_string_pretty` of the value; `{}` where it fails.
#[verifier::external_body]
pub(crate) fn json_pretty(v: &JsonValue) -> (r: String)
    ensures
        r@ == json_pretty_text(v@),
{
    match serde_json::to_string_pretty(&to_serde_value(v)) {
        Ok(s) => s,
        Err(_) => "{}".to_string(),
    }
}

// ===================== the templates document =====================

/// A text, or `null` where there is none.
pub open spec fn opt_str_json(o: Option<String>) -> JsonV {
    match o {
        Some(s) => JsonV::Str(s@),
        None => JsonV::Null,
    }
}

/// A list of texts as an array of strings.
pub open spec fn strs_json(s: Seq<String>) -> JsonV {
    JsonV::Array(s.map_values(|x: String| JsonV::Str(x@)))
}

/// A template: its path, its text and its bindings.
pub open spec fn template_json(t: Template) -> JsonV {
    JsonV::Object(
        seq![("path"@, JsonV::Str(t.path@)), ("template"@, JsonV::Str(t.template@)), ("bindings"@, strs_json(t.bindings@))],
    )
}

/// A loop template: the state key, the item and index variables and the key expression.
pub open spec fn loop_json(t: LoopTemplate) -> JsonV {
    JsonV::Object(
        seq![
            ("stateKey"@, JsonV::Str(t.state_key@)),
            ("itemVar"@, JsonV::Str(t.item_var@)),
            ("indexVar"@, opt_str_json(t.index_var)),
            ("keyExpression"@, JsonV::Str(t.key_expression@)),
        ],
    )
}

/// A structural template: its type and the binding it tests.
pub open spec fn structural_json(t: StructuralTemplate) -> JsonV {
    JsonV::Object(
        seq![("type"@, JsonV::Str(t.template_type@)), ("conditionBinding"@, JsonV::Str(t.condition_binding@))],
    )
}

/// A conditional element template: its path, its condition and whether it can be evaluated.
pub open spec fn conditional_json(t: ConditionalElementTemplate) -> JsonV {
    JsonV::Object(
        seq![
            ("path"@, JsonV::Str(t.path@)),
            ("conditionExpression"@, JsonV::Str(t.condition_expression@)),
            ("evaluable"@, JsonV::Bool(t.evaluable)),
        ],
    )
}

/// An expression template: its type, state key, binding, method and arguments.
pub open spec fn expression_json(t: ExpressionTemplate) -> JsonV {
    JsonV::Object(
        seq![
            ("type"@, JsonV::Str(t.template_type@)),
            ("stateKey"@, JsonV::Str(t.state_key@)),
            ("binding"@, JsonV::Str(t.binding@)),
            ("method"@, opt_str_json(t.method)),
            ("args"@, strs_json(t.args@)),
        ],
    )
}

/// The templates document of a component: its name, its templates and its
/// conditional element templates by key, and its loop, structural and
/// expression templates in order.
pub open spec fn templates_json_of(c: Component) -> JsonV {
    JsonV::Object(
        seq![
            ("componentName"@, JsonV::Str(c.name@)),
            ("templates"@, JsonV::Object(c.templates@.map_values(|p: (String, Template)| (p.0@, template_json(p.1))))),
            ("loopTemplates"@, JsonV::Array(c.loop_templates@.map_values(|t: LoopTemplate| loop_json(t)))),
            (
                "structuralTemplates"@,
                JsonV::Array(c.structural_templates@.map_values(|t: StructuralTemplate| structural_json(t))),
            ),
            (
                "conditionalElementTemplates"@,
                JsonV::Object(
                    c.conditional_element_templates@.map_values(
                        |p: (String, ConditionalElementTemplate)| (p.0@, conditional_json(p.1)),
                    ),
                ),
            ),
            (
                "expressionTemplates"@,
                JsonV::Array(c.expression_templates@.map_values(|t: ExpressionTemplate| expression_json(t))),
            ),
        ],
    )
}

proof fn lemma_list_push(s: Seq<JsonValue>, x: JsonValue)
    ensures
        json_list_view(s.push(x)) == json_list_view(s).push(json_view(x)),
{
    assert(s.push(x).drop_last() =~= s);
}

proof fn lemma_fields_push(s: Seq<(String, JsonValue)>, k: String, x: JsonValue)
    ensures
        json_fields_view(s.push((k, x))) == json_fields_view(s).push((k@, json_view(x))),
{
    assert(s.push((k, x)).drop_last() =~= s);
}

/// A field of a JSON object.
fn field(k: &str, v: JsonValue) -> (r: (String, JsonValue))
    ensures
        r.0@ == k@,
        r.1 == v,
{
    (owned(k), v)
}

/// A text as a JSON string.
fn str_json(s: &String) -> (r: JsonValue)
    ensures
        r@ == JsonV::Str(s@),
{
    JsonValue::Str(s.clone())
}

/// A text or `null`.
fn opt_str_json_value(o: &Option<String>) -> (r: JsonValue)
    ensures
        r@ == opt_str_json(*o),
{
    match o {
        Some(s) => str_json(s),
        None => JsonValue::Null,
    }
}

/// A list of texts as an array of strings.
fn strs_json_value(xs: &Vec<String>) -> (r: JsonValue)
    ensures
        r@ == strs_json(xs@),
{
    let mut out: Vec<JsonValue> = Vec::new();
    let mut i: usize = 0;
    while i < xs.len()
        invariant
            i <= xs@.len(),
            json_list_view(out@) == xs@.subrange(0, i as int).map_values(|x: String| JsonV::Str(x@)),
        decreases xs@.len() - i,
    {
        let v = str_json(&xs[i]);
        proof {
            lemma_list_push(out@, v);
        }
        out.push(v);
        assert(xs@.subrange(0, i + 1).map_values(|x: String| JsonV::Str(x@)) =~= xs@.subrange(0, i as int).map_values(
            |x: String| JsonV::Str(x@),
        ).push(JsonV::Str(xs@[i as int]@)));
        i = i + 1;
    }
    assert(xs@.subrange(0, i as int) =~= xs@);
    JsonValue::Array(out)
}

/// An object from its fields, in order.
fn object3(a: (String, JsonValue), b: (String, JsonValue), c: (String, JsonValue)) -> (r: JsonValue)
    ensures
        r@ == JsonV::Object(seq![(a.0@, a.1@), (b.0@, b.1@), (c.0@, c.1@)]),
{
    let mut fs: Vec<(String, JsonValue)> = Vec::new();
    let ghost (a0, a1, b0, b1, c0, c1) = (a.0, a.1, b.0, b.1, c.0, c.1);
    proof {
        assert(json_fields_view(fs@) =~= Seq::<(Seq<char>, JsonV)>::empty());
        lemma_fields_push(fs@, a0, a1);
    }
    fs.push(a);
    proof {
        lemma_fields_push(fs@, b0, b1);
    }
    fs.push(b);
    proof {
        lemma_fields_push(fs@, c0, c1);
    }
    fs.push(c);
    let r = JsonValue::Object(fs);
    assert(json_fields_view(fs@) =~= seq![(a0@, a1@), (b0@, b1@), (c0@, c1@)]);
    r
}

/// A template: its path, its text and its bindings.
fn template_json_value(t: &Template) -> (r: JsonValue)
    ensures
        r@ == template_json(*t),
{
    object3(
        field("path", str_json(&t.path)),
        field("template", str_json(&t.template)),
        field("bindings", strs_json_value(&t.bindings)),
    )
}

/// A structural template: its type and the binding it tests.
fn structural_json_value(t: &StructuralTemplate) -> (r: JsonValue)
    ensures
        r@ == structural_json(*t),
{
    let mut fs: Vec<(String, JsonValue)> = Vec::new();
    let a = field("type", str_json(&t.template_type));
    let b = field("conditionBinding", str_json(&t.condition_binding));
    let ghost (a0, a1, b0, b1) = (a.0, a.1, b.0, b.1);
    proof {
        assert(json_fields_view(fs@) =~= Seq::<(Seq<char>, JsonV)>::empty());
        lemma_fields_push(fs@, a0, a1);
    }
    fs.push(a);
    proof {
        lemma_fields_push(fs@, b0, b1);
    }
    fs.push(b);
    assert(json_fields_view(fs@) =~= seq![(a0@, a1@), (b0@, b1@)]);
    JsonValue::Object(fs)
}

/// A conditional element template.
fn conditional_json_value(t: &ConditionalElementTemplate) -> (r: JsonValue)
    ensures
        r@ == conditional_json(*t),
{
    object3(
        field("path", str_json(&t.path)),
        field("conditionExpression", str_json(&t.condition_expression)),
        field("evaluable", JsonValue::Bool(t.evaluable)),
    )
}

/// A loop template.
fn loop_json_value(t: &LoopTemplate) -> (r: JsonValue)
    ensures
        r@ == loop_json(*t),
{
    let mut fs: Vec<(String, JsonValue)> = Vec::new();
    let a = field("stateKey", str_json(&t.state_key));
    let b = field("itemVar", str_json(&t.item_var));
    let c = field("indexVar", opt_str_json_value(&t.index_var));
    let d = field("keyExpression", str_json(&t.key_expression));
    let ghost (a0, a1, b0, b1, c0, c1, d0, d1) = (a.0, a.1, b.0, b.1, c.0, c.1, d.0, d.1);
    proof {
        assert(json_fields_view(fs@) =~= Seq::<(Seq<char>, JsonV)>::empty());
        lemma_fields_push(fs@, a0, a1);
    }
    fs.push(a);
    proof {
        lemma_fields_push(fs@, b0, b1);
    }
    fs.push(b);
    proof {
        lemma_fields_push(fs@, c0, c1);
    }
    fs.push(c);
    proof {
        lemma_fields_push(fs@, d0, d1);
    }
    fs.push(d);
    assert(json_fields_view(fs@) =~= seq![(a0@, a1@), (b0@, b1@), (c0@, c1@), (d0@, d1@)]);
    JsonValue::Object(fs)
}

/// An expression template.
fn expression_json_value(t: &ExpressionTemplate) -> (r: JsonValue)
    ensures
        r@ == expression_json(*t),
{
    let mut fs: Vec<(String, JsonValue)> = Vec::new();
    let a = field("type", str_json(&t.template_type));
    let b = field("stateKey", str_json(&t.state_key));
    let c = field("binding", str_json(&t.binding));
    let d = field("method", opt_str_json_value(&t.method));
    let e = field("args", strs_json_value(&t.args));
    let ghost (a0, a1, b0, b1, c0, c1, d0, d1, e0, e1) = (a.0, a.1, b.0, b.1, c.0, c.1, d.0, d.1, e.0, e.1);
    proof {
        assert(json_fields_view(fs@) =~= Seq::<(Seq<char>, JsonV)>::empty());
        lemma_fields_push(fs@, a0, a1);
    }
    fs.push(a);
    proof {
        lemma_fields_push(fs@, b0, b1);
    }
    fs.push(b);
    proof {
        lemma_fields_push(fs@, c0, c1);
    }
    fs.push(c);
    proof {
        lemma_fields_push(fs@, d0, d1);
    }
    fs.push(d);
    proof {
        lemma_fields_push(fs@, e0, e1);
    }
    fs.push(e);
    assert(json_fields_view(fs@) =~= seq![(a0@, a1@), (b0@, b1@), (c0@, c1@), (d0@, d1@), (e0@, e1@)]);
    JsonValue::Object(fs)
}

/// The templates document of a component, as a JSON value.
pub fn templates_json_value(c: &Component) -> (r: JsonValue)
    ensures
        r@ == templates_json_of(*c),
{
    // Templates by key
    let mut templates: Vec<(String, JsonValue)> = Vec::new();
    let mut i: usize = 0;
    while i < c.templates.len()
        invariant
            i <= c.templates@.len(),
            json_fields_view(templates@) == c.templates@.subrange(0, i as int).map_values(
                |p: (String, Template)| (p.0@, template_json(p.1)),
            ),
        decreases c.templates@.len() - i,
    {
        let k = c.templates[i].0.clone();
        let v = template_json_value(&c.templates[i].1);
        proof {
            lemma_fields_push(templates@, k, v);
        }
        templates.push((k, v));
        assert(c.templates@.subrange(0, i + 1).map_values(|p: (String, Template)| (p.0@, template_json(p.1)))
            =~= c.templates@.subrange(0, i as int).map_values(|p: (String, Template)| (p.0@, template_json(p.1))).push(
            (c.templates@[i as int].0@, template_json(c.templates@[i as int].1)),
        ));
        i = i + 1;
    }
    assert(c.templates@.subrange(0, i as int) =~= c.templates@);
    // Loop templates
    let mut loops: Vec<JsonValue> = Vec::new();
    let mut i: usize = 0;
    while i < c.loop_templates.len()
        invariant
            i <= c.loop_templates@.len(),
            json_list_view(loops@) == c.loop_templates@.subrange(0, i as int).map_values(|t: LoopTemplate| loop_json(t)),
        decreases c.loop_templates@.len() - i,
    {
        let v = loop_json_value(&c.loop_templates[i]);
        proof {
            lemma_list_push(loops@, v);
        }
        loops.push(v);
        assert(c.loop_templates@.subrange(0, i + 1).map_values(|t: LoopTemplate| loop_json(t))
            =~= c.loop_templates@.subrange(0, i as int).map_values(|t: LoopTemplate| loop_json(t)).push(
            loop_json(c.loop_templates@[i as int]),
        ));
        i = i + 1;
    }
    assert(c.loop_templates@.subrange(0, i as int) =~= c.loop_templates@);
    // Structural templates
    let mut structural: Vec<JsonValue> = Vec::new();
    let mut i: usize = 0;
    while i < c.structural_templates.len()
        invariant
            i <= c.structural_templates@.len(),
            json_list_view(structural@) == c.structural_templates@.subrange(0, i as int).map_values(
                |t: StructuralTemplate| structural_json(t),
            ),
        decreases c.structural_templates@.len() - i,
    {
        let v = structural_json_value(&c.structural_templates[i]);
        proof {
            lemma_list_push(structural@, v);
        }
        structural.push(v);
        assert(c.structural_templates@.subrange(0, i + 1).map_values(|t: StructuralTemplate| structural_json(t))
            =~= c.structural_templates@.subrange(0, i as int).map_values(|t: StructuralTemplate| structural_json(t)).push(
            structural_json(c.structural_templates@[i as int]),
        ));
        i = i + 1;
    }
    assert(c.structural_templates@.subrange(0, i as int) =~= c.structural_templates@);
    // Conditional element templates by key
    let mut conditional: Vec<(String, JsonValue)> = Vec::new();
    let mut i: usize = 0;
    while i < c.conditional_element_templates.len()
        invariant
            i <= c.conditional_element_templates@.len(),
            json_fields_view(conditional@) == c.conditional_element_templates@.subrange(0, i as int).map_values(
                |p: (String, ConditionalElementTemplate)| (p.0@, conditional_json(p.1)),
            ),
        decreases c.conditional_element_templates@.len() - i,
    {
        let k = c.conditional_element_templates[i].0.clone();
        let v = conditional_json_value(&c.conditional_element_templates[i].1);
        proof {
            lemma_fields_push(conditional@, k, v);
        }
        conditional.push((k, v));
        assert(c.conditional_element_templates@.subrange(0, i + 1).map_values(
            |p: (String, ConditionalElementTemplate)| (p.0@, conditional_json(p.1)),
        ) =~= c.conditional_element_templates@.subrange(0, i as int).map_values(
            |p: (String, ConditionalElementTemplate)| (p.0@, conditional_json(p.1)),
        ).push((c.conditional_element_templates@[i as int].0@, conditional_json(c.conditional_element_templates@[i as int].1))));
        i = i + 1;
    }
    assert(c.conditional_element_templates@.subrange(0, i as int) =~= c.conditional_element_templates@);
    // Expression templates
    let mut expressions: Vec<JsonValue> = Vec::new();
    let mut i: usize = 0;
    while i < c.expression_templates.len()
        invariant
            i <= c.expression_templates@.len(),
            json_list_view(expressions@) == c.expression_templates@.subrange(0, i as int).map_values(
                |t: ExpressionTemplate| expression_json(t),
            ),
        decreases c.expression_templates@.len() - i,
    {
        let v = expression_json_value(&c.expression_templates[i]);
        proof {
            lemma_list_push(expressions@, v);
        }
        expressions.push(v);
        assert(c.expression_templates@.subrange(0, i + 1).map_values(|t: ExpressionTemplate| expression_json(t))
            =~= c.expression_templates@.subrange(0, i as int).map_values(|t: ExpressionTemplate| expression_json(t)).push(
            expression_json(c.expression_templates@[i as int]),
        ));
        i = i + 1;
    }
    assert(c.expression_templates@.subrange(0, i as int) =~= c.expression_templates@);
    // The document
    let mut doc: Vec<(String, JsonValue)> = Vec::new();
    let f0 = field("componentName", str_json(&c.name));
    let f1 = field("templates", JsonValue::Object(templates));
    let f2 = field("loopTemplates", JsonValue::Array(loops));
    let f3 = field("structuralTemplates", JsonValue::Array(structural));
    let f4 = field("conditionalElementTemplates", JsonValue::Object(conditional));
    let f5 = field("expressionTemplates", JsonValue::Array(expressions));
    let ghost (k0, v0, k1, v1, k2, v2, k3, v3, k4, v4, k5, v5) = (
        f0.0, f0.1, f1.0, f1.1, f2.0, f2.1, f3.0, f3.1, f4.0, f4.1, f5.0, f5.1,
    );
    proof {
        assert(json_fields_view(doc@) =~= Seq::<(Seq<char>, JsonV)>::empty());
        lemma_fields_push(doc@, k0, v0);
    }
    doc.push(f0);
    proof {
        lemma_fields_push(doc@, k1, v1);
    }
    doc.push(f1);
    proof {
        lemma_fields_push(doc@, k2, v2);
    }
    doc.push(f2);
    proof {
        lemma_fields_push(doc@, k3, v3);
    }
    doc.push(f3);
    proof {
        lemma_fields_push(doc@, k4, v4);
    }
    doc.push(f4);
    proof {
        lemma_fields_push(doc@, k5, v5);
    }
    doc.push(f5);
    assert(json_fields_view(doc@) =~= seq![
        (k0@, v0@), (k1@, v1@), (k2@, v2@), (k3@, v3@), (k4@, v4@), (k5@, v5@)
    ]);
    JsonValue::Object(doc)
}

/// The `.templates.json` text of a component: its templates document printed
/// by `serde_json` with two-space indentation.
pub fn generate_templates_json(c: &Component) -> (r: String)
    ensures
        r@ == json_pretty_text(templates_json_of(*c)),
{
    let v = templates_json_value(c);
    json_pretty(&v)
}

} // verus!
