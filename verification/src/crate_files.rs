//! The files of the generated SWC plugin crate that are built from the
//! metadata and the helpers: struct definitions, helper modules and the
//! visitor implementation.

use vstd::prelude::*;
use crate::strings::{str_eq, owned, joined, joined3, starts_with};
use crate::text::{join_seq, join_strs};
use crate::translate::{snake_case, to_snake_case, swc_method, node_param, babel_to_swc_method, get_node_param, byte_len, byte_offset_capped};
use crate::codegen::{helper_code, helper_ok, generate_helper_function, transforms_code, transforms_ok, indent_of};
use crate::metadata::{PluginMetadata, StructDef, FieldDef};
use crate::transform::{Transform, HelperFunction};

verus! {

// ===================== structs from metadata =====================

/// The value a field starts with: its declared default, else one that suits
/// its type.
pub open spec fn default_value(f: FieldDef) -> Seq<char> {
    match f.default {
        Some(d) => d@,
        None => if f.field_type@ == "String"@ {
            "String::new()"@
        } else if "Vec<"@.is_prefix_of(f.field_type@) {
            "vec![]"@
        } else if f.field_type@ == "bool"@ {
            "false"@
        } else if "Option<"@.is_prefix_of(f.field_type@) {
            "None"@
        } else {
            "Default::default()"@
        },
    }
}

/// The field declarations of a struct.
pub open spec fn field_decls(fs: Seq<(String, FieldDef)>) -> Seq<char>
    decreases fs.len(),
{
    if fs.len() == 0 {
        Seq::empty()
    } else {
        field_decls(fs.drop_last()) + "    pub "@ + snake_case(fs.last().0@) + ": "@ + fs.last().1.field_type@
            + ",\n"@
    }
}

/// The field initialisers of a struct's `Default`.
pub open spec fn field_defaults(fs: Seq<(String, FieldDef)>) -> Seq<char>
    decreases fs.len(),
{
    if fs.len() == 0 {
        Seq::empty()
    } else {
        field_defaults(fs.drop_last()) + "            "@ + snake_case(fs.last().0@) + ": "@ + default_value(
            fs.last().1,
        ) + ",\n"@
    }
}

/// The definition and `Default` impl of one struct.
pub open spec fn struct_code(name: Seq<char>, d: StructDef) -> Seq<char> {
    (match d.description {
        Some(desc) => "/// "@ + desc@ + "\n"@,
        None => Seq::empty(),
    }) + "#[derive(Debug, Clone, Serialize, Deserialize)]\n"@ + "pub struct "@ + name + " {\n"@ + field_decls(
        d.fields@,
    ) + "}\n\n"@ + "impl Default for "@ + name + " {\n"@ + "    fn default() -> Self {\n"@ + "        Self {\n"@
        + field_defaults(d.fields@) + "        }\n"@ + "    }\n"@ + "}\n\n"@
}

/// The definitions of all the structs, in turn.
pub open spec fn structs_code(ss: Seq<(String, StructDef)>) -> Seq<char>
    decreases ss.len(),
{
    if ss.len() == 0 {
        Seq::empty()
    } else {
        structs_code(ss.drop_last()) + struct_code(ss.last().0@, ss.last().1)
    }
}

/// The value a field starts with.
fn default_value_exec(f: &FieldDef) -> (r: String)
    ensures
        r@ == default_value(*f),
{
    match &f.default {
        Some(d) => owned(d.as_str()),
        None => {
            let t = f.field_type.as_str();
            if str_eq(t, "String") {
                owned("String::new()")
            } else if starts_with(t, "Vec<") {
                owned("vec![]")
            } else if str_eq(t, "bool") {
                owned("false")
            } else if starts_with(t, "Option<") {
                owned("None")
            } else {
                owned("Default::default()")
            }
        },
    }
}

/// The definition and `Default` impl of one struct.
fn struct_code_exec(name: &str, d: &StructDef) -> (r: String)
    ensures
        r@ == struct_code(name@, *d),
{
    let mut decls = String::new();
    let mut defaults = String::new();
    let mut i: usize = 0;
    while i < d.fields.len()
        invariant
            i <= d.fields@.len(),
            decls@ == field_decls(d.fields@.subrange(0, i as int)),
            defaults@ == field_defaults(d.fields@.subrange(0, i as int)),
        decreases d.fields@.len() - i,
    {
        proof {
            assert(d.fields@.subrange(0, i + 1).drop_last() =~= d.fields@.subrange(0, i as int));
        }
        let snake = to_snake_case(d.fields[i].0.as_str());
        let ghost before_decls = decls@;
        let ghost before_defaults = defaults@;
        let line = joined3("    pub ", snake.as_str(), ": ");
        let line = joined3(line.as_str(), d.fields[i].1.field_type.as_str(), ",\n");
        decls = joined(decls.as_str(), line.as_str());
        let dv = default_value_exec(&d.fields[i].1);
        let line = joined3("            ", snake.as_str(), ": ");
        let line = joined3(line.as_str(), dv.as_str(), ",\n");
        defaults = joined(defaults.as_str(), line.as_str());
        assert(decls@ =~= field_decls(d.fields@.subrange(0, i + 1)));
        assert(defaults@ =~= field_defaults(d.fields@.subrange(0, i + 1)));
        i = i + 1;
    }
    assert(d.fields@.subrange(0, i as int) =~= d.fields@);
    let doc = match &d.description {
        Some(desc) => joined3("/// ", desc.as_str(), "\n"),
        None => String::new(),
    };
    let code = joined3(doc.as_str(), "#[derive(Debug, Clone, Serialize, Deserialize)]\n", "pub struct ");
    let code = joined3(code.as_str(), name, " {\n");
    let code = joined3(code.as_str(), decls.as_str(), "}\n\n");
    let code = joined3(code.as_str(), "impl Default for ", name);
    let code = joined3(code.as_str(), " {\n", "    fn default() -> Self {\n");
    let code = joined3(code.as_str(), "        Self {\n", defaults.as_str());
    let code = joined3(code.as_str(), "        }\n", "    }\n");
    joined(code.as_str(), "}\n\n")
}

/// Generate Rust struct definitions, each with a `Default`, from the metadata.
pub fn generate_structs_from_metadata(metadata: &PluginMetadata) -> (r: String)
    ensures
        r@ == structs_code(metadata.structs@),
{
    let mut code = String::new();
    let mut i: usize = 0;
    while i < metadata.structs.len()
        invariant
            i <= metadata.structs@.len(),
            code@ == structs_code(metadata.structs@.subrange(0, i as int)),
        decreases metadata.structs@.len() - i,
    {
        proof {
            assert(metadata.structs@.subrange(0, i + 1).drop_last() =~= metadata.structs@.subrange(0, i as int));
        }
        let piece = struct_code_exec(metadata.structs[i].0.as_str(), &metadata.structs[i].1);
        code = joined(code.as_str(), piece.as_str());
        i = i + 1;
    }
    assert(metadata.structs@.subrange(0, i as int) =~= metadata.structs@);
    code
}

// ===================== helper modules =====================

/// Whether a helper is left out of its module: private names, the visitor
/// helper, short `is...` checks, the helpers the extractor implements itself,
/// and those that the metadata's hints skip.
pub open spec fn excluded_helper(name: Seq<char>, m: Option<&PluginMetadata>) -> bool {
    ||| "_"@.is_prefix_of(name)
    ||| name == "visit"@
    ||| "is"@.is_prefix_of(name) && byte_len(name) < 15
    ||| name == "getComponentName"@
    ||| name == "escapeCSharpString"@
    ||| match m {
        Some(meta) => match meta.code_generation_hints {
            Some(h) => exists|k: int|
                0 <= k < h.skip_helper_generation@.len() && #[trigger] h.skip_helper_generation@[k]@ == name,
            None => false,
        },
        None => false,
    }
}

/// The names of the declared structs.
pub open spec fn struct_names(ss: Seq<(String, StructDef)>) -> Seq<Seq<char>>
    decreases ss.len(),
{
    if ss.len() == 0 {
        Seq::empty()
    } else {
        struct_names(ss.drop_last()).push(ss.last().0@)
    }
}

/// The helper functions of a module from the `i`-th on, each followed by a
/// blank line, the excluded ones left out.
pub open spec fn module_helpers(hs: Seq<&HelperFunction>, i: int, m: Option<&PluginMetadata>) -> Seq<char>
    decreases hs.len() - i,
{
    if 0 <= i < hs.len() {
        (if excluded_helper(hs[i].name@, m) {
            Seq::empty()
        } else {
            helper_code(*hs[i], m) + "\n"@
        }) + module_helpers(hs, i + 1, m)
    } else {
        Seq::empty()
    }
}

/// A module file of helper functions.
pub open spec fn module_file(hs: Seq<&HelperFunction>, m: Option<&PluginMetadata>) -> Seq<char> {
    "// Auto-generated module\n\n"@ + "use swc_ecma_ast::*;\n"@ + "use swc_common::DUMMY_SP;\n"@ + (match m {
        Some(meta) => if meta.structs@.len() > 0 {
            "use crate::{"@ + join_seq(struct_names(meta.structs@), ", "@) + "};\n"@
        } else {
            Seq::empty()
        },
        None => Seq::empty(),
    }) + "\n"@ + module_helpers(hs, 0, m)
}

/// Whether every helper that a module keeps can be generated.
pub open spec fn module_ok(hs: Seq<&HelperFunction>, m: Option<&PluginMetadata>) -> bool {
    forall|k: int| 0 <= k < hs.len() ==> excluded_helper((#[trigger] hs[k]).name@, m) || helper_ok(*hs[k], m)
}

/// Whether a helper is left out of its module.
fn excluded_helper_exec(name: &str, m: Option<&PluginMetadata>) -> (r: bool)
    ensures
        r == excluded_helper(name@, m),
{
    let n = name.unicode_len();
    let short = byte_offset_capped(name, n, 15) < 15;
    assert(name@.subrange(0, n as int) =~= name@);
    let mut excluded = starts_with(name, "_") || str_eq(name, "visit") || starts_with(name, "is") && short
        || str_eq(name, "getComponentName") || str_eq(name, "escapeCSharpString");
    if let Some(meta) = m {
        if let Some(hints) = &meta.code_generation_hints {
            let skip = &hints.skip_helper_generation;
            let mut k: usize = 0;
            while k < skip.len()
                invariant
                    k <= skip@.len(),
                    excluded == (excluded_helper(name@, m) && !(exists|j: int|
                        k <= j < skip@.len() && #[trigger] skip@[j]@ == name@) || (exists|j: int|
                        0 <= j < k && #[trigger] skip@[j]@ == name@) || ("_"@.is_prefix_of(name@) || name@
                        == "visit"@ || "is"@.is_prefix_of(name@) && byte_len(name@) < 15 || name@
                        == "getComponentName"@ || name@ == "escapeCSharpString"@)),
                decreases skip@.len() - k,
            {
                if str_eq(skip[k].as_str(), name) {
                    excluded = true;
                }
                k = k + 1;
            }
        }
    }
    excluded
}

/// Generate a module file with the helper functions that it keeps.
pub fn generate_module_file(helpers: &Vec<&HelperFunction>, metadata: Option<&PluginMetadata>) -> (r: String)
    requires
        module_ok(helpers@, metadata),
    ensures
        r@ == module_file(helpers@, metadata),
{
    let mut code = owned("// Auto-generated module\n\n");
    code = joined(code.as_str(), "use swc_ecma_ast::*;\n");
    code = joined(code.as_str(), "use swc_common::DUMMY_SP;\n");
    if let Some(meta) = metadata {
        if meta.structs.len() > 0 {
            let mut names: Vec<String> = Vec::new();
            let mut i: usize = 0;
            while i < meta.structs.len()
                invariant
                    i <= meta.structs@.len(),
                    names@.map_values(|x: String| x@) == struct_names(meta.structs@.subrange(0, i as int)),
                decreases meta.structs@.len() - i,
            {
                proof {
                    assert(meta.structs@.subrange(0, i + 1).drop_last() =~= meta.structs@.subrange(0, i as int));
                }
                let ghost before = names@;
                let nm = owned(meta.structs[i].0.as_str());
                names.push(nm);
                proof {
                    assert(names@.map_values(|x: String| x@) =~= before.map_values(|x: String| x@).push(nm@));
                }
                i = i + 1;
            }
            assert(meta.structs@.subrange(0, i as int) =~= meta.structs@);
            let list = join_strs(&names, ", ");
            code = joined3(code.as_str(), "use crate::{", list.as_str());
            code = joined(code.as_str(), "};\n");
        }
    }
    code = joined(code.as_str(), "\n");
    let ghost head = code@;
    let mut k: usize = 0;
    assert(code@ + module_helpers(helpers@, 0, metadata) =~= head + module_helpers(helpers@, 0, metadata));
    while k < helpers.len()
        invariant
            k <= helpers@.len(),
            module_ok(helpers@, metadata),
            code@ + module_helpers(helpers@, k as int, metadata) == head + module_helpers(helpers@, 0, metadata),
        decreases helpers@.len() - k,
    {
        let h: &HelperFunction = helpers[k];
        let ghost before = code@;
        if !excluded_helper_exec(h.name.as_str(), metadata) {
            let f = generate_helper_function(h, metadata);
            code = joined3(code.as_str(), f.as_str(), "\n");
        }
        assert(code@ + module_helpers(helpers@, k + 1, metadata) =~= before + module_helpers(
            helpers@,
            k as int,
            metadata,
        ));
        k = k + 1;
    }
    assert(code@ + Seq::<char>::empty() =~= code@);
    code
}

/// Whether every helper that a module keeps can be generated.
pub fn module_generatable(helpers: &Vec<&HelperFunction>, metadata: Option<&PluginMetadata>) -> (r: bool)
    ensures
        r == module_ok(helpers@, metadata),
{
    let mut k: usize = 0;
    while k < helpers.len()
        invariant
            k <= helpers@.len(),
            forall|j: int| 0 <= j < k ==> excluded_helper((#[trigger] helpers@[j]).name@, metadata) || helper_ok(
                *helpers@[j],
                metadata,
            ),
        decreases helpers@.len() - k,
    {
        let h: &HelperFunction = helpers[k];
        if !excluded_helper_exec(h.name.as_str(), metadata) && !crate::codegen::helper_generatable(h, metadata) {
            assert(!(excluded_helper(helpers@[k as int].name@, metadata) || helper_ok(*helpers@[k as int], metadata)));
            return false;
        }
        k = k + 1;
    }
    true
}

// ===================== the visitor =====================

/// The `Visit` implementation for one Babel visitor: its transforms at two
/// levels of indentation, then a walk into the children.
pub open spec fn visitor_impl(visitor: Seq<char>, ts: Seq<Transform>) -> Seq<char> {
    let body = transforms_code(ts, 0, 2, None);
    let body2 = if body.len() == 0 {
        "        // No transforms detected in Babel plugin body\n"@
    } else {
        body
    };
    let (param, ty) = node_param(visitor);
    "impl Visit for MyTranspiler {\n    fn "@ + swc_method(visitor) + "(&mut self, "@ + param + ": &"@ + ty + ") {\n"@
        + body2 + "        "@ + param + ".visit_children_with(self);\n    }\n}"@
}

/// Generate the `Visit` implementation for one Babel visitor and its transforms.
pub fn generate_rust_visitor_with_transforms(visitor_name: &str, transforms: &Vec<Transform>) -> (r: String)
    requires
        transforms_ok(transforms@, 0, 2, None),
    ensures
        r@ == visitor_impl(visitor_name@, transforms@),
{
    let rust_method = babel_to_swc_method(visitor_name);
    let node = get_node_param(visitor_name);
    let mut body = crate::codegen::generate_transforms_pub(transforms, 2, None);
    if body.unicode_len() == 0 {
        body = owned("        // No transforms detected in Babel plugin body\n");
    }
    let code = joined3("impl Visit for MyTranspiler {\n    fn ", rust_method, "(&mut self, ");
    let code = joined3(code.as_str(), node.0, ": &");
    let code = joined3(code.as_str(), node.1, ") {\n");
    let code = joined3(code.as_str(), body.as_str(), "        ");
    joined3(code.as_str(), node.0, ".visit_children_with(self);\n    }\n}")
}

// ===================== modules of helpers =====================

/// What `std::path::Path::file_stem` gives for a path, as text.
pub uninterp spec fn path_file_stem(path: Seq<char>) -> Option<Seq<char>>;

/// `Path::new(path).file_stem()`, as text: the final component of the path
/// without its last extension, if the path has a final component.
#[verifier::external_body]
fn file_stem(path: &str) -> (r: Option<String>)
    ensures
        match r {
            Some(x) => path_file_stem(path@) == Some(x@),
            None => path_file_stem(path@) is None,
        },
{
    std::path::Path::new(path).file_stem().and_then(|s| s.to_str()).map(|s| s.to_string())
}

/// The module name for a source file: its file stem in snake case.
pub open spec fn module_name(source: Seq<char>) -> Seq<char> {
    match path_file_stem(source) {
        Some(stem) => snake_case(stem),
        None => snake_case("unknown"@),
    }
}

/// Convert a JavaScript source path to the name of its Rust module.
pub fn get_module_name(source_path: &str) -> (r: String)
    ensures
        r@ == module_name(source_path@),
{
    match file_stem(source_path) {
        Some(stem) => to_snake_case(stem.as_str()),
        None => to_snake_case("unknown"),
    }
}

/// The helpers grouped by module, modules in order of first appearance, and
/// within a module a name kept only once (the first helper with it).
pub open spec fn grouped(hs: Seq<HelperFunction>) -> Seq<(Seq<char>, Seq<HelperFunction>)>
    decreases hs.len(),
{
    if hs.len() == 0 {
        Seq::empty()
    } else {
        add_to_group(grouped(hs.drop_last()), hs.last())
    }
}

/// Add a helper to the group of its module, unless the group has its name.
pub open spec fn add_to_group(gs: Seq<(Seq<char>, Seq<HelperFunction>)>, h: HelperFunction) -> Seq<
    (Seq<char>, Seq<HelperFunction>),
> {
    let key = module_name(h.source_module@);
    if exists|g: int| 0 <= g < gs.len() && #[trigger] gs[g].0 == key {
        let g = choose|g: int| 0 <= g < gs.len() && #[trigger] gs[g].0 == key;
        if exists|j: int| 0 <= j < gs[g].1.len() && (#[trigger] gs[g].1[j]).name@ == h.name@ {
            gs
        } else {
            gs.update(g, (key, gs[g].1.push(h)))
        }
    } else {
        gs.push((key, seq![h]))
    }
}

/// No module occurs twice among the groups.
pub open spec fn distinct_groups(gs: Seq<(Seq<char>, Seq<HelperFunction>)>) -> bool {
    forall|a: int, b: int| 0 <= a < b < gs.len() ==> #[trigger] gs[a].0 != #[trigger] gs[b].0
}

/// Grouping never repeats a module.
pub proof fn law_groups_are_distinct(hs: Seq<HelperFunction>)
    ensures
        distinct_groups(grouped(hs)),
    decreases hs.len(),
{
    if hs.len() > 0 {
        law_groups_are_distinct(hs.drop_last());
        let gs = grouped(hs.drop_last());
        let h = hs.last();
        let key = module_name(h.source_module@);
        if exists|g: int| 0 <= g < gs.len() && #[trigger] gs[g].0 == key {
            let g = choose|g: int| 0 <= g < gs.len() && #[trigger] gs[g].0 == key;
            let after = grouped(hs);
            assert forall|a: int, b: int| 0 <= a < b < after.len() implies #[trigger] after[a].0 != #[trigger] after[b].0 by {
                assert(after[a].0 == gs[a].0);
                assert(after[b].0 == gs[b].0);
            }
        }
    }
}

/// The values of grouped helpers.
pub open spec fn group_views(gs: Seq<(String, Vec<&HelperFunction>)>) -> Seq<(Seq<char>, Seq<HelperFunction>)> {
    gs.map_values(|g: (String, Vec<&HelperFunction>)| (g.0@, g.1@.map_values(|h: &HelperFunction| *h)))
}

/// Group helper functions by the module of their source file, keeping each
/// name once in a module.
pub fn group_helpers_by_module(helpers: &Vec<HelperFunction>) -> (r: Vec<(String, Vec<&HelperFunction>)>)
    ensures
        group_views(r@) == grouped(helpers@),
{
    let mut groups: Vec<(String, Vec<&HelperFunction>)> = Vec::new();
    let mut i: usize = 0;
    while i < helpers.len()
        invariant
            i <= helpers@.len(),
            group_views(groups@) == grouped(helpers@.subrange(0, i as int)),
        decreases helpers@.len() - i,
    {
        proof {
            assert(helpers@.subrange(0, i + 1).drop_last() =~= helpers@.subrange(0, i as int));
            law_groups_are_distinct(helpers@.subrange(0, i as int));
        }
        let h: &HelperFunction = &helpers[i];
        let key = get_module_name(h.source_module.as_str());
        let ghost gs = group_views(groups@);
        let mut g: usize = 0;
        let mut found = false;
        while g < groups.len()
            invariant_except_break
                !found,
            invariant
                g <= groups@.len(),
                gs == group_views(groups@),
                forall|x: int| 0 <= x < g ==> #[trigger] gs[x].0 != key@,
            ensures
                found ==> g < groups@.len() && gs[g as int].0 == key@,
                !found ==> forall|x: int| 0 <= x < groups@.len() ==> #[trigger] gs[x].0 != key@,
            decreases groups@.len() - g,
        {
            assert(gs[g as int].0 == groups@[g as int].0@);
            if str_eq(groups[g].0.as_str(), key.as_str()) {
                found = true;
                break;
            }
            g = g + 1;
        }
        if found {
            proof {
                let d = distinct_groups(gs);
                assert(d);
                let c = choose|x: int| 0 <= x < gs.len() && #[trigger] gs[x].0 == key@;
                if c != g as int {
                    if c < g as int {
                        assert(gs[c].0 != gs[g as int].0);
                    } else {
                        assert(gs[g as int].0 != gs[c].0);
                    }
                }
            }
            let mut has_name = false;
            let mut j: usize = 0;
            let ghost members = gs[g as int].1;
            while j < groups[g].1.len()
                invariant
                    g < groups@.len(),
                    gs == group_views(groups@),
                    members == gs[g as int].1,
                    j <= groups@[g as int].1@.len(),
                    has_name <==> exists|x: int| 0 <= x < j && (#[trigger] members[x]).name@ == h.name@,
                decreases groups@[g as int].1@.len() - j,
            {
                assert(members[j as int] == *groups@[g as int].1@[j as int]);
                let same = str_eq(groups[g].1[j].name.as_str(), h.name.as_str());
                if same {
                    has_name = true;
                }
                proof {
                    if same {
                        assert(members[j as int].name@ == h.name@);
                    } else {
                        assert(members[j as int].name@ != h.name@);
                    }
                }
                j = j + 1;
            }
            if !has_name {
                let ghost before = groups@;
                let (name, mut members_vec) = groups.remove(g);
                members_vec.push(h);
                groups.insert(g, (name, members_vec));
                proof {
                    assert(group_views(groups@) =~= gs.update(
                        g as int,
                        (key@, gs[g as int].1.push(*h)),
                    )) by {
                        assert forall|x: int| 0 <= x < groups@.len() implies #[trigger] group_views(groups@)[x]
                            == gs.update(g as int, (key@, gs[g as int].1.push(*h)))[x] by {
                            if x == g as int {
                                assert(groups@[x].1@.map_values(|h: &HelperFunction| *h) =~= gs[g as int].1.push(
                                    *h,
                                ));
                            } else {
                                assert(groups@[x] == before[x]);
                            }
                        }
                    }
                }
            }
        } else {
            let ghost before = groups@;
            let mut members_vec: Vec<&HelperFunction> = Vec::new();
            members_vec.push(h);
            groups.push((key, members_vec));
            proof {
                assert(group_views(groups@) =~= gs.push((key@, seq![*h]))) by {
                    assert forall|x: int| 0 <= x < groups@.len() implies #[trigger] group_views(groups@)[x]
                        == gs.push((key@, seq![*h]))[x] by {
                        if x == before.len() {
                            assert(groups@[x].1@.map_values(|h: &HelperFunction| *h) =~= seq![*h]);
                        } else {
                            assert(groups@[x] == before[x]);
                        }
                    }
                }
            }
        }
        i = i + 1;
    }
    assert(helpers@.subrange(0, i as int) =~= helpers@);
    groups
}

/// The `Cargo.toml` of the generated SWC plugin crate.
pub open spec fn plugin_cargo_toml() -> Seq<char> {
    "[package]\nname = \"swc-generated-plugin\"\nversion = \"0.1.0\"\nedition = \"2021\"\n\n[lib]\ncrate-type = [\"cdylib\", \"rlib\"]\n\n[[bin]]\nname = \"extract-components\"\npath = \"src/main.rs\"\n\n[dependencies]\nswc_common = \"17\"\nswc_ecma_ast = \"18\"\nswc_ecma_parser = \"27\"\nswc_ecma_visit = \"18\"\nserde = { version = \"1\", features = [\"derive\"] }\nserde_json = \"1\"\nregex = \"1\"\nonce_cell = \"1\"\n"@
}

/// Generate the `Cargo.toml` of the SWC plugin crate.
pub fn generate_cargo_toml() -> (r: String)
    ensures
        r@ == plugin_cargo_toml(),
{
    owned("[package]\nname = \"swc-generated-plugin\"\nversion = \"0.1.0\"\nedition = \"2021\"\n\n[lib]\ncrate-type = [\"cdylib\", \"rlib\"]\n\n[[bin]]\nname = \"extract-components\"\npath = \"src/main.rs\"\n\n[dependencies]\nswc_common = \"17\"\nswc_ecma_ast = \"18\"\nswc_ecma_parser = \"27\"\nswc_ecma_visit = \"18\"\nserde = { version = \"1\", features = [\"derive\"] }\nserde_json = \"1\"\nregex = \"1\"\nonce_cell = \"1\"\n")
}

} // verus!
