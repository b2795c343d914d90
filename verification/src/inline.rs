//! Visitor bodies with the plugin's helper functions inlined: a call of a
//! helper is replaced by the helper's body with its parameters bound to the
//! call's arguments, and a helper already being inlined is not entered again.

use vstd::prelude::*;
use crate::strings::{str_eq, owned, joined, joined3};
use crate::text::{join_seq, join_strs, replaced_text, replace_text};
use crate::translate::{
    mapping_for, mapped, snake_case, to_snake_case, js_plain, js_plain_ok, js_to_rust, js_ok, translate_js_to_rust,
    translate_js_to_rust_with_metadata,
};
use crate::condition::{condition_code, condition_ok, translate_condition};
use crate::codegen::{indent_of, max_level, transform_code, transform_ok, generate_transform_code, spaces};
use crate::metadata::PluginMetadata;
use crate::transform::{Transform, HelperFunction};

verus! {

// ===================== helpers by name =====================

/// The helper of the given name; of several, the last.
pub open spec fn helper_named(hs: Seq<HelperFunction>, name: Seq<char>) -> Option<HelperFunction>
    decreases hs.len(),
{
    if hs.len() == 0 {
        None
    } else if hs.last().name@ == name {
        Some(hs.last())
    } else {
        helper_named(hs.drop_last(), name)
    }
}

/// The names of the helpers.
pub open spec fn helper_names(hs: Seq<HelperFunction>) -> Set<Seq<char>> {
    hs.map_values(|h: HelperFunction| h.name@).to_set()
}

/// How many helpers' names are not yet being inlined.
pub open spec fn unvisited(hs: Seq<HelperFunction>, visited: Seq<Seq<char>>) -> nat {
    helper_names(hs).difference(visited.to_set()).len()
}

/// A helper found by name has that name, and the name is among the helpers'.
proof fn lemma_helper_named(hs: Seq<HelperFunction>, name: Seq<char>)
    ensures
        helper_named(hs, name) is Some ==> helper_names(hs).contains(name) && helper_named(hs, name)->0.name@
            == name,
    decreases hs.len(),
{
    if hs.len() > 0 {
        lemma_helper_named(hs.drop_last(), name);
        let names = hs.map_values(|h: HelperFunction| h.name@);
        if hs.last().name@ == name {
            assert(names[hs.len() - 1] == name);
        } else if helper_named(hs.drop_last(), name) is Some {
            let sub = hs.drop_last().map_values(|h: HelperFunction| h.name@);
            let k = choose|k: int| 0 <= k < sub.len() && sub[k] == name;
            assert(names[k] == sub[k]);
        }
    }
}

/// Entering a helper that is not yet being inlined leaves fewer to enter.
proof fn lemma_unvisited_decreases(hs: Seq<HelperFunction>, visited: Seq<Seq<char>>, name: Seq<char>)
    requires
        helper_names(hs).contains(name),
        !visited.contains(name),
    ensures
        unvisited(hs, visited.push(name)) < unvisited(hs, visited),
{
    vstd::seq_lib::seq_to_set_is_finite(hs.map_values(|h: HelperFunction| h.name@));
    Seq::lemma_to_set_insert_commutes(visited, name);
    assert(visited.push(name) =~= visited + seq![name]);
    assert(!visited.to_set().contains(name));
    helper_names(hs).lemma_set_insert_diff_decreases(visited.to_set(), name);
}

// ===================== argument bindings =====================

/// The parameters bound to the arguments at the same positions; a parameter
/// named twice keeps its first position and its last argument.
pub open spec fn arg_bindings(params: Seq<String>, args: Seq<Seq<char>>) -> Seq<(Seq<char>, Seq<char>)>
    decreases params.len(),
{
    if params.len() == 0 {
        Seq::empty()
    } else {
        let b = arg_bindings(params.drop_last(), args);
        let i = params.len() - 1;
        if i < args.len() {
            bind(b, params.last()@, args[i])
        } else {
            b
        }
    }
}

/// Bind `k` to `v`: the binding of `k` is replaced, else a new one is added.
pub open spec fn bind(b: Seq<(Seq<char>, Seq<char>)>, k: Seq<char>, v: Seq<char>) -> Seq<(Seq<char>, Seq<char>)>
    decreases b.len(),
{
    if b.len() == 0 {
        seq![(k, v)]
    } else if b[0].0 == k {
        seq![(k, v)] + b.subrange(1, b.len() as int)
    } else {
        seq![b[0]] + bind(b.subrange(1, b.len() as int), k, v)
    }
}

/// Whether a name is bound.
pub open spec fn bound(b: Seq<(Seq<char>, Seq<char>)>, x: Seq<char>) -> bool {
    exists|i: int| 0 <= i < b.len() && #[trigger] b[i].0 == x
}

/// No name is bound twice.
pub open spec fn distinct_names(b: Seq<(Seq<char>, Seq<char>)>) -> bool {
    forall|i: int, j: int| 0 <= i < j < b.len() ==> #[trigger] b[i].0 != #[trigger] b[j].0
}

/// Binding a name keeps names distinct, binds exactly the old names and the
/// new one, and gives the new one its value.
proof fn lemma_bind(b: Seq<(Seq<char>, Seq<char>)>, k: Seq<char>, v: Seq<char>)
    requires
        distinct_names(b),
    ensures
        distinct_names(bind(b, k, v)),
        forall|x: Seq<char>| #[trigger] bound(bind(b, k, v), x) <==> (x == k || bound(b, x)),
        exists|i: int| 0 <= i < bind(b, k, v).len() && #[trigger] bind(b, k, v)[i] == (k, v),
    decreases b.len(),
{
    let r = bind(b, k, v);
    if b.len() == 0 {
        assert(r[0] == (k, v));
        assert forall|x: Seq<char>| #[trigger] bound(r, x) <==> (x == k || bound(b, x)) by {
            if x == k {
                assert(r[0].0 == x);
            }
        }
    } else {
        let rest = b.subrange(1, b.len() as int);
        assert forall|i: int, j: int| 0 <= i < j < rest.len() implies #[trigger] rest[i].0 != #[trigger] rest[j].0 by {
            assert(rest[i] == b[i + 1] && rest[j] == b[j + 1]);
        }
        if b[0].0 == k {
            assert(r[0] == (k, v));
            assert forall|i: int, j: int| 0 <= i < j < r.len() implies #[trigger] r[i].0 != #[trigger] r[j].0 by {
                if i == 0 {
                    assert(r[j] == b[j]);
                } else {
                    assert(r[i] == b[i] && r[j] == b[j]);
                }
            }
            assert forall|x: Seq<char>| #[trigger] bound(r, x) <==> (x == k || bound(b, x)) by {
                if exists|j: int| 0 <= j < b.len() && #[trigger] b[j].0 == x {
                    let j = choose|j: int| 0 <= j < b.len() && #[trigger] b[j].0 == x;
                    if j == 0 {
                        assert(r[0].0 == x);
                    } else {
                        assert(r[j] == b[j]);
                    }
                }
                if exists|i: int| 0 <= i < r.len() && #[trigger] r[i].0 == x {
                    let i = choose|i: int| 0 <= i < r.len() && #[trigger] r[i].0 == x;
                    if i > 0 {
                        assert(r[i] == b[i]);
                    }
                }
            }
        } else {
            lemma_bind(rest, k, v);
            let rr = bind(rest, k, v);
            assert(r == seq![b[0]] + rr);
            assert(forall|i: int| 0 <= i < rr.len() ==> #[trigger] r[i + 1] == rr[i]);
            assert(b[0].0 != k);
            assert(forall|j: int| 0 <= j < rest.len() ==> #[trigger] rest[j].0 != b[0].0) by {
                assert forall|j: int| 0 <= j < rest.len() implies #[trigger] rest[j].0 != b[0].0 by {
                    assert(rest[j] == b[j + 1]);
                }
            }
            assert forall|i: int, j: int| 0 <= i < j < r.len() implies #[trigger] r[i].0 != #[trigger] r[j].0 by {
                if i == 0 {
                    assert(r[j] == rr[j - 1]);
                    let x = rr[j - 1].0;
                    assert(bound(rr, x));
                } else {
                    assert(r[i] == rr[i - 1] && r[j] == rr[j - 1]);
                }
            }
            assert forall|x: Seq<char>| #[trigger] bound(r, x) <==> (x == k || bound(b, x)) by {
                if exists|j: int| 0 <= j < b.len() && #[trigger] b[j].0 == x {
                    let j = choose|j: int| 0 <= j < b.len() && #[trigger] b[j].0 == x;
                    if j == 0 {
                        assert(r[0].0 == x);
                    } else {
                        assert(rest[j - 1].0 == x);
                        assert(bound(rest, x));
                        assert(bound(rr, x));
                        let q = choose|q: int| 0 <= q < rr.len() && #[trigger] rr[q].0 == x;
                        assert(r[q + 1].0 == x);
                    }
                }
                if x == k {
                    assert(bound(rr, x));
                    let q = choose|q: int| 0 <= q < rr.len() && #[trigger] rr[q].0 == x;
                    assert(r[q + 1].0 == x);
                }
                if exists|i: int| 0 <= i < r.len() && #[trigger] r[i].0 == x {
                    let i = choose|i: int| 0 <= i < r.len() && #[trigger] r[i].0 == x;
                    if i > 0 {
                        assert(rr[i - 1].0 == x);
                        assert(bound(rr, x));
                        if x != k {
                            assert(bound(rest, x));
                            let j = choose|j: int| 0 <= j < rest.len() && #[trigger] rest[j].0 == x;
                            assert(b[j + 1].0 == x);
                        }
                    }
                }
            }
            let q = choose|q: int| 0 <= q < rr.len() && #[trigger] rr[q] == (k, v);
            assert(r[q + 1] == (k, v));
        }
    }
}

/// A helper's parameters bound to a call's arguments bind no name twice, so
/// each parameter stands for one argument.
pub proof fn law_bindings_distinct(params: Seq<String>, args: Seq<Seq<char>>)
    ensures
        distinct_names(arg_bindings(params, args)),
    decreases params.len(),
{
    if params.len() > 0 {
        law_bindings_distinct(params.drop_last(), args);
        let i = params.len() - 1;
        if i < args.len() {
            lemma_bind(arg_bindings(params.drop_last(), args), params.last()@, args[i]);
        }
    }
}

/// `x` placed after every binding whose name is at least as long.
pub open spec fn insert_by_len(sorted: Seq<(Seq<char>, Seq<char>)>, x: (Seq<char>, Seq<char>)) -> Seq<
    (Seq<char>, Seq<char>),
>
    decreases sorted.len(),
{
    if sorted.len() == 0 {
        seq![x]
    } else if sorted[0].0.len() >= x.0.len() {
        seq![sorted[0]] + insert_by_len(sorted.subrange(1, sorted.len() as int), x)
    } else {
        seq![x] + sorted
    }
}

/// The bindings, longest names first, in their order where names are as long.
pub open spec fn by_len(b: Seq<(Seq<char>, Seq<char>)>) -> Seq<(Seq<char>, Seq<char>)>
    decreases b.len(),
{
    if b.len() == 0 {
        Seq::empty()
    } else {
        insert_by_len(by_len(b.drop_last()), b.last())
    }
}

/// Each binding's name replaced by its value in turn.
pub open spec fn replace_each(e: Seq<char>, b: Seq<(Seq<char>, Seq<char>)>) -> Seq<char>
    decreases b.len(),
{
    if b.len() == 0 {
        e
    } else {
        replaced_text(replace_each(e, b.drop_last()), b.last().0, b.last().1)
    }
}

/// An expression with the parameters replaced by their arguments, longest
/// names first.
pub open spec fn substituted(e: Seq<char>, b: Seq<(Seq<char>, Seq<char>)>) -> Seq<char> {
    replace_each(e, by_len(b))
}

/// Bind `k` to `v`.
fn bind_exec(b: &mut Vec<(String, String)>, k: &str, v: &str)
    ensures
        final(b)@.map_values(|x: (String, String)| (x.0@, x.1@)) == bind(
            old(b)@.map_values(|x: (String, String)| (x.0@, x.1@)),
            k@,
            v@,
        ),
{
    let ghost views = b@.map_values(|x: (String, String)| (x.0@, x.1@));
    let mut i: usize = 0;
    assert(views.subrange(0, views.len() as int) =~= views);
    assert(views.subrange(0, 0) + bind(views, k@, v@) =~= bind(views, k@, v@));
    while i < b.len()
        invariant
            i <= b@.len(),
            views == b@.map_values(|x: (String, String)| (x.0@, x.1@)),
            views == old(b)@.map_values(|x: (String, String)| (x.0@, x.1@)),
            forall|j: int| 0 <= j < i ==> views[j].0 != k@,
            bind(views, k@, v@) == views.subrange(0, i as int) + bind(views.subrange(i as int, views.len() as int), k@, v@),
        decreases b@.len() - i,
    {
        assert(views[i as int] == (b@[i as int].0@, b@[i as int].1@));
        let ghost rest = views.subrange(i as int, views.len() as int);
        assert(rest[0] == views[i as int]);
        assert(rest.subrange(1, rest.len() as int) =~= views.subrange(i + 1, views.len() as int));
        if str_eq(b[i].0.as_str(), k) {
            b.set(i, (owned(k), owned(v)));
            assert(b@.map_values(|x: (String, String)| (x.0@, x.1@)) =~= views.subrange(0, i as int) + (seq![(k@, v@)]
                + views.subrange(i + 1, views.len() as int)));
            return;
        }
        assert(views.subrange(0, i as int) + (seq![views[i as int]] + bind(views.subrange(i + 1, views.len() as int), k@, v@))
            =~= views.subrange(0, i + 1) + bind(views.subrange(i + 1, views.len() as int), k@, v@));
        i = i + 1;
    }
    b.push((owned(k), owned(v)));
    assert(b@.map_values(|x: (String, String)| (x.0@, x.1@)) =~= views.subrange(0, i as int) + seq![(k@, v@)]);
}

/// The parameters bound to the arguments at the same positions.
fn arg_bindings_exec(params: &Vec<String>, args: &Vec<String>) -> (r: Vec<(String, String)>)
    ensures
        r@.map_values(|x: (String, String)| (x.0@, x.1@)) == arg_bindings(
            params@,
            args@.map_values(|a: String| a@),
        ),
{
    let ghost argv = args@.map_values(|a: String| a@);
    let mut out: Vec<(String, String)> = Vec::new();
    let mut i: usize = 0;
    while i < params.len()
        invariant
            i <= params@.len(),
            argv == args@.map_values(|a: String| a@),
            out@.map_values(|x: (String, String)| (x.0@, x.1@)) == arg_bindings(params@.subrange(0, i as int), argv),
        decreases params@.len() - i,
    {
        proof {
            assert(params@.subrange(0, i + 1).drop_last() =~= params@.subrange(0, i as int));
        }
        if i < args.len() {
            assert(argv[i as int] == args@[i as int]@);
            bind_exec(&mut out, params[i].as_str(), args[i].as_str());
        }
        i = i + 1;
    }
    assert(params@.subrange(0, i as int) =~= params@);
    out
}

/// `x` placed after every binding whose name is at least as long.
fn insert_by_len_exec(sorted: Vec<(String, String)>, x: (String, String)) -> (r: Vec<(String, String)>)
    ensures
        r@.map_values(|b: (String, String)| (b.0@, b.1@)) == insert_by_len(
            sorted@.map_values(|b: (String, String)| (b.0@, b.1@)),
            (x.0@, x.1@),
        ),
{
    let ghost views = sorted@.map_values(|b: (String, String)| (b.0@, b.1@));
    let xl = x.0.unicode_len();
    let mut i: usize = 0;
    assert(views.subrange(0, views.len() as int) =~= views);
    assert(views.subrange(0, 0) + insert_by_len(views, (x.0@, x.1@)) =~= insert_by_len(views, (x.0@, x.1@)));
    while i < sorted.len()
        invariant
            i <= sorted@.len(),
            xl == x.0@.len(),
            views == sorted@.map_values(|b: (String, String)| (b.0@, b.1@)),
            insert_by_len(views, (x.0@, x.1@)) == views.subrange(0, i as int) + insert_by_len(
                views.subrange(i as int, views.len() as int),
                (x.0@, x.1@),
            ),
        ensures
            i == sorted@.len() || views[i as int].0.len() < xl,
        decreases sorted@.len() - i,
    {
        assert(views[i as int] == (sorted@[i as int].0@, sorted@[i as int].1@));
        let ghost rest = views.subrange(i as int, views.len() as int);
        assert(rest[0] == views[i as int]);
        assert(rest.subrange(1, rest.len() as int) =~= views.subrange(i + 1, views.len() as int));
        if sorted[i].0.unicode_len() < xl {
            break;
        }
        assert(views.subrange(0, i as int) + (seq![views[i as int]] + insert_by_len(
            views.subrange(i + 1, views.len() as int),
            (x.0@, x.1@),
        )) =~= views.subrange(0, i + 1) + insert_by_len(views.subrange(i + 1, views.len() as int), (x.0@, x.1@)));
        i = i + 1;
    }
    let ghost xv = (x.0@, x.1@);
    proof {
        let rest = views.subrange(i as int, views.len() as int);
        if i < views.len() {
            assert(rest[0] == views[i as int]);
            assert(insert_by_len(rest, xv) == seq![xv] + rest);
        } else {
            assert(rest.len() == 0);
            assert(insert_by_len(rest, xv) == seq![xv]);
        }
    }
    let mut out = sorted;
    out.insert(i, x);
    assert(out@.map_values(|b: (String, String)| (b.0@, b.1@)) =~= views.subrange(0, i as int) + insert_by_len(
        views.subrange(i as int, views.len() as int),
        xv,
    ));
    out
}

/// An expression with the parameters replaced by their arguments.
pub fn substitute_arg(expr: &str, bindings: &Vec<(String, String)>) -> (r: String)
    ensures
        r@ == substituted(expr@, bindings@.map_values(|x: (String, String)| (x.0@, x.1@))),
{
    let ghost views = bindings@.map_values(|x: (String, String)| (x.0@, x.1@));
    let mut sorted: Vec<(String, String)> = Vec::new();
    let mut i: usize = 0;
    while i < bindings.len()
        invariant
            i <= bindings@.len(),
            views == bindings@.map_values(|x: (String, String)| (x.0@, x.1@)),
            sorted@.map_values(|x: (String, String)| (x.0@, x.1@)) == by_len(views.subrange(0, i as int)),
        decreases bindings@.len() - i,
    {
        proof {
            assert(views.subrange(0, i + 1).drop_last() =~= views.subrange(0, i as int));
            assert(views[i as int] == (bindings@[i as int].0@, bindings@[i as int].1@));
        }
        let x = (owned(bindings[i].0.as_str()), owned(bindings[i].1.as_str()));
        sorted = insert_by_len_exec(sorted, x);
        i = i + 1;
    }
    assert(views.subrange(0, i as int) =~= views);
    let ghost sv = sorted@.map_values(|x: (String, String)| (x.0@, x.1@));
    let mut out = owned(expr);
    let mut k: usize = 0;
    while k < sorted.len()
        invariant
            k <= sorted@.len(),
            sv == sorted@.map_values(|x: (String, String)| (x.0@, x.1@)),
            out@ == replace_each(expr@, sv.subrange(0, k as int)),
        decreases sorted@.len() - k,
    {
        proof {
            assert(sv.subrange(0, k + 1).drop_last() =~= sv.subrange(0, k as int));
            assert(sv[k as int] == (sorted@[k as int].0@, sorted@[k as int].1@));
        }
        out = replace_text(out.as_str(), sorted[k].0.as_str(), sorted[k].1.as_str());
        k = k + 1;
    }
    assert(sv.subrange(0, k as int) =~= sv);
    out
}

// ===================== inlining =====================

/// The number of transforms in a transform, counting those it holds.
pub open spec fn tsize(t: Transform) -> nat
    decreases t, 0int,
{
    match t {
        Transform::Conditional { then_transforms, else_transforms, .. } => 1 + tlist_size(then_transforms@, 0)
            + match else_transforms {
            Some(e) => tlist_size(e@, 0),
            None => 0,
        },
        Transform::ForOfLoop { body_transforms, .. } => 1 + tlist_size(body_transforms@, 0),
        _ => 1,
    }
}

/// A transform counts at least itself.
pub proof fn lemma_tsize_pos(t: Transform)
    ensures
        tsize(t) >= 1,
{
}

/// The transforms from `i` on count at least as many as any one of them.
proof fn lemma_tlist_ge(ts: Seq<Transform>, i: int, k: int)
    requires
        0 <= i <= k < ts.len(),
    ensures
        tlist_size(ts, i) >= tsize(ts[k]),
    decreases k - i,
{
    if i < k {
        lemma_tlist_ge(ts, i + 1, k);
    }
}

/// The number of transforms in the transforms from the `i`-th on.
pub open spec fn tlist_size(ts: Seq<Transform>, i: int) -> nat
    decreases ts, ts.len() - i,
{
    if 0 <= i < ts.len() {
        tsize(ts[i]) + tlist_size(ts, i + 1)
    } else {
        0
    }
}

/// The texts of strings.
pub open spec fn strs(v: Seq<String>) -> Seq<Seq<char>> {
    v.map_values(|x: String| x@)
}

/// Each argument translated and its parameters replaced.
pub open spec fn subst_args(args: Seq<String>, bs: Seq<(Seq<char>, Seq<char>)>) -> Seq<Seq<char>>
    decreases args.len(),
{
    if args.len() == 0 {
        Seq::empty()
    } else {
        subst_args(args.drop_last(), bs).push(substituted(js_plain(args.last()@), bs))
    }
}

/// The Rust lines for one transform with parameters bound to arguments and
/// helper calls inlined.
pub open spec fn bound_code(
    t: Transform,
    bs: Seq<(Seq<char>, Seq<char>)>,
    hs: Seq<HelperFunction>,
    level: int,
    visited: Seq<Seq<char>>,
    m: Option<&PluginMetadata>,
) -> Seq<char>
    decreases unvisited(hs, visited), 1int, tsize(t), 0int,
{
    let ind = indent_of(level);
    match t {
        Transform::FunctionCall { name, args } => {
            let rust_name = snake_case(name@);
            if helper_named(hs, name@) is Some {
                inline_code(name@, subst_args(args@, bs), hs, level, visited, m)
            } else if rust_name == "get_component_name"@ {
                ind + "let component_name = self.get_component_name_from_context(n.ident.is_some(), n.ident.as_ref().map(|i| i.sym.as_ref()));\n"@
            } else if rust_name == "escape_c_sharp_string"@ {
                ind + "self.escape_c_sharp_string("@ + join_seq(subst_args(args@, bs), ", "@) + ");\n"@
            } else if rust_name == "ts_type_to_c_sharp_type"@ || rust_name == "infer_type"@ {
                ind + "// TODO: translate "@ + rust_name + "(...);\n"@
            } else {
                ind + rust_name + "("@ + join_seq(subst_args(args@, bs), ", "@) + ");\n"@
            }
        },
        Transform::VariableDeclaration { name, value, is_destructured } => {
            let rust_name = match mapping_for(m, name@) {
                Some(v) => v,
                None => snake_case(name@),
            };
            let v = substituted(js_to_rust(value@, m), bs);
            if is_destructured {
                ind + "// Destructured: let "@ + rust_name + " = "@ + v + ";\n"@
            } else if v == "vec![]"@ {
                ind + "let "@ + rust_name + ": Vec<String> = "@ + v + ";\n"@
            } else {
                ind + "let "@ + rust_name + " = "@ + v + ";\n"@
            }
        },
        Transform::Conditional { condition, then_transforms, else_transforms } => {
            let cond = substituted(condition_code(condition@, m), bs);
            let tail = match else_transforms {
                Some(e) => " else {\n"@ + bound_list(e@, 0, bs, hs, level + 1, visited, m) + ind + "}"@,
                None => Seq::empty(),
            };
            ind + "if "@ + cond + " {\n"@ + bound_list(then_transforms@, 0, bs, hs, level + 1, visited, m) + ind
                + "}"@ + tail + "\n"@
        },
        _ => transform_code(t, level, None),
    }
}

/// The Rust lines for the transforms from the `i`-th on, bound and inlined.
pub open spec fn bound_list(
    ts: Seq<Transform>,
    i: int,
    bs: Seq<(Seq<char>, Seq<char>)>,
    hs: Seq<HelperFunction>,
    level: int,
    visited: Seq<Seq<char>>,
    m: Option<&PluginMetadata>,
) -> Seq<char>
    decreases unvisited(hs, visited), 1int, tlist_size(ts, i), 1int,
{
    if 0 <= i < ts.len() {
        proof {
            lemma_tsize_pos(ts[i]);
        }
        bound_code(ts[i], bs, hs, level, visited, m) + bound_list(ts, i + 1, bs, hs, level, visited, m)
    } else {
        Seq::empty()
    }
}

/// A helper call inlined: the helper's body with its parameters bound to the
/// arguments; a helper already being inlined, or one not found, is named in
/// a comment instead.
pub open spec fn inline_code(
    name: Seq<char>,
    args: Seq<Seq<char>>,
    hs: Seq<HelperFunction>,
    level: int,
    visited: Seq<Seq<char>>,
    m: Option<&PluginMetadata>,
) -> Seq<char>
    decreases unvisited(hs, visited), 0int, 0nat, 0int,
{
    if visited.contains(name) {
        spaces(level * 4) + "// Recursive call to "@ + name + " detected, skipping inline\n"@
    } else {
        match helper_named(hs, name) {
            Some(h) => if unvisited(hs, visited.push(name)) < unvisited(hs, visited) {
                bound_list(h.transforms@, 0, arg_bindings(h.params@, args), hs, level, visited.push(name), m)
            } else {
                Seq::empty()
            },
            None => spaces(level * 4) + "// TODO: helper '"@ + name + "' not found in helpers map\n"@,
        }
    }
}

/// Whether every argument can be translated.
pub open spec fn args_ok(args: Seq<String>) -> bool {
    forall|k: int| 0 <= k < args.len() ==> js_plain_ok(#[trigger] args[k]@)
}

/// Whether the lines for a transform can be generated with inlining.
pub open spec fn bound_ok(
    t: Transform,
    bs: Seq<(Seq<char>, Seq<char>)>,
    hs: Seq<HelperFunction>,
    level: int,
    visited: Seq<Seq<char>>,
    m: Option<&PluginMetadata>,
) -> bool
    decreases unvisited(hs, visited), 1int, tsize(t), 0int,
{
    &&& 0 <= level <= max_level()
    &&& match t {
        Transform::FunctionCall { name, args } => {
            let rust_name = snake_case(name@);
            if helper_named(hs, name@) is Some {
                args_ok(args@) && inline_ok(name@, subst_args(args@, bs), hs, level, visited, m)
            } else if rust_name == "get_component_name"@ || rust_name == "ts_type_to_c_sharp_type"@ || rust_name
                == "infer_type"@ {
                true
            } else {
                args_ok(args@)
            }
        },
        Transform::VariableDeclaration { value, .. } => js_ok(value@, m),
        Transform::Conditional { condition, then_transforms, else_transforms } => condition_ok(condition@, m)
            && bound_list_ok(then_transforms@, 0, bs, hs, level + 1, visited, m) && match else_transforms {
            Some(e) => bound_list_ok(e@, 0, bs, hs, level + 1, visited, m),
            None => true,
        },
        _ => transform_ok(t, level, None),
    }
}

/// Whether the lines for each transform from the `i`-th on can be generated.
pub open spec fn bound_list_ok(
    ts: Seq<Transform>,
    i: int,
    bs: Seq<(Seq<char>, Seq<char>)>,
    hs: Seq<HelperFunction>,
    level: int,
    visited: Seq<Seq<char>>,
    m: Option<&PluginMetadata>,
) -> bool
    decreases unvisited(hs, visited), 1int, tlist_size(ts, i), 1int,
{
    0 <= i < ts.len() ==> bound_ok(ts[i], bs, hs, level, visited, m) && ({
        proof {
            lemma_tsize_pos(ts[i]);
        }
        true
    }) && bound_list_ok(
        ts,
        i + 1,
        bs,
        hs,
        level,
        visited,
        m,
    )
}

/// Whether a helper call can be inlined.
pub open spec fn inline_ok(
    name: Seq<char>,
    args: Seq<Seq<char>>,
    hs: Seq<HelperFunction>,
    level: int,
    visited: Seq<Seq<char>>,
    m: Option<&PluginMetadata>,
) -> bool
    decreases unvisited(hs, visited), 0int, 0nat, 0int,
{
    &&& 0 <= level <= max_level()
    &&& !visited.contains(name) ==> match helper_named(hs, name) {
        Some(h) => unvisited(hs, visited.push(name)) < unvisited(hs, visited) ==> bound_list_ok(
            h.transforms@,
            0,
            arg_bindings(h.params@, args),
            hs,
            level,
            visited.push(name),
            m,
        ),
        None => true,
    }
}

/// The helper of the given name; of several, the last.
fn find_helper<'a>(hs: &'a Vec<HelperFunction>, name: &str) -> (r: Option<&'a HelperFunction>)
    ensures
        match r {
            Some(h) => helper_named(hs@, name@) == Some(*h),
            None => helper_named(hs@, name@) is None,
        },
{
    let mut k: usize = hs.len();
    assert(hs@.subrange(0, hs@.len() as int) =~= hs@);
    while k > 0
        invariant
            k <= hs@.len(),
            helper_named(hs@, name@) == helper_named(hs@.subrange(0, k as int), name@),
        decreases k,
    {
        proof {
            assert(hs@.subrange(0, k as int).drop_last() =~= hs@.subrange(0, k - 1));
            assert(hs@.subrange(0, k as int).last() == hs@[k - 1]);
        }
        if str_eq(hs[k - 1].name.as_str(), name) {
            return Some(&hs[k - 1]);
        }
        k = k - 1;
    }
    None
}

/// Whether a name is among the texts.
fn contains_name(v: &Vec<String>, name: &str) -> (r: bool)
    ensures
        r == strs(v@).contains(name@),
{
    let mut k: usize = 0;
    while k < v.len()
        invariant
            k <= v@.len(),
            forall|j: int| 0 <= j < k ==> strs(v@)[j] != name@,
        decreases v@.len() - k,
    {
        assert(strs(v@)[k as int] == v@[k as int]@);
        if str_eq(v[k].as_str(), name) {
            return true;
        }
        k = k + 1;
    }
    false
}

/// Each argument translated and its parameters replaced.
fn subst_args_exec(args: &Vec<String>, bindings: &Vec<(String, String)>) -> (r: Vec<String>)
    requires
        args_ok(args@),
    ensures
        strs(r@) == subst_args(args@, bindings@.map_values(|x: (String, String)| (x.0@, x.1@))),
{
    let ghost bs = bindings@.map_values(|x: (String, String)| (x.0@, x.1@));
    let mut out: Vec<String> = Vec::new();
    let mut k: usize = 0;
    while k < args.len()
        invariant
            k <= args@.len(),
            args_ok(args@),
            bs == bindings@.map_values(|x: (String, String)| (x.0@, x.1@)),
            strs(out@) == subst_args(args@.subrange(0, k as int), bs),
        decreases args@.len() - k,
    {
        proof {
            assert(args@.subrange(0, k + 1).drop_last() =~= args@.subrange(0, k as int));
        }
        let t = translate_js_to_rust(args[k].as_str());
        let x = substitute_arg(t.as_str(), bindings);
        let ghost before = out@;
        out.push(x);
        assert(strs(out@) =~= strs(before).push(x@));
        k = k + 1;
    }
    assert(args@.subrange(0, k as int) =~= args@);
    out
}

/// Generate the Rust lines for one transform with the parameters bound to
/// their arguments and calls of the plugin's helpers inlined.
#[verifier::spinoff_prover]
#[verifier::rlimit(50)]
pub fn generate_transform_with_bindings(
    transform: &Transform,
    arg_bindings: &Vec<(String, String)>,
    helpers: &Vec<HelperFunction>,
    indent: usize,
    visited: &mut Vec<String>,
    metadata: Option<&PluginMetadata>,
) -> (r: String)
    requires
        bound_ok(
            *transform,
            arg_bindings@.map_values(|x: (String, String)| (x.0@, x.1@)),
            helpers@,
            indent as int,
            strs(old(visited)@),
            metadata,
        ),
    ensures
        final(visited)@ == old(visited)@,
        r@ == bound_code(
            *transform,
            arg_bindings@.map_values(|x: (String, String)| (x.0@, x.1@)),
            helpers@,
            indent as int,
            strs(old(visited)@),
            metadata,
        ),
    decreases unvisited(helpers@, strs(old(visited)@)), 1int, tsize(*transform), 0int,
{
    let ghost bs = arg_bindings@.map_values(|x: (String, String)| (x.0@, x.1@));
    let ind = crate::codegen::indent_string(indent);
    let i = ind.as_str();
    match transform {
        Transform::FunctionCall { name, args } => {
            proof {
                reveal_strlit("get_component_name");
                reveal_strlit("escape_c_sharp_string");
                reveal_strlit("ts_type_to_c_sharp_type");
                reveal_strlit("infer_type");
            }
            let rust_name = to_snake_case(name.as_str());
            if find_helper(helpers, name.as_str()).is_some() {
                let sargs = subst_args_exec(args, arg_bindings);
                return inline_helper_call(name.as_str(), &sargs, helpers, indent, visited, metadata);
            }
            if str_eq(rust_name.as_str(), "get_component_name") {
                joined(
                    i,
                    "let component_name = self.get_component_name_from_context(n.ident.is_some(), n.ident.as_ref().map(|i| i.sym.as_ref()));\n",
                )
            } else if str_eq(rust_name.as_str(), "escape_c_sharp_string") {
                assert(rust_name@.len() == 21);
                assert(rust_name@ != "get_component_name"@);
                assert(rust_name@ != "ts_type_to_c_sharp_type"@);
                assert(rust_name@ != "infer_type"@);
                let sargs = subst_args_exec(args, arg_bindings);
                let joined_args = join_strs(&sargs, ", ");
                joined3(i, "self.escape_c_sharp_string(", joined(joined_args.as_str(), ");\n").as_str())
            } else if str_eq(rust_name.as_str(), "ts_type_to_c_sharp_type") || str_eq(rust_name.as_str(), "infer_type") {
                joined3(i, "// TODO: translate ", joined(rust_name.as_str(), "(...);\n").as_str())
            } else {
                let sargs = subst_args_exec(args, arg_bindings);
                let joined_args = join_strs(&sargs, ", ");
                let head = joined3(i, rust_name.as_str(), "(");
                joined3(head.as_str(), joined_args.as_str(), ");\n")
            }
        },
        Transform::VariableDeclaration { name, value, is_destructured } => {
            let rust_name = match mapped(metadata, name.as_str()) {
                Some(v) => owned(v),
                None => to_snake_case(name.as_str()),
            };
            let t = translate_js_to_rust_with_metadata(value.as_str(), metadata);
            let v = substitute_arg(t.as_str(), arg_bindings);
            if *is_destructured {
                let head = joined3(i, "// Destructured: let ", rust_name.as_str());
                joined3(head.as_str(), " = ", joined(v.as_str(), ";\n").as_str())
            } else if str_eq(v.as_str(), "vec![]") {
                let head = joined3(i, "let ", rust_name.as_str());
                joined3(head.as_str(), ": Vec<String> = ", joined(v.as_str(), ";\n").as_str())
            } else {
                let head = joined3(i, "let ", rust_name.as_str());
                joined3(head.as_str(), " = ", joined(v.as_str(), ";\n").as_str())
            }
        },
        Transform::Conditional { condition, then_transforms, else_transforms } => {
            let c = translate_condition(condition.as_str(), metadata);
            let cond = substitute_arg(c.as_str(), arg_bindings);
            let then_code = bound_list_exec(then_transforms, arg_bindings, helpers, indent + 1, visited, metadata);
            let tail = match else_transforms {
                Some(e) => {
                    let else_code = bound_list_exec(e, arg_bindings, helpers, indent + 1, visited, metadata);
                    joined3(" else {\n", else_code.as_str(), joined(i, "}").as_str())
                },
                None => String::new(),
            };
            let head = joined3(i, "if ", joined(cond.as_str(), " {\n").as_str());
            let head = joined3(head.as_str(), then_code.as_str(), joined(i, "}").as_str());
            joined3(head.as_str(), tail.as_str(), "\n")
        },
        _ => generate_transform_code(transform, indent, None),
    }
}

/// The Rust lines for the transforms, bound and inlined, one after another.
fn bound_list_exec(
    ts: &Vec<Transform>,
    arg_bindings: &Vec<(String, String)>,
    helpers: &Vec<HelperFunction>,
    indent: usize,
    visited: &mut Vec<String>,
    metadata: Option<&PluginMetadata>,
) -> (r: String)
    requires
        bound_list_ok(
            ts@,
            0,
            arg_bindings@.map_values(|x: (String, String)| (x.0@, x.1@)),
            helpers@,
            indent as int,
            strs(old(visited)@),
            metadata,
        ),
    ensures
        final(visited)@ == old(visited)@,
        r@ == bound_list(
            ts@,
            0,
            arg_bindings@.map_values(|x: (String, String)| (x.0@, x.1@)),
            helpers@,
            indent as int,
            strs(old(visited)@),
            metadata,
        ),
    decreases unvisited(helpers@, strs(old(visited)@)), 1int, tlist_size(ts@, 0), 1int,
{
    let ghost bs = arg_bindings@.map_values(|x: (String, String)| (x.0@, x.1@));
    let ghost vis = strs(visited@);
    let mut out = String::new();
    let mut k: usize = 0;
    while k < ts.len()
        invariant
            k <= ts@.len(),
            bs == arg_bindings@.map_values(|x: (String, String)| (x.0@, x.1@)),
            visited@ == old(visited)@,
            vis == strs(visited@),
            bound_list_ok(ts@, k as int, bs, helpers@, indent as int, vis, metadata),
            out@ + bound_list(ts@, k as int, bs, helpers@, indent as int, vis, metadata) == bound_list(
                ts@,
                0,
                bs,
                helpers@,
                indent as int,
                vis,
                metadata,
            ),
        decreases ts@.len() - k,
    {
        proof {
            lemma_tlist_ge(ts@, 0, k as int);
        }
        let piece = generate_transform_with_bindings(&ts[k], arg_bindings, helpers, indent, visited, metadata);
        let ghost before = out@;
        out = joined(out.as_str(), piece.as_str());
        assert(out@ + bound_list(ts@, k + 1, bs, helpers@, indent as int, vis, metadata) =~= before + bound_list(
            ts@,
            k as int,
            bs,
            helpers@,
            indent as int,
            vis,
            metadata,
        ));
        k = k + 1;
    }
    assert(out@ + Seq::<char>::empty() =~= out@);
    out
}

/// Inline a helper call: the helper's body with its parameters bound to the
/// arguments; a helper already being inlined, or one not found, is named in
/// a comment instead.
pub fn inline_helper_call(
    helper_name: &str,
    args: &Vec<String>,
    helpers: &Vec<HelperFunction>,
    indent: usize,
    visited: &mut Vec<String>,
    metadata: Option<&PluginMetadata>,
) -> (r: String)
    requires
        inline_ok(helper_name@, strs(args@), helpers@, indent as int, strs(old(visited)@), metadata),
    ensures
        final(visited)@ == old(visited)@,
        r@ == inline_code(helper_name@, strs(args@), helpers@, indent as int, strs(old(visited)@), metadata),
    decreases unvisited(helpers@, strs(old(visited)@)), 0int, 0nat, 0int,
{
    let ind = crate::codegen::indent_string(indent);
    if contains_name(visited, helper_name) {
        let head = joined3(ind.as_str(), "// Recursive call to ", helper_name);
        return joined(head.as_str(), " detected, skipping inline\n");
    }
    match find_helper(helpers, helper_name) {
        None => {
            let head = joined3(ind.as_str(), "// TODO: helper '", helper_name);
            joined(head.as_str(), "' not found in helpers map\n")
        },
        Some(h) => {
            proof {
                lemma_helper_named(helpers@, helper_name@);
                lemma_unvisited_decreases(helpers@, strs(visited@), helper_name@);
            }
            let bindings = arg_bindings_exec(&h.params, args);
            let ghost before = visited@;
            visited.push(owned(helper_name));
            assert(strs(visited@) =~= strs(before).push(helper_name@));
            let code = bound_list_exec(&h.transforms, &bindings, helpers, indent, visited, metadata);
            visited.pop();
            assert(visited@ =~= before);
            code
        },
    }
}

// ===================== visitor methods =====================

/// The SWC `VisitMut` method and node type for a Babel visitor, if known.
pub open spec fn visit_mut_target(visitor: Seq<char>) -> Option<(Seq<char>, Seq<char>)> {
    if visitor == "FunctionDeclaration"@ {
        Some(("visit_mut_fn_decl"@, "FnDecl"@))
    } else if visitor == "ArrowFunctionExpression"@ {
        Some(("visit_mut_arrow_expr"@, "ArrowExpr"@))
    } else if visitor == "VariableDeclarator"@ {
        Some(("visit_mut_var_declarator"@, "VarDeclarator"@))
    } else if visitor == "CallExpression"@ {
        Some(("visit_mut_call_expr"@, "CallExpr"@))
    } else if visitor == "JSXElement"@ {
        Some(("visit_mut_jsx_element"@, "JSXElement"@))
    } else {
        None
    }
}

/// The `VisitMut` method for a Babel visitor with its helper calls inlined.
pub open spec fn visitor_method_code(
    name: Seq<char>,
    ts: Seq<Transform>,
    hs: Seq<HelperFunction>,
    m: Option<&PluginMetadata>,
) -> Seq<char> {
    match visit_mut_target(name) {
        Some((method, node)) => "    fn "@ + method + "(&mut self, n: &mut "@ + node + ") {\n"@ + bound_list(
            ts,
            0,
            Seq::empty(),
            hs,
            2,
            Seq::empty(),
            m,
        ) + "        n.visit_mut_children_with(self);\n"@ + "    }\n\n"@,
        None => "    // TODO: Unknown visitor method: "@ + name + "\n"@,
    }
}

/// Whether the method for a Babel visitor can be generated with inlining.
pub open spec fn visitor_method_ok(name: Seq<char>, ts: Seq<Transform>, hs: Seq<HelperFunction>, m: Option<&PluginMetadata>) -> bool {
    visit_mut_target(name) is Some ==> bound_list_ok(ts, 0, Seq::empty(), hs, 2, Seq::empty(), m)
}

/// The SWC `VisitMut` method and node type for a Babel visitor.
fn visit_mut_target_exec(visitor: &str) -> (r: Option<(&'static str, &'static str)>)
    ensures
        match r {
            Some((a, b)) => visit_mut_target(visitor@) == Some((a@, b@)),
            None => visit_mut_target(visitor@) is None,
        },
{
    if str_eq(visitor, "FunctionDeclaration") {
        Some(("visit_mut_fn_decl", "FnDecl"))
    } else if str_eq(visitor, "ArrowFunctionExpression") {
        Some(("visit_mut_arrow_expr", "ArrowExpr"))
    } else if str_eq(visitor, "VariableDeclarator") {
        Some(("visit_mut_var_declarator", "VarDeclarator"))
    } else if str_eq(visitor, "CallExpression") {
        Some(("visit_mut_call_expr", "CallExpr"))
    } else if str_eq(visitor, "JSXElement") {
        Some(("visit_mut_jsx_element", "JSXElement"))
    } else {
        None
    }
}

/// Generate the `VisitMut` method for a Babel visitor, with the plugin's
/// helper calls inlined; an unknown visitor gets a comment instead.
pub fn generate_visitor_method_with_inlining(
    method: &crate::transform::VisitorMethod,
    helpers: &Vec<HelperFunction>,
    metadata: Option<&PluginMetadata>,
) -> (r: String)
    requires
        visitor_method_ok(method.name@, method.transforms@, helpers@, metadata),
    ensures
        r@ == visitor_method_code(method.name@, method.transforms@, helpers@, metadata),
{
    match visit_mut_target_exec(method.name.as_str()) {
        None => joined3("    // TODO: Unknown visitor method: ", method.name.as_str(), "\n"),
        Some((swc_method, node_type)) => {
            let head = joined3("    fn ", swc_method, "(&mut self, n: &mut ");
            let head = joined3(head.as_str(), node_type, ") {\n");
            let empty_bindings: Vec<(String, String)> = Vec::new();
            let mut visited: Vec<String> = Vec::new();
            assert(empty_bindings@.map_values(|x: (String, String)| (x.0@, x.1@)) =~= Seq::<(Seq<char>, Seq<char>)>::empty());
            assert(strs(visited@) =~= Seq::<Seq<char>>::empty());
            let body = bound_list_exec(&method.transforms, &empty_bindings, helpers, 2, &mut visited, metadata);
            let code = joined3(head.as_str(), body.as_str(), "        n.visit_mut_children_with(self);\n");
            joined(code.as_str(), "    }\n\n")
        },
    }
}

} // verus!
