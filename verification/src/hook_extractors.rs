//! Hook extraction that reads the name a hook's value is bound to from the
//! transformation's parent context.

use vstd::prelude::*;
use crate::js::{JsArg, JsCall, JsExpr};
use crate::component::{Component, UseEffectInfo, UseRefInfo, CustomHookInstance};
use crate::minimact::{
    MinimactTransformer, ParentContext, Part, same_except, first_arg_csharp, generate_csharp_expression,
    hook_class_name, hook_name_to_class_name,
};
use crate::strings::owned;
use crate::transform::strings_view;
use crate::analyzer::lemma_strings_view_push;

verus! {

/// The variable the innermost context declares, if it is a declarator.
pub open spec fn parent_var_name(t: MinimactTransformer) -> Option<Seq<char>> {
    if t.parent_stack@.len() > 0 {
        match t.parent_stack@.last() {
            ParentContext::VarDeclarator(n) => Some(n@),
            _ => None,
        }
    } else {
        None
    }
}

fn parent_var(transformer: &MinimactTransformer) -> (r: Option<String>)
    ensures
        match r {
            Some(n) => parent_var_name(*transformer) == Some(n@),
            None => parent_var_name(*transformer) is None,
        },
{
    match transformer.get_parent() {
        Some(ParentContext::VarDeclarator(name)) => Some(owned(name.as_str())),
        _ => None,
    }
}

/// The non-empty plain names among array elements.
pub open spec fn named_deps(elems: Seq<Option<JsArg>>) -> Seq<Seq<char>>
    decreases elems.len(),
{
    if elems.len() == 0 {
        Seq::empty()
    } else {
        let rest = named_deps(elems.drop_last());
        match elems.last() {
            Some(a) => match a.expr {
                JsExpr::Ident(id) => if id@.len() > 0 {
                    rest.push(id@)
                } else {
                    rest
                },
                _ => rest,
            },
            None => rest,
        }
    }
}

/// The non-empty plain names in an array literal.
pub open spec fn named_dependencies(e: JsExpr) -> Seq<Seq<char>> {
    match e {
        JsExpr::Array(elems) => named_deps(elems@),
        _ => Seq::empty(),
    }
}

/// The non-empty plain names in an array literal.
fn extract_dependency_array(expr: &JsExpr) -> (r: Vec<String>)
    ensures
        strings_view(r@) == named_dependencies(*expr),
{
    let mut deps: Vec<String> = Vec::new();
    if let JsExpr::Array(elems) = expr {
        let mut i: usize = 0;
        while i < elems.len()
            invariant
                i <= elems@.len(),
                strings_view(deps@) == named_deps(elems@.subrange(0, i as int)),
            decreases elems@.len() - i,
        {
            proof {
                assert(elems@.subrange(0, i + 1).drop_last() =~= elems@.subrange(0, i as int));
            }
            let ghost mid = deps@;
            if let Some(a) = &elems[i] {
                if let JsExpr::Ident(id) = &a.expr {
                    if id.unicode_len() > 0 {
                        let n = owned(id.as_str());
                        proof {
                            lemma_strings_view_push(mid, n);
                        }
                        deps.push(n);
                    }
                }
            }
            i = i + 1;
        }
        assert(elems@.subrange(0, i as int) =~= elems@);
    } else {
        assert(strings_view(deps@) =~= Seq::<Seq<char>>::empty());
    }
    deps
}

/// A `useState` call: nothing is recorded, since the context does not give
/// the array pattern.
pub fn extract_use_state(call: &JsCall, component: &mut Component, transformer: &MinimactTransformer)
    ensures
        *final(component) == *old(component),
{
}

/// A `useEffect` call: an effect depending on the non-empty plain names in
/// its second argument.
pub fn extract_use_effect(call: &JsCall, component: &mut Component, transformer: &MinimactTransformer)
    ensures
        same_except(*old(component), *final(component), Part::UseEffect),
        final(component).use_effect@.len() == old(component).use_effect@.len() + 1,
        final(component).use_effect@.drop_last() == old(component).use_effect@,
        strings_view(final(component).use_effect@.last().dependencies@) == if call.args@.len() > 1 {
            named_dependencies(call.args@[1].expr)
        } else {
            Seq::empty()
        },
        !final(component).use_effect@.last().is_client_side,
{
    let dependencies = if call.args.len() > 1 {
        extract_dependency_array(&call.args[1].expr)
    } else {
        let d: Vec<String> = Vec::new();
        assert(strings_view(d@) =~= Seq::<Seq<char>>::empty());
        d
    };
    component.use_effect.push(UseEffectInfo { dependencies, is_client_side: false });
    assert(component.use_effect@.drop_last() =~= old(component).use_effect@);
}

/// A `useRef` call inside a declarator: a ref named after the variable, with
/// the first argument in C#.
pub fn extract_use_ref(call: &JsCall, component: &mut Component, transformer: &MinimactTransformer)
    ensures
        match parent_var_name(*transformer) {
            Some(name) => {
                &&& same_except(*old(component), *final(component), Part::UseRef)
                &&& final(component).use_ref@.len() == old(component).use_ref@.len() + 1
                &&& final(component).use_ref@.drop_last() == old(component).use_ref@
                &&& final(component).use_ref@.last().name@ == name
                &&& final(component).use_ref@.last().initial_value@ == first_arg_csharp(call.args@)
            },
            None => *final(component) == *old(component),
        },
{
    let ref_name = match parent_var(transformer) {
        Some(n) => n,
        None => return,
    };
    let initial_value = if call.args.len() > 0 {
        generate_csharp_expression(Some(&call.args[0].expr))
    } else {
        owned("null")
    };
    component.use_ref.push(UseRefInfo { name: ref_name, initial_value });
    assert(component.use_ref@.drop_last() =~= old(component).use_ref@);
}

/// A `useClientState` call: nothing is recorded, since the context does not
/// give the array pattern.
pub fn extract_use_client_state(call: &JsCall, component: &mut Component, transformer: &MinimactTransformer)
    ensures
        *final(component) == *old(component),
{
}

/// A `useMarkdown` call: nothing is recorded.
pub fn extract_use_markdown(call: &JsCall, component: &mut Component, transformer: &MinimactTransformer)
    ensures
        *final(component) == *old(component),
{
}

/// A call of a custom hook inside a declarator: an instance named after the
/// variable, with the hook's C# class and no return values yet.
pub fn extract_custom_hook(
    call: &JsCall,
    component: &mut Component,
    hook_name: &str,
    transformer: &MinimactTransformer,
)
    ensures
        match parent_var_name(*transformer) {
            Some(name) => {
                &&& same_except(*old(component), *final(component), Part::CustomHooks)
                &&& final(component).custom_hooks@.len() == old(component).custom_hooks@.len() + 1
                &&& final(component).custom_hooks@.drop_last() == old(component).custom_hooks@
                &&& final(component).custom_hooks@.last().hook_name@ == hook_name@
                &&& final(component).custom_hooks@.last().instance_name@ == name
                &&& final(component).custom_hooks@.last().class_name@ == hook_class_name(hook_name@)
                &&& final(component).custom_hooks@.last().return_values@.len() == 0
            },
            None => *final(component) == *old(component),
        },
{
    let instance_name = match parent_var(transformer) {
        Some(n) => n,
        None => return,
    };
    let class_name = hook_name_to_class_name(hook_name);
    component.custom_hooks.push(
        CustomHookInstance { hook_name: owned(hook_name), instance_name, class_name, return_values: Vec::new() },
    );
    assert(component.custom_hooks@.drop_last() =~= old(component).custom_hooks@);
}

} // verus!
