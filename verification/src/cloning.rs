//! Deep copies of model values, each with a contract that pins the copy to
//! the original's mathematical value.

use crate::model::{ImplItem, MethodBody, MethodItem, Param, PathSeg, TypePath, Vis};
use vstd::prelude::*;

verus! {

/// Copies a vector of strings, preserving every character sequence.
pub fn clone_strings(v: &Vec<String>) -> (r: Vec<String>)
    ensures
        r.deep_view() == v.deep_view(),
{
    let mut r: Vec<String> = Vec::new();
    let mut i: usize = 0;
    while i < v.len()
        invariant
            i <= v.len(),
            r@.len() == i,
            forall|j: int| 0 <= j < i ==> r@[j]@ == #[trigger] v@[j]@,
        decreases v.len() - i,
    {
        r.push(v[i].clone());
        i += 1;
    }
    proof {
        assert(r.deep_view() =~= v.deep_view());
    }
    r
}

/// Copies an access scope.
pub fn clone_vis(v: &Vis) -> (r: Vis)
    ensures
        r@ == v@,
{
    match v {
        Vis::Public => Vis::Public,
        Vis::Inherited => Vis::Inherited,
        Vis::Restricted(p) => Vis::Restricted(clone_strings(p)),
    }
}

/// Copies a path segment.
pub fn clone_seg(s: &PathSeg) -> (r: PathSeg)
    ensures
        r@ == s@,
{
    PathSeg { ident: s.ident.clone(), args: clone_strings(&s.args) }
}

/// Copies a type path.
pub fn clone_path(p: &TypePath) -> (r: TypePath)
    ensures
        r@ == p@,
{
    let mut segs: Vec<PathSeg> = Vec::new();
    let mut i: usize = 0;
    while i < p.segs.len()
        invariant
            i <= p.segs.len(),
            segs@.len() == i,
            forall|j: int| 0 <= j < i ==> segs@[j]@ == #[trigger] p.segs@[j]@,
        decreases p.segs.len() - i,
    {
        segs.push(clone_seg(&p.segs[i]));
        i += 1;
    }
    let r = TypePath { segs };
    proof {
        assert(r@ =~= p@);
    }
    r
}

/// Copies a parameter list.
pub fn clone_params(v: &Vec<Param>) -> (r: Vec<Param>)
    ensures
        r.deep_view() == v.deep_view(),
{
    let mut r: Vec<Param> = Vec::new();
    let mut i: usize = 0;
    while i < v.len()
        invariant
            i <= v.len(),
            r@.len() == i,
            forall|j: int| 0 <= j < i ==> r@[j]@ == #[trigger] v@[j]@,
        decreases v.len() - i,
    {
        let p = &v[i];
        r.push(Param { name: p.name.clone(), ty: p.ty.clone() });
        i += 1;
    }
    proof {
        assert(r.deep_view() =~= v.deep_view());
    }
    r
}

/// Copies an optional opaque text.
pub fn clone_opt_string(v: &Option<String>) -> (r: Option<String>)
    ensures
        match v {
            Some(s) => r matches Some(t) && t@ == s@,
            None => r is None,
        },
{
    match v {
        Some(s) => Some(s.clone()),
        None => None,
    }
}

/// Copies a method body.
pub fn clone_method_body(b: &MethodBody) -> (r: MethodBody)
    ensures
        r@ == b@,
{
    match b {
        MethodBody::Direct(t) => MethodBody::Direct(t.clone()),
        MethodBody::Forward { message, args } => MethodBody::Forward {
            message: message.clone(),
            args: clone_strings(args),
        },
    }
}

/// Copies a method.
pub fn clone_method_item(m: &MethodItem) -> (r: MethodItem)
    ensures
        r@ == m@,
{
    MethodItem {
        vis: clone_vis(&m.vis),
        name: m.name.clone(),
        receiver: m.receiver,
        params: clone_params(&m.params),
        ret: clone_opt_string(&m.ret),
        body: clone_method_body(&m.body),
    }
}

/// Copies an implementation-block item.
pub fn clone_impl_item(it: &ImplItem) -> (r: ImplItem)
    ensures
        r@ == it@,
{
    match it {
        ImplItem::ConstItem { vis, name, text } => ImplItem::ConstItem {
            vis: clone_vis(vis),
            name: name.clone(),
            text: text.clone(),
        },
        ImplItem::TypeAlias { vis, name, text } => ImplItem::TypeAlias {
            vis: clone_vis(vis),
            name: name.clone(),
            text: text.clone(),
        },
        ImplItem::MacroItem(t) => ImplItem::MacroItem(t.clone()),
        ImplItem::Verbatim(t) => ImplItem::Verbatim(t.clone()),
        ImplItem::Method(m) => ImplItem::Method(clone_method_item(m)),
        ImplItem::Unknown(t) => ImplItem::Unknown(t.clone()),
    }
}

} // verus!
