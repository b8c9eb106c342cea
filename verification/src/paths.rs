//! Resolving base names from type paths and rewriting an implementation
//! target's path to point into the generated actor namespace.

use crate::model::{
    path_wf, target_wf, PathSeg, PathSegV, TargetType, TargetTypeV, TransformError,
    TransformErrorV, TypePath,
};
use crate::naming::{actor_mod_chars, actor_mod_name};
use vstd::prelude::*;

verus! {

/// The path segment that names the generated actor namespace for a type.
pub open spec fn actor_mod_seg(name: Seq<char>) -> PathSegV {
    PathSegV { ident: actor_mod_chars(name), args: Seq::empty() }
}

/// A path with the actor-namespace segment for `name` inserted immediately
/// before its final segment.
pub open spec fn insert_actor_seg_with(name: Seq<char>, p: Seq<PathSegV>) -> Seq<PathSegV>
    recommends
        path_wf(p),
{
    p.take(p.len() - 1) + seq![actor_mod_seg(name)] + seq![p.last()]
}

/// A path with the actor-namespace segment derived from its own final
/// segment inserted immediately before that segment.
pub open spec fn insert_actor_seg(p: Seq<PathSegV>) -> Seq<PathSegV>
    recommends
        path_wf(p),
{
    insert_actor_seg_with(p.last().ident, p)
}

/// The two-segment path `__<Name>Actor::<Name>` that references the actor
/// type inside its namespace.
pub open spec fn actor_name_path(name: Seq<char>) -> Seq<PathSegV> {
    seq![actor_mod_seg(name), PathSegV { ident: name, args: Seq::empty() }]
}

/// Rewriting a target path into the actor namespace inserts exactly one
/// segment — the actor-namespace segment, immediately before the final
/// segment — and leaves every original segment, the final one included,
/// unchanged.
pub proof fn lemma_insert_actor_seg_shape(p: Seq<PathSegV>)
    requires
        path_wf(p),
    ensures
        insert_actor_seg(p).len() == p.len() + 1,
        forall|i: int| 0 <= i < p.len() - 1 ==> insert_actor_seg(p)[i] == p[i],
        insert_actor_seg(p)[p.len() - 1] == actor_mod_seg(p.last().ident),
        insert_actor_seg(p).last() == p.last(),
{
}

/// The base name of a type path: the identifier of its final segment.
pub fn get_name_from_path(p: &TypePath) -> (r: String)
    requires
        path_wf(p@),
    ensures
        r@ == p@.last().ident,
{
    let n = p.segs.len();
    p.segs[n - 1].ident.clone()
}

/// The base name of a handler return type, which must be a plain type path.
pub fn get_name_from_ty(ty: &TargetType) -> (r: Result<String, TransformError>)
    requires
        target_wf(ty@),
    ensures
        match r {
            Ok(name) => ty@ matches TargetTypeV::Path(p) && name@ == p.last().ident,
            Err(e) => ty@ matches TargetTypeV::Other(t) && e@ == TransformErrorV::BadReturnType(t),
        },
{
    match ty {
        TargetType::Path(p) => Ok(get_name_from_path(p)),
        TargetType::Other(t) => Err(TransformError::BadReturnType(t.clone())),
    }
}

/// The base name of an implementation target, which must be a plain type
/// path.
pub fn get_name(target: &TargetType) -> (r: Result<String, TransformError>)
    requires
        target_wf(target@),
    ensures
        match r {
            Ok(name) => target@ matches TargetTypeV::Path(p) && name@ == p.last().ident,
            Err(e) => target@ matches TargetTypeV::Other(t) && e@ == TransformErrorV::BadImplTarget(
                t,
            ),
        },
{
    match target {
        TargetType::Path(p) => Ok(get_name_from_path(p)),
        TargetType::Other(t) => Err(TransformError::BadImplTarget(t.clone())),
    }
}

/// The path `__<Name>Actor::<Name>` for an implementation target's base
/// name, used by generated code to reference the actor type.
pub fn get_actor_name(target: &TargetType) -> (r: Result<TypePath, TransformError>)
    requires
        target_wf(target@),
    ensures
        match r {
            Ok(p) => target@ matches TargetTypeV::Path(sp) && p@ == actor_name_path(
                sp.last().ident,
            ),
            Err(e) => target@ matches TargetTypeV::Other(t) && e@ == TransformErrorV::BadImplTarget(
                t,
            ),
        },
{
    let name = match get_name(target) {
        Ok(n) => n,
        Err(e) => {
            return Err(e);
        },
    };
    let mut segs: Vec<PathSeg> = Vec::new();
    segs.push(PathSeg { ident: actor_mod_name(name.as_str()), args: Vec::new() });
    segs.push(PathSeg { ident: name, args: Vec::new() });
    let p = TypePath { segs };
    proof {
        assert(p@ =~~= actor_name_path(target@->Path_0.last().ident));
    }
    Ok(p)
}

/// Inserts the actor-namespace segment for `name` immediately before the
/// final segment of `path`.
pub fn transform_actor_path(name: &str, path: &mut TypePath)
    requires
        path_wf(old(path)@),
    ensures
        final(path)@ == insert_actor_seg_with(name@, old(path)@),
{
    let last = path.segs.pop().unwrap();
    path.segs.push(PathSeg { ident: actor_mod_name(name), args: Vec::new() });
    path.segs.push(last);
    proof {
        assert(path@ =~~= insert_actor_seg_with(name@, old(path)@));
    }
}

} // verus!
