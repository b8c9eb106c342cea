//! The visibility normalizer: computes the minimum access scope that keeps a
//! declaration relocated into the generated nested namespace reachable from
//! its original enclosing scope.

use crate::cloning::clone_strings;
use crate::model::{vis_wf, Diagnostic, DiagnosticV, Vis, VisV};
use vstd::prelude::*;

verus! {

/// True of a restricted scope whose path does not start at the narrowest
/// unrestricted form (`self`): the normalizer cannot map such a scope
/// precisely and warns that it is widened.
pub open spec fn vis_warns(v: VisV) -> bool {
    match v {
        VisV::Restricted(p) => p.len() > 0 && p[0] != "self"@,
        _ => false,
    }
}

/// The scope path of a restricted scope; the empty sequence otherwise.
pub open spec fn restricted_path(v: VisV) -> Seq<Seq<char>> {
    match v {
        VisV::Restricted(p) => p,
        _ => Seq::empty(),
    }
}

/// The normalized form of an access scope: an unrestricted scope is left
/// unchanged; a private or restricted scope becomes restricted to the
/// immediate parent of the generated namespace.
pub open spec fn normalize_vis(v: VisV) -> VisV {
    match v {
        VisV::Public => VisV::Public,
        _ => VisV::Restricted(seq!["super"@]),
    }
}

/// How much a scope grants, seen from the immediate parent of the generated
/// namespace: an unrestricted scope grants most, the parent scope less, and
/// a private or self-restricted scope least.
pub open spec fn vis_rank(v: VisV) -> int {
    match v {
        VisV::Public => 2,
        VisV::Restricted(p) => if p == seq!["super"@] {
            1
        } else {
            0
        },
        VisV::Inherited => 0,
    }
}

/// Rewrites an access scope to its normalized form and reports a diagnostic
/// when an explicit restricted scope was widened.
pub fn set_visibility_min_pub_super(vis: &mut Vis) -> (d: Option<Diagnostic>)
    requires
        vis_wf(old(vis)@),
    ensures
        final(vis)@ == normalize_vis(old(vis)@),
        match d {
            Some(diag) => vis_warns(old(vis)@) && diag@ == DiagnosticV::UnsupportedVisibility(
                restricted_path(old(vis)@),
            ),
            None => !vis_warns(old(vis)@),
        },
{
    let mut d: Option<Diagnostic> = None;
    match &*vis {
        Vis::Public => {
            return None;
        },
        Vis::Inherited => {},
        Vis::Restricted(p) => {
            let self_name: String = "self".to_owned();
            if !(p[0] == self_name) {
                d = Some(Diagnostic::UnsupportedVisibility(clone_strings(p)));
            }
        },
    }
    let mut segs: Vec<String> = Vec::new();
    segs.push("super".to_owned());
    *vis = Vis::Restricted(segs);
    proof {
        assert(vis@ == normalize_vis(old(vis)@)) by {
            assert(segs.deep_view() =~= seq!["super"@]);
        }
    }
    d
}

/// Normalization only widens, never narrows: for every scope that the
/// normalizer maps without a warning, the normalized scope grants at least
/// as much as the original.
pub proof fn lemma_normalize_widens(v: VisV)
    requires
        vis_wf(v),
        !vis_warns(v),
    ensures
        vis_rank(normalize_vis(v)) >= vis_rank(v),
{
}

/// Normalization leaves an already unrestricted scope unchanged.
pub proof fn lemma_normalize_keeps_public(v: VisV)
    requires
        v is Public,
    ensures
        normalize_vis(v) == v,
{
}

} // verus!
