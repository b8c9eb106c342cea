//! The data-type splitter: one input data type becomes a cloneable handle
//! holding a mailbox address, two accessors for that address, and the actor
//! declaration inside its generated namespace.

use crate::cloning::{clone_strings, clone_vis};
use crate::model::{
    data_type_wf, vis_wf, DataType, Diagnostic, DiagnosticV, Field, FieldV,
};
use crate::naming::{actor_mod_chars, actor_mod_name};
use crate::output::{Accessor, ActorStruct, AddressType, HandleStruct, StructOutput};
use crate::visibility::{
    lemma_normalize_widens, normalize_vis, restricted_path, set_visibility_min_pub_super,
    vis_rank, vis_warns,
};
use vstd::prelude::*;

verus! {

/// The input fields with every access scope normalized; names, types and
/// order are untouched.
pub open spec fn normalized_fields(fs: Seq<FieldV>) -> Seq<FieldV> {
    fs.map_values(|f: FieldV| FieldV { vis: normalize_vis(f.vis), ..f })
}

/// The diagnostics that normalizing a field sequence emits, in field order:
/// one widening warning per field whose scope cannot be mapped precisely.
pub open spec fn field_diags(fs: Seq<FieldV>) -> Seq<DiagnosticV>
    decreases fs.len(),
{
    if fs.len() == 0 {
        Seq::empty()
    } else {
        field_diags(fs.drop_last()) + (if vis_warns(fs.last().vis) {
            seq![DiagnosticV::UnsupportedVisibility(restricted_path(fs.last().vis))]
        } else {
            Seq::empty()
        })
    }
}

/// Normalizing a field list preserves the field count, the field order, and
/// every field's name and type; only access scopes change, and each only to
/// its normalized form.
pub proof fn lemma_normalized_fields_shape(fs: Seq<FieldV>)
    ensures
        normalized_fields(fs).len() == fs.len(),
        forall|i: int| 0 <= i < fs.len() ==> {
            &&& (#[trigger] normalized_fields(fs)[i]).name == fs[i].name
            &&& normalized_fields(fs)[i].ty == fs[i].ty
            &&& normalized_fields(fs)[i].vis == normalize_vis(fs[i].vis)
        },
{
}

/// What the splitter guarantees of its output for a given input data type.
pub open spec fn splits_data_type(s: DataType, o: StructOutput) -> bool {
    &&& o.handle.vis@ == s.vis@
    &&& o.handle.name@ == s.name@
    &&& o.handle.generics.deep_view() == s.generics.deep_view()
    &&& o.handle.duplicable
    &&& address_ty_is(o.handle.addr_field, s.name@, s.generics.deep_view())
    &&& o.into_accessor.vis@ == s.vis@
    &&& o.into_accessor.name@ == "into_address"@
    &&& o.into_accessor.consumes
    &&& address_ty_is(o.into_accessor.addr, s.name@, s.generics.deep_view())
    &&& o.borrow_accessor.vis@ == s.vis@
    &&& o.borrow_accessor.name@ == "address"@
    &&& !o.borrow_accessor.consumes
    &&& address_ty_is(o.borrow_accessor.addr, s.name@, s.generics.deep_view())
    &&& o.actor_mod@ == actor_mod_chars(s.name@)
    &&& o.actor_mod_vis@ == s.vis@
    &&& o.actor.attrs.deep_view() == s.attrs.deep_view()
    &&& o.actor.name@ == s.name@
    &&& o.actor.generics.deep_view() == s.generics.deep_view()
    &&& o.actor.fields.deep_view() == normalized_fields(s.fields.deep_view())
}

/// True when an address reference names the mailbox address of the actor
/// generated for `name`, with the given generic arguments.
pub open spec fn address_ty_is(a: AddressType, name: Seq<char>, generics: Seq<Seq<char>>) -> bool {
    &&& a.actor_mod@ == actor_mod_chars(name)
    &&& a.actor_name@ == name
    &&& a.generics.deep_view() == generics
}

/// In a split output, the actor's field order and field types exactly match
/// the input's; only access scopes change, and — on every scope the
/// normalizer maps without a warning — only by widening, never narrowing.
pub proof fn lemma_split_fields_widen(s: DataType, o: StructOutput)
    requires
        data_type_wf(s),
        splits_data_type(s, o),
    ensures
        o.actor.fields.deep_view().len() == s.fields.deep_view().len(),
        forall|i: int| 0 <= i < s.fields.deep_view().len() ==> {
            &&& (#[trigger] o.actor.fields.deep_view()[i]).name == s.fields.deep_view()[i].name
            &&& o.actor.fields.deep_view()[i].ty == s.fields.deep_view()[i].ty
            &&& (!vis_warns(s.fields.deep_view()[i].vis) ==> vis_rank(
                o.actor.fields.deep_view()[i].vis,
            ) >= vis_rank(s.fields.deep_view()[i].vis))
        },
{
    let fs = s.fields.deep_view();
    lemma_normalized_fields_shape(fs);
    assert forall|i: int| 0 <= i < fs.len() implies {
        &&& (#[trigger] o.actor.fields.deep_view()[i]).name == fs[i].name
        &&& o.actor.fields.deep_view()[i].ty == fs[i].ty
        &&& (!vis_warns(fs[i].vis) ==> vis_rank(o.actor.fields.deep_view()[i].vis) >= vis_rank(
            fs[i].vis,
        ))
    } by {
        assert(vis_wf(s.fields@[i]@.vis));
        assert(fs[i] == s.fields@[i]@);
        if !vis_warns(fs[i].vis) {
            lemma_normalize_widens(fs[i].vis);
        }
    }
}

/// Normalizes the scopes of a field list, returning the rewritten fields and
/// the widening diagnostics in field order.
fn normalize_field_visibilities(fields: &Vec<Field>) -> (r: (Vec<Field>, Vec<Diagnostic>))
    requires
        forall|i: int| 0 <= i < fields@.len() ==> vis_wf(#[trigger] fields@[i]@.vis),
    ensures
        r.0.deep_view() == normalized_fields(fields.deep_view()),
        r.1.deep_view() == field_diags(fields.deep_view()),
{
    let mut out: Vec<Field> = Vec::new();
    let mut diags: Vec<Diagnostic> = Vec::new();
    let mut i: usize = 0;
    while i < fields.len()
        invariant
            i <= fields.len(),
            forall|j: int| 0 <= j < fields@.len() ==> vis_wf(#[trigger] fields@[j]@.vis),
            out@.len() == i,
            forall|j: int| 0 <= j < i ==> #[trigger] out@[j]@ == (FieldV {
                vis: normalize_vis(fields@[j]@.vis),
                ..fields@[j]@
            }),
            diags.deep_view() == field_diags(fields.deep_view().take(i as int)),
        decreases fields.len() - i,
    {
        let f = &fields[i];
        proof {
            assert(vis_wf(fields@[i as int]@.vis));
        }
        let mut v = clone_vis(&f.vis);
        let d = set_visibility_min_pub_super(&mut v);
        out.push(Field { name: f.name.clone(), vis: v, ty: f.ty.clone() });
        match d {
            Some(diag) => diags.push(diag),
            None => {},
        }
        proof {
            let fs = fields.deep_view();
            assert(fs.take(i + 1).drop_last() =~= fs.take(i as int));
            assert(fs.take(i + 1).last() == fs[i as int]);
            assert(diags.deep_view() =~~= field_diags(fs.take(i + 1)));
        }
        i += 1;
    }
    proof {
        assert(fields.deep_view().take(fields@.len() as int) =~= fields.deep_view());
        assert(out.deep_view() =~~= normalized_fields(fields.deep_view()));
    }
    (out, diags)
}

/// Splits one data type into the handle declaration, its two address
/// accessors, and the actor declaration inside the generated namespace;
/// always succeeds, reporting only widening diagnostics.
pub fn entangle_struct(s: DataType) -> (r: (StructOutput, Vec<Diagnostic>))
    requires
        data_type_wf(s),
    ensures
        splits_data_type(s, r.0),
        r.1.deep_view() == field_diags(s.fields.deep_view()),
{
    let (fields, diags) = normalize_field_visibilities(&s.fields);
    let actor_mod = actor_mod_name(s.name.as_str());
    let addr = AddressType {
        actor_mod: actor_mod.clone(),
        actor_name: s.name.clone(),
        generics: clone_strings(&s.generics),
    };
    let handle = HandleStruct {
        vis: clone_vis(&s.vis),
        name: s.name.clone(),
        generics: clone_strings(&s.generics),
        duplicable: true,
        addr_field: addr.clone_value(),
    };
    let into_accessor = Accessor {
        vis: clone_vis(&s.vis),
        name: "into_address".to_owned(),
        consumes: true,
        addr: addr.clone_value(),
    };
    let borrow_accessor = Accessor {
        vis: clone_vis(&s.vis),
        name: "address".to_owned(),
        consumes: false,
        addr: addr,
    };
    let actor = ActorStruct {
        attrs: s.attrs,
        name: s.name,
        generics: s.generics,
        fields,
    };
    let out = StructOutput {
        handle,
        into_accessor,
        borrow_accessor,
        actor_mod,
        actor_mod_vis: s.vis,
        actor,
    };
    (out, diags)
}

impl AddressType {
    /// Copies an address reference, preserving its mathematical value.
    fn clone_value(&self) -> (r: AddressType)
        ensures
            r.actor_mod@ == self.actor_mod@,
            r.actor_name@ == self.actor_name@,
            r.generics.deep_view() == self.generics.deep_view(),
    {
        AddressType {
            actor_mod: self.actor_mod.clone(),
            actor_name: self.actor_name.clone(),
            generics: clone_strings(&self.generics),
        }
    }
}

} // verus!
