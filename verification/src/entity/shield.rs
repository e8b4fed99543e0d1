//! A wearable shield entity: the resolver reads its schema id to name
//! charge-impact kills.
use crate::props::{clamp_u32_from_i64, spec_clamp_u32_from_i64, Prop, PropIds, PropValue};
use vstd::prelude::*;

verus! {

/// A wearable shield carried in a player's cosmetic slots.
#[derive(Debug)]
pub struct Shield {
    pub class_name: String,
    pub owner: u32,
    pub handle: u32,
    pub schema_id: u32,
}

/// All-optional update to a [`Shield`].
#[derive(Clone, Copy, Debug, PartialEq, Eq, Structural)]
pub struct ShieldPatch {
    pub owner: Option<u32>,
    pub handle: Option<u32>,
    pub schema_id: Option<u32>,
}

/// The patch with nothing set.
pub open spec fn spec_shield_patch_empty() -> ShieldPatch {
    ShieldPatch { owner: None, handle: None, schema_id: None }
}

/// How one network property changes a pending shield patch.
pub open spec fn spec_shield_prop(p: ShieldPatch, prop: Prop, ids: PropIds) -> ShieldPatch {
    match prop.value {
        PropValue::Int(v) => {
            if prop.ident == ids.self_handle {
                ShieldPatch { handle: Some(spec_clamp_u32_from_i64(v)), ..p }
            } else if prop.ident == ids.owner {
                ShieldPatch { owner: Some(spec_clamp_u32_from_i64(v)), ..p }
            } else if prop.ident == ids.item_definition {
                ShieldPatch { schema_id: Some(spec_clamp_u32_from_i64(v)), ..p }
            } else {
                p
            }
        },
        _ => p,
    }
}

/// The patch decoded from a property list, first to last.
pub open spec fn spec_shield_parse(props: Seq<Prop>, ids: PropIds) -> ShieldPatch
    decreases props.len(),
{
    if props.len() == 0 {
        spec_shield_patch_empty()
    } else {
        spec_shield_prop(spec_shield_parse(props.drop_last(), ids), props.last(), ids)
    }
}

/// The shield after a patch: present fields override, absent fields stay.
pub open spec fn spec_shield_apply(s: Shield, p: ShieldPatch) -> Shield {
    Shield {
        owner: match p.owner {
            Some(v) => v,
            None => s.owner,
        },
        handle: match p.handle {
            Some(v) => v,
            None => s.handle,
        },
        schema_id: match p.schema_id {
            Some(v) => v,
            None => s.schema_id,
        },
        ..s
    }
}

impl ShieldPatch {
    /// The patch with nothing set.
    pub fn empty() -> (r: ShieldPatch)
        ensures
            r == spec_shield_patch_empty(),
    {
        ShieldPatch { owner: None, handle: None, schema_id: None }
    }
}

impl Shield {
    /// Decodes a shield update from a property list; exactly
    /// [`spec_shield_parse`].
    pub fn parse(props: &Vec<Prop>, ids: &PropIds) -> (patch: ShieldPatch)
        ensures
            patch == spec_shield_parse(props@, *ids),
    {
        let mut patch = ShieldPatch::empty();
        let mut i: usize = 0;
        proof {
            assert(props@.take(0) =~= Seq::<Prop>::empty());
        }
        while i < props.len()
            invariant
                i <= props.len(),
                patch == spec_shield_parse(props@.take(i as int), *ids),
            decreases props.len() - i,
        {
            let p = &props[i];
            match &p.value {
                PropValue::Int(v) => {
                    if p.ident == ids.self_handle {
                        patch.handle = Some(clamp_u32_from_i64(*v));
                    } else if p.ident == ids.owner {
                        patch.owner = Some(clamp_u32_from_i64(*v));
                    } else if p.ident == ids.item_definition {
                        patch.schema_id = Some(clamp_u32_from_i64(*v));
                    }
                },
                _ => {},
            }
            proof {
                assert(props@.take(i + 1).drop_last() =~= props@.take(i as int));
                assert(props@.take(i + 1).last() == props@[i as int]);
            }
            i = i + 1;
        }
        proof {
            assert(props@.take(props@.len() as int) =~= props@);
        }
        patch
    }

    /// Applies a patch: each present field overrides, absent fields are
    /// retained; the class name never changes.
    pub fn apply(&mut self, patch: ShieldPatch)
        ensures
            *final(self) == spec_shield_apply(*old(self), patch),
            final(self).class_name == old(self).class_name,
            final(self).owner == (match patch.owner {
                Some(v) => v,
                None => old(self).owner,
            }),
            final(self).handle == (match patch.handle {
                Some(v) => v,
                None => old(self).handle,
            }),
            final(self).schema_id == (match patch.schema_id {
                Some(v) => v,
                None => old(self).schema_id,
            }),
    {
        if let Some(v) = patch.owner {
            self.owner = v;
        }
        if let Some(v) = patch.handle {
            self.handle = v;
        }
        if let Some(v) = patch.schema_id {
            self.schema_id = v;
        }
    }
}

} // verus!
