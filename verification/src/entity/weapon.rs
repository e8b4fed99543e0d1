//! Weapon entities. Beside identity (schema id, owner, handles) a weapon
//! tracks the medigun charge: the charge is zeroed by the server on the tick
//! its medic dies, so the last positive reading is retained separately and
//! cleared only when the weapon announces a reset.
use crate::props::{clamp_u32_from_i64, spec_clamp_u32_from_i64, Prop, PropIds, PropValue};
use vstd::prelude::*;

verus! {

/// A weapon entity; charge readings are in thousandths of a full charge.
#[derive(Debug)]
pub struct Weapon {
    pub class_name: String,
    pub last_high_charge: u32,
    pub charge: u32,
    pub charge_released: bool,
    pub handle: u32,
    pub owner: u32,
    pub schema_id: u32,
    pub model_id: u32,
    pub reset_parity: u32,
}

/// All-optional update to a [`Weapon`].
#[derive(Clone, Copy, Debug, PartialEq, Eq, Structural)]
pub struct WeaponPatch {
    pub charge: Option<u32>,
    pub charge_released: Option<bool>,
    pub handle: Option<u32>,
    pub owner: Option<u32>,
    pub schema_id: Option<u32>,
    pub model_id: Option<u32>,
    pub reset_parity: Option<u32>,
}

/// The patch with nothing set.
pub open spec fn spec_weapon_patch_empty() -> WeaponPatch {
    WeaponPatch {
        charge: None,
        charge_released: None,
        handle: None,
        owner: None,
        schema_id: None,
        model_id: None,
        reset_parity: None,
    }
}

/// A charge reading clamped into [0, 1000] thousandths.
pub open spec fn spec_clamp_charge(v: i64) -> u32 {
    if v < 0 {
        0
    } else if v > 1000 {
        1000
    } else {
        v as u32
    }
}

/// Executable twin of [`spec_clamp_charge`].
pub fn clamp_charge(v: i64) -> (r: u32)
    ensures
        r == spec_clamp_charge(v),
{
    if v < 0 {
        0
    } else if v > 1000 {
        1000
    } else {
        v as u32
    }
}

/// How one network property changes a pending weapon patch.
pub open spec fn spec_weapon_prop(p: WeaponPatch, prop: Prop, ids: PropIds) -> WeaponPatch {
    match prop.value {
        PropValue::Milli(v) => {
            if prop.ident == ids.medigun_charge_level {
                WeaponPatch { charge: Some(spec_clamp_charge(v)), ..p }
            } else {
                p
            }
        },
        PropValue::Int(v) => {
            if prop.ident == ids.medigun_charge_released {
                WeaponPatch { charge_released: Some(v == 1), ..p }
            } else if prop.ident == ids.self_handle {
                WeaponPatch { handle: Some(spec_clamp_u32_from_i64(v)), ..p }
            } else if prop.ident == ids.item_definition {
                WeaponPatch { schema_id: Some(spec_clamp_u32_from_i64(v)), ..p }
            } else if prop.ident == ids.model {
                WeaponPatch { model_id: Some(spec_clamp_u32_from_i64(v)), ..p }
            } else if prop.ident == ids.weapon_owner {
                WeaponPatch { owner: Some(spec_clamp_u32_from_i64(v)), ..p }
            } else if prop.ident == ids.reset_parity {
                WeaponPatch { reset_parity: Some(spec_clamp_u32_from_i64(v)), ..p }
            } else {
                p
            }
        },
        _ => p,
    }
}

/// The patch decoded from a property list, first to last.
pub open spec fn spec_weapon_parse(props: Seq<Prop>, ids: PropIds) -> WeaponPatch
    decreases props.len(),
{
    if props.len() == 0 {
        spec_weapon_patch_empty()
    } else {
        spec_weapon_prop(spec_weapon_parse(props.drop_last(), ids), props.last(), ids)
    }
}

/// The retained high charge after a patch: a reset announcement clears it
/// (a charge reading in the same patch then lands on the cleared value); a
/// zero reading without a reset is the server zeroing a dying medic's gun
/// and is retained; a positive reading refreshes it.
pub open spec fn spec_weapon_high_charge(old_high: u32, patch: WeaponPatch) -> u32 {
    if patch.reset_parity is Some {
        match patch.charge {
            Some(c) => c,
            None => 0,
        }
    } else {
        match patch.charge {
            Some(c) => if c > 0 {
                c
            } else {
                old_high
            },
            None => old_high,
        }
    }
}

/// The weapon after a patch: present fields override, absent fields stay,
/// and the retained high charge follows [`spec_weapon_high_charge`].
pub open spec fn spec_weapon_apply(w: Weapon, p: WeaponPatch) -> Weapon {
    Weapon {
        last_high_charge: spec_weapon_high_charge(w.last_high_charge, p),
        charge: match p.charge {
            Some(v) => v,
            None => w.charge,
        },
        charge_released: match p.charge_released {
            Some(v) => v,
            None => w.charge_released,
        },
        handle: match p.handle {
            Some(v) => v,
            None => w.handle,
        },
        owner: match p.owner {
            Some(v) => v,
            None => w.owner,
        },
        schema_id: match p.schema_id {
            Some(v) => v,
            None => w.schema_id,
        },
        model_id: match p.model_id {
            Some(v) => v,
            None => w.model_id,
        },
        reset_parity: match p.reset_parity {
            Some(v) => v,
            None => w.reset_parity,
        },
        ..w
    }
}

impl WeaponPatch {
    /// The patch with nothing set.
    pub fn empty() -> (r: WeaponPatch)
        ensures
            r == spec_weapon_patch_empty(),
    {
        WeaponPatch {
            charge: None,
            charge_released: None,
            handle: None,
            owner: None,
            schema_id: None,
            model_id: None,
            reset_parity: None,
        }
    }
}

impl Weapon {
    /// Decodes a weapon update from a property list; exactly
    /// [`spec_weapon_parse`].
    pub fn parse(props: &Vec<Prop>, ids: &PropIds) -> (patch: WeaponPatch)
        ensures
            patch == spec_weapon_parse(props@, *ids),
    {
        let mut patch = WeaponPatch::empty();
        let mut i: usize = 0;
        proof {
            assert(props@.take(0) =~= Seq::<Prop>::empty());
        }
        while i < props.len()
            invariant
                i <= props.len(),
                patch == spec_weapon_parse(props@.take(i as int), *ids),
            decreases props.len() - i,
        {
            let p = &props[i];
            match &p.value {
                PropValue::Milli(v) => {
                    if p.ident == ids.medigun_charge_level {
                        patch.charge = Some(clamp_charge(*v));
                    }
                },
                PropValue::Int(v) => {
                    if p.ident == ids.medigun_charge_released {
                        patch.charge_released = Some(*v == 1);
                    } else if p.ident == ids.self_handle {
                        patch.handle = Some(clamp_u32_from_i64(*v));
                    } else if p.ident == ids.item_definition {
                        patch.schema_id = Some(clamp_u32_from_i64(*v));
                    } else if p.ident == ids.model {
                        patch.model_id = Some(clamp_u32_from_i64(*v));
                    } else if p.ident == ids.weapon_owner {
                        patch.owner = Some(clamp_u32_from_i64(*v));
                    } else if p.ident == ids.reset_parity {
                        patch.reset_parity = Some(clamp_u32_from_i64(*v));
                    }
                },
                _ => {},
            }
            proof {
                assert(props@.take(i + 1).drop_last() =~= props@.take(i as int));
                assert(props@.take(i + 1).last() == props@[i as int]);
            }
            i = i + 1;
        }
        proof {
            assert(props@.take(props@.len() as int) =~= props@);
        }
        patch
    }

    /// Applies a patch: present fields override, absent fields are retained,
    /// and the retained high charge follows [`spec_weapon_high_charge`].
    pub fn apply(&mut self, patch: WeaponPatch)
        ensures
            *final(self) == spec_weapon_apply(*old(self), patch),
            final(self).class_name == old(self).class_name,
            final(self).last_high_charge == spec_weapon_high_charge(old(self).last_high_charge, patch),
            final(self).charge == (match patch.charge {
                Some(v) => v,
                None => old(self).charge,
            }),
            final(self).charge_released == (match patch.charge_released {
                Some(v) => v,
                None => old(self).charge_released,
            }),
            final(self).handle == (match patch.handle {
                Some(v) => v,
                None => old(self).handle,
            }),
            final(self).owner == (match patch.owner {
                Some(v) => v,
                None => old(self).owner,
            }),
            final(self).schema_id == (match patch.schema_id {
                Some(v) => v,
                None => old(self).schema_id,
            }),
            final(self).model_id == (match patch.model_id {
                Some(v) => v,
                None => old(self).model_id,
            }),
            final(self).reset_parity == (match patch.reset_parity {
                Some(v) => v,
                None => old(self).reset_parity,
            }),
    {
        if patch.reset_parity.is_some() {
            self.last_high_charge = match patch.charge {
                Some(c) => c,
                None => 0,
            };
        } else {
            if let Some(c) = patch.charge {
                if c > 0 {
                    self.last_high_charge = c;
                }
            }
        }
        if let Some(v) = patch.charge {
            self.charge = v;
        }
        if let Some(v) = patch.charge_released {
            self.charge_released = v;
        }
        if let Some(v) = patch.handle {
            self.handle = v;
        }
        if let Some(v) = patch.owner {
            self.owner = v;
        }
        if let Some(v) = patch.schema_id {
            self.schema_id = v;
        }
        if let Some(v) = patch.model_id {
            self.model_id = v;
        }
        if let Some(v) = patch.reset_parity {
            self.reset_parity = v;
        }
    }
}

} // verus!
