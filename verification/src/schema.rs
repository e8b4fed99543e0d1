//! Item-schema registry: item definitions keyed by numeric id, with prefab
//! inheritance resolved eagerly.
//!
//! A raw item lists zero or more prefab tags; resolution merges the prefab
//! definitions left to right (later overrides earlier) and then overlays the
//! item's own fields. Per scalar field the rule is "right side wins if
//! present"; vector-valued fields are appended.
use crate::maps::U32Map;
use vstd::prelude::*;

verus! {

/// A string-valued item attribute.
#[derive(Clone, Debug)]
pub struct StringAttribute {
    pub attribute_class: String,
    pub value: String,
}

/// An attribute value: numeric (kept in thousandths) or string.
#[derive(Debug)]
pub enum Attribute {
    /// Numeric attribute; the value is kept in thousandths of a unit.
    Float(String, i64),
    /// String attribute.
    String(StringAttribute),
}

/// Mathematical value of an [`Attribute`].
pub enum AttributeV {
    Float(Seq<char>, i64),
    String(Seq<char>, Seq<char>),
}

impl View for Attribute {
    type V = AttributeV;

    open spec fn view(&self) -> AttributeV {
        match self {
            Attribute::Float(class, v) => AttributeV::Float(class@, *v),
            Attribute::String(s) => AttributeV::String(s.attribute_class@, s.value@),
        }
    }
}

impl Attribute {
    /// A copy whose mathematical value equals this one's.
    pub fn duplicate(&self) -> (r: Attribute)
        ensures
            r@ == self@,
    {
        match self {
            Attribute::Float(class, v) => Attribute::Float(class.clone(), *v),
            Attribute::String(s) => Attribute::String(
                StringAttribute { attribute_class: s.attribute_class.clone(), value: s.value.clone() },
            ),
        }
    }
}

/// An unresolved item definition, as the schema file lists it.
#[derive(Debug)]
pub struct ItemRaw {
    pub name: Option<String>,
    pub hidden: Option<String>,
    pub item_class: Option<String>,
    pub item_name: Option<String>,
    pub item_type_name: Vec<String>,
    pub item_slot: Option<String>,
    pub item_quality: Option<String>,
    pub min_ilevel: Option<u32>,
    pub max_ilevel: Option<u32>,
    pub prefab: Vec<String>,
    pub baseitem: Option<String>,
    pub item_logname: Option<String>,
    pub attributes: Vec<(String, Attribute)>,
}

/// Mathematical value of an [`ItemRaw`].
pub struct ItemRawV {
    pub name: Option<Seq<char>>,
    pub hidden: Option<Seq<char>>,
    pub item_class: Option<Seq<char>>,
    pub item_name: Option<Seq<char>>,
    pub item_type_name: Seq<Seq<char>>,
    pub item_slot: Option<Seq<char>>,
    pub item_quality: Option<Seq<char>>,
    pub min_ilevel: Option<u32>,
    pub max_ilevel: Option<u32>,
    pub prefab: Seq<Seq<char>>,
    pub baseitem: Option<Seq<char>>,
    pub item_logname: Option<Seq<char>>,
    pub attributes: Seq<(Seq<char>, AttributeV)>,
}

/// View of an optional string as an optional character sequence.
pub open spec fn spec_opt_str(o: Option<String>) -> Option<Seq<char>> {
    match o {
        Some(s) => Some(s@),
        None => None,
    }
}

/// View of an attribute list.
pub open spec fn spec_attrs_view(v: Seq<(String, Attribute)>) -> Seq<(Seq<char>, AttributeV)> {
    v.map_values(|p: (String, Attribute)| (p.0@, p.1@))
}

impl View for ItemRaw {
    type V = ItemRawV;

    open spec fn view(&self) -> ItemRawV {
        ItemRawV {
            name: spec_opt_str(self.name),
            hidden: spec_opt_str(self.hidden),
            item_class: spec_opt_str(self.item_class),
            item_name: spec_opt_str(self.item_name),
            item_type_name: self.item_type_name.deep_view(),
            item_slot: spec_opt_str(self.item_slot),
            item_quality: spec_opt_str(self.item_quality),
            min_ilevel: self.min_ilevel,
            max_ilevel: self.max_ilevel,
            prefab: self.prefab.deep_view(),
            baseitem: spec_opt_str(self.baseitem),
            item_logname: spec_opt_str(self.item_logname),
            attributes: spec_attrs_view(self.attributes@),
        }
    }
}

/// The empty raw item: no scalar present, every list empty.
pub open spec fn spec_item_raw_empty() -> ItemRawV {
    ItemRawV {
        name: None,
        hidden: None,
        item_class: None,
        item_name: None,
        item_type_name: Seq::empty(),
        item_slot: None,
        item_quality: None,
        min_ilevel: None,
        max_ilevel: None,
        prefab: Seq::empty(),
        baseitem: None,
        item_logname: None,
        attributes: Seq::empty(),
    }
}

/// The merge rule for one scalar field: the right side wins if present.
pub open spec fn spec_overwrite<T>(left: Option<T>, right: Option<T>) -> Option<T> {
    if right is Some {
        right
    } else {
        left
    }
}

/// Takes `right` over `left` when `right` is present; the merge rule for one
/// scalar field of an item definition.
pub fn overwrite<T>(left: &mut Option<T>, right: Option<T>)
    ensures
        *final(left) == spec_overwrite(*old(left), right),
{
    if right.is_some() {
        *left = right;
    }
}

/// The whole-item merge rule: scalars by [`spec_overwrite`], lists appended.
pub open spec fn spec_item_raw_merge(l: ItemRawV, r: ItemRawV) -> ItemRawV {
    ItemRawV {
        name: spec_overwrite(l.name, r.name),
        hidden: spec_overwrite(l.hidden, r.hidden),
        item_class: spec_overwrite(l.item_class, r.item_class),
        item_name: spec_overwrite(l.item_name, r.item_name),
        item_type_name: l.item_type_name + r.item_type_name,
        item_slot: spec_overwrite(l.item_slot, r.item_slot),
        item_quality: spec_overwrite(l.item_quality, r.item_quality),
        min_ilevel: spec_overwrite(l.min_ilevel, r.min_ilevel),
        max_ilevel: spec_overwrite(l.max_ilevel, r.max_ilevel),
        prefab: l.prefab + r.prefab,
        baseitem: spec_overwrite(l.baseitem, r.baseitem),
        item_logname: spec_overwrite(l.item_logname, r.item_logname),
        attributes: l.attributes + r.attributes,
    }
}

impl ItemRaw {
    /// The empty raw item.
    pub fn new() -> (r: ItemRaw)
        ensures
            r@ == spec_item_raw_empty(),
    {
        let r = ItemRaw {
            name: None,
            hidden: None,
            item_class: None,
            item_name: None,
            item_type_name: Vec::new(),
            item_slot: None,
            item_quality: None,
            min_ilevel: None,
            max_ilevel: None,
            prefab: Vec::new(),
            baseitem: None,
            item_logname: None,
            attributes: Vec::new(),
        };
        proof {
            assert(r@.item_type_name =~= Seq::<Seq<char>>::empty());
            assert(r@.prefab =~= Seq::<Seq<char>>::empty());
            assert(r@.attributes =~= Seq::<(Seq<char>, AttributeV)>::empty());
        }
        r
    }

    /// A copy whose mathematical value equals this one's.
    pub fn duplicate(&self) -> (r: ItemRaw)
        ensures
            r@ == self@,
    {
        let r = ItemRaw {
            name: clone_opt_string(&self.name),
            hidden: clone_opt_string(&self.hidden),
            item_class: clone_opt_string(&self.item_class),
            item_name: clone_opt_string(&self.item_name),
            item_type_name: clone_string_vec(&self.item_type_name),
            item_slot: clone_opt_string(&self.item_slot),
            item_quality: clone_opt_string(&self.item_quality),
            min_ilevel: self.min_ilevel,
            max_ilevel: self.max_ilevel,
            prefab: clone_string_vec(&self.prefab),
            baseitem: clone_opt_string(&self.baseitem),
            item_logname: clone_opt_string(&self.item_logname),
            attributes: clone_attrs(&self.attributes),
        };
        r
    }

    /// Merges `right` into this item: scalars by [`overwrite`], lists
    /// appended; exactly [`spec_item_raw_merge`].
    pub fn merge_from(&mut self, right: ItemRaw)
        ensures
            final(self)@ == spec_item_raw_merge(old(self)@, right@),
    {
        let ItemRaw {
            name,
            hidden,
            item_class,
            item_name,
            mut item_type_name,
            item_slot,
            item_quality,
            min_ilevel,
            max_ilevel,
            mut prefab,
            baseitem,
            item_logname,
            mut attributes,
        } = right;
        overwrite(&mut self.name, name);
        overwrite(&mut self.hidden, hidden);
        overwrite(&mut self.item_class, item_class);
        overwrite(&mut self.item_name, item_name);
        overwrite(&mut self.item_slot, item_slot);
        overwrite(&mut self.item_quality, item_quality);
        overwrite(&mut self.min_ilevel, min_ilevel);
        overwrite(&mut self.max_ilevel, max_ilevel);
        overwrite(&mut self.baseitem, baseitem);
        overwrite(&mut self.item_logname, item_logname);
        self.item_type_name.append(&mut item_type_name);
        self.prefab.append(&mut prefab);
        self.attributes.append(&mut attributes);
        proof {
            assert(final(self)@.item_type_name =~= spec_item_raw_merge(old(self)@, right@).item_type_name);
            assert(final(self)@.prefab =~= spec_item_raw_merge(old(self)@, right@).prefab);
            assert(final(self)@.attributes =~= spec_item_raw_merge(old(self)@, right@).attributes);
        }
    }

    /// Flattens this resolved raw definition into an [`Item`].
    pub fn into_item(self) -> (r: Item)
        ensures
            r@ == spec_into_item(self@),
    {
        Item {
            name: self.name,
            hidden: self.hidden,
            item_class: self.item_class,
            item_name: self.item_name,
            item_type_name: self.item_type_name,
            item_slot: self.item_slot,
            item_quality: self.item_quality,
            min_ilevel: self.min_ilevel,
            max_ilevel: self.max_ilevel,
            prefab: self.prefab,
            baseitem: self.baseitem,
            item_logname: self.item_logname,
            attributes: self.attributes,
        }
    }
}


/// String equality, stated over the strings' character sequences.
pub fn string_eq(a: &String, b: &String) -> (r: bool)
    ensures
        r == (a@ == b@),
{
    a.eq(b)
}

/// Clones an optional string, keeping its mathematical value.
fn clone_opt_string(o: &Option<String>) -> (r: Option<String>)
    ensures
        spec_opt_str(r) == spec_opt_str(*o),
{
    match o {
        Some(s) => Some(s.clone()),
        None => None,
    }
}

/// Clones a list of strings, keeping its mathematical value.
fn clone_string_vec(v: &Vec<String>) -> (r: Vec<String>)
    ensures
        r.deep_view() == v.deep_view(),
{
    let mut r: Vec<String> = Vec::new();
    let mut i: usize = 0;
    proof {
        assert(r.deep_view() =~~= v.deep_view().take(0));
    }
    while i < v.len()
        invariant
            i <= v.len(),
            r.deep_view() =~~= v.deep_view().take(i as int),
        decreases v.len() - i,
    {
        let ghost pre = r@;
        let ghost predv = r.deep_view();
        let x = v[i].clone();
        r.push(x);
        i = i + 1;
        proof {
            assert(predv.len() == pre.len());
            assert(v.deep_view().len() == v@.len());
            assert(predv == v.deep_view().take((i - 1) as int));
            assert(pre.len() == i - 1);
            assert(r@ == pre.push(x));
            assert(r@.len() == i as int);
            assert forall|j: int| 0 <= j < i as int implies r.deep_view()[j] == v.deep_view()[j] by {
                if j < i - 1 {
                    assert(r@[j] == pre[j]);
                    assert(predv[j] == pre[j].deep_view());
                    assert(predv[j] == v.deep_view().take((i - 1) as int)[j]);
                } else {
                    assert(r@[j] == v@[(i - 1) as int]);
                }
            }
            assert(r.deep_view() =~~= v.deep_view().take(i as int));
        }
    }
    proof {
        assert(r.deep_view() =~~= v.deep_view());
    }
    r
}

/// Clones an attribute list, keeping its mathematical value.
fn clone_attrs(v: &Vec<(String, Attribute)>) -> (r: Vec<(String, Attribute)>)
    ensures
        spec_attrs_view(r@) == spec_attrs_view(v@),
{
    let mut r: Vec<(String, Attribute)> = Vec::new();
    let mut i: usize = 0;
    proof {
        assert(spec_attrs_view(r@) =~~= spec_attrs_view(v@).take(0));
    }
    while i < v.len()
        invariant
            i <= v.len(),
            spec_attrs_view(r@) =~~= spec_attrs_view(v@).take(i as int),
        decreases v.len() - i,
    {
        let ghost pre = r@;
        let ghost prev = spec_attrs_view(r@);
        let (k, a) = &v[i];
        let x = (k.clone(), a.duplicate());
        r.push(x);
        i = i + 1;
        proof {
            assert(prev.len() == pre.len());
            assert(spec_attrs_view(v@).len() == v@.len());
            assert(prev == spec_attrs_view(v@).take((i - 1) as int));
            assert(pre.len() == i - 1);
            assert(r@ == pre.push(x));
            assert(r@.len() == i as int);
            assert forall|j: int| 0 <= j < i as int implies spec_attrs_view(r@)[j] == spec_attrs_view(
                v@,
            )[j] by {
                if j < i - 1 {
                    assert(r@[j] == pre[j]);
                    assert(prev[j] == (pre[j].0@, pre[j].1@));
                    assert(prev[j] == spec_attrs_view(v@).take((i - 1) as int)[j]);
                } else {
                    assert(spec_attrs_view(r@)[j] == (r@[j].0@, r@[j].1@));
                    assert(spec_attrs_view(v@)[j] == (v@[j].0@, v@[j].1@));
                }
            }
            assert(spec_attrs_view(r@) =~~= spec_attrs_view(v@).take(i as int));
        }
    }
    proof {
        assert(spec_attrs_view(r@) =~~= spec_attrs_view(v@));
    }
    r
}

/// A resolved item definition.
#[derive(Debug)]
pub struct Item {
    pub name: Option<String>,
    pub hidden: Option<String>,
    pub item_class: Option<String>,
    pub item_name: Option<String>,
    pub item_type_name: Vec<String>,
    pub item_slot: Option<String>,
    pub item_quality: Option<String>,
    pub min_ilevel: Option<u32>,
    pub max_ilevel: Option<u32>,
    pub prefab: Vec<String>,
    pub baseitem: Option<String>,
    pub item_logname: Option<String>,
    pub attributes: Vec<(String, Attribute)>,
}

/// Mathematical value of an [`Item`]; identical in shape to [`ItemRawV`].
pub struct ItemV {
    pub name: Option<Seq<char>>,
    pub hidden: Option<Seq<char>>,
    pub item_class: Option<Seq<char>>,
    pub item_name: Option<Seq<char>>,
    pub item_type_name: Seq<Seq<char>>,
    pub item_slot: Option<Seq<char>>,
    pub item_quality: Option<Seq<char>>,
    pub min_ilevel: Option<u32>,
    pub max_ilevel: Option<u32>,
    pub prefab: Seq<Seq<char>>,
    pub baseitem: Option<Seq<char>>,
    pub item_logname: Option<Seq<char>>,
    pub attributes: Seq<(Seq<char>, AttributeV)>,
}

impl View for Item {
    type V = ItemV;

    open spec fn view(&self) -> ItemV {
        ItemV {
            name: spec_opt_str(self.name),
            hidden: spec_opt_str(self.hidden),
            item_class: spec_opt_str(self.item_class),
            item_name: spec_opt_str(self.item_name),
            item_type_name: self.item_type_name.deep_view(),
            item_slot: spec_opt_str(self.item_slot),
            item_quality: spec_opt_str(self.item_quality),
            min_ilevel: self.min_ilevel,
            max_ilevel: self.max_ilevel,
            prefab: self.prefab.deep_view(),
            baseitem: spec_opt_str(self.baseitem),
            item_logname: spec_opt_str(self.item_logname),
            attributes: spec_attrs_view(self.attributes@),
        }
    }
}

/// The field-for-field image of a resolved raw definition as an item.
pub open spec fn spec_into_item(r: ItemRawV) -> ItemV {
    ItemV {
        name: r.name,
        hidden: r.hidden,
        item_class: r.item_class,
        item_name: r.item_name,
        item_type_name: r.item_type_name,
        item_slot: r.item_slot,
        item_quality: r.item_quality,
        min_ilevel: r.min_ilevel,
        max_ilevel: r.max_ilevel,
        prefab: r.prefab,
        baseitem: r.baseitem,
        item_logname: r.item_logname,
        attributes: r.attributes,
    }
}

/// The last attribute bound to `key`, if any; later entries override earlier
/// ones, mirroring how repeated attribute blocks overlay during the merge.
pub open spec fn spec_attr_lookup(attrs: Seq<(Seq<char>, AttributeV)>, key: Seq<char>) -> Option<
    AttributeV,
>
    decreases attrs.len(),
{
    if attrs.len() == 0 {
        None
    } else if attrs.last().0 == key {
        Some(attrs.last().1)
    } else {
        spec_attr_lookup(attrs.drop_last(), key)
    }
}

impl Item {
    /// Looks an attribute up by name; the last binding wins.
    pub fn get_attribute(&self, key: &String) -> (r: Option<&Attribute>)
        ensures
            match r {
                Some(a) => spec_attr_lookup(self@.attributes, key@) == Some(a@),
                None => spec_attr_lookup(self@.attributes, key@) is None,
            },
    {
        let mut i: usize = self.attributes.len();
        proof {
            assert(self@.attributes.take(i as int) =~= self@.attributes);
        }
        while i > 0
            invariant
                i <= self.attributes.len(),
                spec_attr_lookup(self@.attributes, key@) == spec_attr_lookup(
                    self@.attributes.take(i as int),
                    key@,
                ),
            decreases i,
        {
            i = i - 1;
            let (k, a) = &self.attributes[i];
            proof {
                assert(self@.attributes[i as int] == (k@, a@));
                assert(self@.attributes.take(i + 1).len() == i + 1);
            }
            if string_eq(k, key) {
                proof {
                    assert(self@.attributes.take(i + 1).last() == (k@, a@));
                    assert(spec_attr_lookup(self@.attributes.take(i + 1), key@) == Some(a@));
                }
                return Some(a);
            }
            proof {
                assert(self@.attributes.take(i + 1).drop_last() =~= self@.attributes.take(i as int));
            }
        }
        proof {
            assert(self@.attributes.take(0) =~= Seq::<(Seq<char>, AttributeV)>::empty());
        }
        None
    }
}

/// The registry: resolved items by numeric id, plus the raw prefab pool.
pub struct Schema {
    pub items: U32Map<Item>,
    pub prefabs: Vec<(String, ItemRaw)>,
}

/// View of the prefab pool as a sequence of named raw definitions.
pub open spec fn spec_prefabs_view(v: Seq<(String, ItemRaw)>) -> Seq<(Seq<char>, ItemRawV)> {
    v.map_values(|p: (String, ItemRaw)| (p.0@, p.1@))
}

/// The first prefab with the given name, if any.
pub open spec fn spec_prefab_lookup(prefabs: Seq<(Seq<char>, ItemRawV)>, name: Seq<char>) -> Option<
    ItemRawV,
>
    decreases prefabs.len(),
{
    if prefabs.len() == 0 {
        None
    } else if prefabs.first().0 == name {
        Some(prefabs.first().1)
    } else {
        spec_prefab_lookup(prefabs.drop_first(), name)
    }
}

/// The resolved definition of the named prefab: its parents, resolved with
/// one budget step less, merged left to right, then the prefab's own fields
/// overlaid. An unknown name or an exhausted budget resolves to the empty
/// item.
pub open spec fn spec_make_prefab(
    prefabs: Seq<(Seq<char>, ItemRawV)>,
    name: Seq<char>,
    depth: nat,
) -> ItemRawV
    decreases depth, 0nat, 0nat,
{
    match spec_prefab_lookup(prefabs, name) {
        None => spec_item_raw_empty(),
        Some(op) => {
            if depth == 0 {
                spec_item_raw_empty()
            } else {
                spec_item_raw_merge(
                    spec_resolve_parents(prefabs, op.prefab, (depth - 1) as nat),
                    op,
                )
            }
        },
    }
}

/// The left-to-right merge of the named prefabs, each resolved with budget
/// `depth`.
pub open spec fn spec_resolve_parents(
    prefabs: Seq<(Seq<char>, ItemRawV)>,
    names: Seq<Seq<char>>,
    depth: nat,
) -> ItemRawV
    decreases depth, names.len(), 1nat,
{
    if names.len() == 0 {
        spec_item_raw_empty()
    } else {
        spec_item_raw_merge(
            spec_resolve_parents(prefabs, names.drop_last(), depth),
            spec_make_prefab(prefabs, names.last(), depth),
        )
    }
}

impl Schema {
    /// A registry with no items and no prefabs.
    pub fn new() -> (r: Schema)
        ensures
            r.items@ == Map::<u32, Item>::empty(),
            r.prefabs@.len() == 0,
    {
        Schema { items: U32Map::new(), prefabs: Vec::new() }
    }

    /// Looks an item up by its numeric id; an unknown id is answered with
    /// nothing, never a panic.
    pub fn get(&self, defindex: u32) -> (r: Option<&Item>)
        ensures
            match r {
                Some(item) => self.items@.contains_key(defindex) && *item == self.items@[defindex],
                None => !self.items@.contains_key(defindex),
            },
    {
        self.items.get(defindex)
    }

    /// Finds the raw definition of the named prefab in the pool.
    fn find_prefab(&self, name: &String) -> (r: Option<&ItemRaw>)
        ensures
            match r {
                Some(p) => spec_prefab_lookup(spec_prefabs_view(self.prefabs@), name@) == Some(p@),
                None => spec_prefab_lookup(spec_prefabs_view(self.prefabs@), name@) is None,
            },
    {
        let mut i: usize = 0;
        proof {
            assert(spec_prefabs_view(self.prefabs@).skip(0) =~= spec_prefabs_view(self.prefabs@));
        }
        while i < self.prefabs.len()
            invariant
                i <= self.prefabs.len(),
                spec_prefab_lookup(spec_prefabs_view(self.prefabs@), name@) == spec_prefab_lookup(
                    spec_prefabs_view(self.prefabs@).skip(i as int),
                    name@,
                ),
            decreases self.prefabs.len() - i,
        {
            let (k, p) = &self.prefabs[i];
            proof {
                assert(spec_prefabs_view(self.prefabs@)[i as int] == (k@, p@));
                assert(spec_prefabs_view(self.prefabs@).skip(i as int).first() == (k@, p@));
                assert(spec_prefabs_view(self.prefabs@).skip(i as int).drop_first()
                    =~= spec_prefabs_view(self.prefabs@).skip(i + 1));
            }
            if string_eq(k, name) {
                return Some(p);
            }
            i = i + 1;
        }
        proof {
            assert(spec_prefabs_view(self.prefabs@).skip(self.prefabs@.len() as int)
                =~= Seq::<(Seq<char>, ItemRawV)>::empty());
        }
        None
    }

    /// Resolves the named prefab, merging its parents left to right under a
    /// recursion budget; exactly [`spec_make_prefab`].
    pub fn make_prefab(&self, s: &String, depth: u32) -> (out: ItemRaw)
        ensures
            out@ == spec_make_prefab(spec_prefabs_view(self.prefabs@), s@, depth as nat),
        decreases depth,
    {
        let found = self.find_prefab(s);
        let Some(op) = found else {
            return ItemRaw::new();
        };
        if depth == 0 {
            return ItemRaw::new();
        }
        let op = op.duplicate();
        let ghost pv = spec_prefabs_view(self.prefabs@);
        let mut out = ItemRaw::new();
        let mut i: usize = 0;
        while i < op.prefab.len()
            invariant
                i <= op.prefab.len(),
                out@ == spec_resolve_parents(pv, op@.prefab.take(i as int), (depth - 1) as nat),
                pv == spec_prefabs_view(self.prefabs@),
                depth >= 1,
            decreases op.prefab.len() - i,
        {
            let pi = self.make_prefab(&op.prefab[i], depth - 1);
            out.merge_from(pi);
            proof {
                assert(op@.prefab.take(i + 1).drop_last() =~= op@.prefab.take(i as int));
                assert(op@.prefab.take(i + 1).last() == op@.prefab[i as int]);
            }
            i = i + 1;
        }
        proof {
            assert(op@.prefab.take(op.prefab@.len() as int) =~= op@.prefab);
        }
        out.merge_from(op);
        out
    }
}

} // verus!
