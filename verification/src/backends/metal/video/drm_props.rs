//! What the metal backend reads from DRM property definitions: the values
//! that properties are reset to, the type of a plane, and the planes that
//! can show on a CRTC.

use vstd::prelude::*;
use super::DefaultProperty;
use super::PlaneType;

verus! {

/// The type of a DRM property.
#[derive(Clone, Debug)]
pub enum DrmPropertyType {
    /// An enum (or a bitmask) property: the names and values of its members.
    Enum { values: Vec<(Vec<u8>, u64)>, bitmask: bool },
    Range { min: u64, max: u64 },
    SignedRange { lowest: i64, signed_max: i64 },
    Other,
}

/// The definition of a DRM property.
#[derive(Clone, Debug)]
pub struct PropertyDefinition {
    pub id: u32,
    pub ty: DrmPropertyType,
}

/// The value a property is reset to.
#[derive(Clone, Debug)]
pub enum DefaultValue {
    Fixed(u64),
    /// The enum member with this name.
    Enum(Vec<u8>),
    /// The bitmask of the members with these names.
    Bitmask(Vec<Vec<u8>>),
    /// The largest value of a range.
    RangeMax,
}

/// The value of the first member with the name, if any.
pub open spec fn spec_member(values: Seq<(Vec<u8>, u64)>, name: Seq<u8>) -> Option<u64>
    decreases values.len(),
{
    if values.len() == 0 {
        None
    } else if values[0].0@ == name {
        Some(values[0].1)
    } else {
        spec_member(values.drop_first(), name)
    }
}

/// The bitmask of the members with the names; none where a name is not a
/// member.
pub open spec fn spec_bitmask(values: Seq<(Vec<u8>, u64)>, names: Seq<Vec<u8>>) -> Option<u64>
    decreases names.len(),
{
    if names.len() == 0 {
        Some(0)
    } else {
        match (spec_bitmask(values, names.drop_last()), spec_member(values, names.last()@)) {
            (Some(m), Some(v)) => Some(m | (1u64 << v)),
            _ => None,
        }
    }
}

/// The value a property with the definition is reset to, if the definition
/// allows the default.
pub open spec fn spec_default_value(def: &PropertyDefinition, d: &DefaultValue) -> Option<u64> {
    match d {
        DefaultValue::Fixed(v) => Some(*v),
        DefaultValue::Enum(e) => match &def.ty {
            DrmPropertyType::Enum { values, bitmask } => if !*bitmask {
                spec_member(values@, e@)
            } else {
                None
            },
            _ => None,
        },
        DefaultValue::Bitmask(e) => match &def.ty {
            DrmPropertyType::Enum { values, bitmask } => if *bitmask {
                spec_bitmask(values@, e@)
            } else {
                None
            },
            _ => None,
        },
        DefaultValue::RangeMax => match &def.ty {
            DrmPropertyType::Range { max, .. } => Some(*max),
            DrmPropertyType::SignedRange { signed_max, .. } => Some(*signed_max as u64),
            _ => None,
        },
    }
}

pub(crate) fn bytes_eq(a: &[u8], b: &[u8]) -> (r: bool)
    ensures
        r == (a@ == b@),
{
    if a.len() != b.len() {
        return false;
    }
    let mut i: usize = 0;
    while i < a.len()
        invariant
            i <= a@.len(),
            a@.len() == b@.len(),
            forall|k: int| 0 <= k < i ==> a@[k] == b@[k],
        decreases a@.len() - i,
    {
        if a[i] != b[i] {
            return false;
        }
        i += 1;
    }
    assert(a@ =~= b@);
    true
}

fn member(values: &Vec<(Vec<u8>, u64)>, name: &[u8]) -> (r: Option<u64>)
    ensures
        r == spec_member(values@, name@),
{
    let mut i: usize = 0;
    assert(values@.skip(0) =~= values@);
    while i < values.len()
        invariant
            i <= values@.len(),
            spec_member(values@, name@) == spec_member(values@.skip(i as int), name@),
        decreases values@.len() - i,
    {
        let ghost rest = values@.skip(i as int);
        assert(rest[0] == values@[i as int]);
        assert(rest.drop_first() =~= values@.skip(i + 1));
        if bytes_eq(values[i].0.as_slice(), name) {
            return Some(values[i].1);
        }
        i += 1;
    }
    assert(values@.skip(values@.len() as int).len() == 0);
    None
}

/// Whether every member has a value that names a bit.
pub open spec fn spec_bits_ok(values: Seq<(Vec<u8>, u64)>) -> bool {
    forall|k: int| 0 <= k < values.len() ==> (#[trigger] values[k]).1 < 64
}

proof fn lemma_member_in(values: Seq<(Vec<u8>, u64)>, name: Seq<u8>)
    ensures
        spec_member(values, name) matches Some(v) ==> exists|k: int| 0 <= k < values.len() && #[trigger] values[k].1 == v,
    decreases values.len(),
{
    if values.len() > 0 && values[0].0@ != name {
        lemma_member_in(values.drop_first(), name);
        if spec_member(values, name) is Some {
            let v = spec_member(values, name)->0;
            let k = choose|k: int| 0 <= k < values.drop_first().len() && #[trigger] values.drop_first()[k].1 == v;
            assert(values[k + 1].1 == v);
        }
    } else if values.len() > 0 {
        assert(values[0].1 == spec_member(values, name)->0);
    }
}

fn bitmask_of(values: &Vec<(Vec<u8>, u64)>, names: &Vec<Vec<u8>>) -> (r: Option<u64>)
    requires
        spec_bits_ok(values@),
    ensures
        r == spec_bitmask(values@, names@),
{
    let mut res: u64 = 0;
    let mut i: usize = 0;
    while i < names.len()
        invariant
            i <= names@.len(),
            spec_bits_ok(values@),
            spec_bitmask(values@, names@.take(i as int)) == Some(res),
        decreases names@.len() - i,
    {
        proof {
            assert(names@.take(i + 1).drop_last() =~= names@.take(i as int));
            assert(names@.take(i + 1).last() == names@[i as int]);
        }
        match member(values, names[i].as_slice()) {
            None => {
                proof {
                    lemma_bitmask_none(values@, names@, i as int + 1);
                }
                return None;
            },
            Some(v) => {
                proof {
                    lemma_member_in(values@, names@[i as int]@);
                }
                res = res | (1u64 << v);
            },
        }
        i += 1;
    }
    assert(names@.take(names@.len() as int) =~= names@);
    Some(res)
}

proof fn lemma_bitmask_none(values: Seq<(Vec<u8>, u64)>, names: Seq<Vec<u8>>, k: int)
    requires
        0 < k <= names.len(),
        spec_bitmask(values, names.take(k)) is None,
    ensures
        spec_bitmask(values, names) is None,
    decreases names.len() - k,
{
    if k < names.len() {
        assert(names.take(k + 1).drop_last() =~= names.take(k));
        lemma_bitmask_none(values, names, k + 1);
    } else {
        assert(names.take(k) =~= names);
    }
}

/// Whether the bitmask definitions name bits only.
pub open spec fn spec_definition_ok(def: &PropertyDefinition) -> bool {
    match &def.ty {
        DrmPropertyType::Enum { values, bitmask } => *bitmask ==> spec_bits_ok(values@),
        _ => true,
    }
}

fn default_value(def: &PropertyDefinition, d: &DefaultValue) -> (r: Option<u64>)
    requires
        spec_definition_ok(def),
    ensures
        r == spec_default_value(def, d),
{
    match d {
        DefaultValue::Fixed(v) => Some(*v),
        DefaultValue::Enum(e) => match &def.ty {
            DrmPropertyType::Enum { values, bitmask } => {
                if !*bitmask {
                    member(values, e.as_slice())
                } else {
                    None
                }
            },
            _ => None,
        },
        DefaultValue::Bitmask(e) => match &def.ty {
            DrmPropertyType::Enum { values, bitmask } => {
                if *bitmask {
                    bitmask_of(values, e)
                } else {
                    None
                }
            },
            _ => None,
        },
        DefaultValue::RangeMax => match &def.ty {
            DrmPropertyType::Range { max, .. } => Some(*max),
            DrmPropertyType::SignedRange { signed_max, .. } => Some(*signed_max as u64),
            _ => None,
        },
    }
}

/// The defaults of an object's properties: for each default, in order,
/// whose property the object has (its definition is given) and whose
/// definition allows it, the property and its value.
pub open spec fn spec_default_properties(
    defs: Seq<Option<PropertyDefinition>>,
    defaults: Seq<(String, DefaultValue)>,
) -> Seq<(String, u32, u64)>
    decreases defaults.len(),
{
    if defaults.len() == 0 || defs.len() < defaults.len() {
        Seq::empty()
    } else {
        let k = defaults.len() - 1;
        spec_default_properties(defs.take(k), defaults.drop_last()) + match defs[k] {
            Some(def) => match spec_default_value(&def, &defaults[k].1) {
                Some(v) => seq![(defaults[k].0, def.id, v)],
                None => Seq::empty(),
            },
            None => Seq::empty(),
        }
    }
}

pub open spec fn spec_property_view(p: DefaultProperty) -> (String, u32, u64) {
    (p.name, p.prop, p.value)
}

/// The defaults of an object's properties; `defs` holds, for each default,
/// the definition of the property of that name, where the object has one.
pub fn create_default_properties(
    defs: &[Option<PropertyDefinition>],
    defaults: &[(String, DefaultValue)],
) -> (r: Vec<DefaultProperty>)
    requires
        defs@.len() == defaults@.len(),
        forall|k: int| 0 <= k < defs@.len() ==> (#[trigger] defs@[k] matches Some(d) ==> spec_definition_ok(&d)),
    ensures
        r@.map_values(|p: DefaultProperty| spec_property_view(p)) == spec_default_properties(defs@, defaults@),
{
    let mut res: Vec<DefaultProperty> = Vec::new();
    let mut i: usize = 0;
    while i < defaults.len()
        invariant
            i <= defaults@.len(),
            defs@.len() == defaults@.len(),
            forall|k: int| 0 <= k < defs@.len() ==> (#[trigger] defs@[k] matches Some(d) ==> spec_definition_ok(&d)),
            res@.map_values(|p: DefaultProperty| spec_property_view(p)) == spec_default_properties(
                defs@.take(i as int),
                defaults@.take(i as int),
            ),
        decreases defaults@.len() - i,
    {
        let ghost before = res@;
        proof {
            assert(defaults@.take(i + 1).drop_last() =~= defaults@.take(i as int));
            assert(defs@.take(i + 1).take(i as int) =~= defs@.take(i as int));
            assert(defaults@.take(i + 1)[i as int] == defaults@[i as int]);
            assert(defs@.take(i + 1)[i as int] == defs@[i as int]);
        }
        match &defs[i] {
            Some(def) => {
                match default_value(def, &defaults[i].1) {
                    Some(value) => {
                        let name = defaults[i].0.clone();
                        res.push(DefaultProperty { name, prop: def.id, value });
                        proof {
                            assert(res@.map_values(|p: DefaultProperty| spec_property_view(p)) =~= before.map_values(
                                |p: DefaultProperty| spec_property_view(p),
                            ).push((defaults@[i as int].0, def.id, value)));
                        }
                    },
                    None => {},
                }
            },
            None => {},
        }
        i += 1;
    }
    assert(defaults@.take(defaults@.len() as int) =~= defaults@);
    assert(defs@.take(defs@.len() as int) =~= defs@);
    res
}

/// The type of a plane from the name of its `type` property's value; none
/// for unknown names.
pub fn plane_type_from_name(name: &[u8]) -> (r: Option<PlaneType>)
    ensures
        r == (if name@ == seq![79u8, 118, 101, 114, 108, 97, 121] {
            Some(PlaneType::Overlay)
        } else if name@ == seq![80u8, 114, 105, 109, 97, 114, 121] {
            Some(PlaneType::Primary)
        } else if name@ == seq![67u8, 117, 114, 115, 111, 114] {
            Some(PlaneType::Cursor)
        } else {
            None
        }),
{
    let overlay: [u8; 7] = [79, 118, 101, 114, 108, 97, 121];
    let primary: [u8; 7] = [80, 114, 105, 109, 97, 114, 121];
    let cursor: [u8; 6] = [67, 117, 114, 115, 111, 114];
    assert(overlay@ =~= seq![79u8, 118, 101, 114, 108, 97, 121]);
    assert(primary@ =~= seq![80u8, 114, 105, 109, 97, 114, 121]);
    assert(cursor@ =~= seq![67u8, 117, 114, 115, 111, 114]);
    if bytes_eq(name, overlay.as_slice()) {
        Some(PlaneType::Overlay)
    } else if bytes_eq(name, primary.as_slice()) {
        Some(PlaneType::Primary)
    } else if bytes_eq(name, cursor.as_slice()) {
        Some(PlaneType::Cursor)
    } else {
        None
    }
}

/// The planes (by index) that can show on the CRTC with the index: those
/// whose mask of possible CRTCs has its bit.
pub fn possible_planes(crtc_idx: u32, possible_crtcs: &[u32]) -> (r: Vec<usize>)
    requires
        crtc_idx < 32,
    ensures
        forall|k: usize| #[trigger] r@.contains(k) <==> (k < possible_crtcs@.len() && possible_crtcs@[k as int] & (1u32
            << crtc_idx) != 0),
        forall|a: int, b: int| 0 <= a < b < r@.len() ==> r@[a] < r@[b],
{
    let mask: u32 = 1u32 << crtc_idx;
    let mut res: Vec<usize> = Vec::new();
    let mut k: usize = 0;
    while k < possible_crtcs.len()
        invariant
            k <= possible_crtcs@.len(),
            mask == 1u32 << crtc_idx,
            forall|q: usize| #[trigger] res@.contains(q) <==> (q < k && possible_crtcs@[q as int] & mask != 0),
            forall|a: int, b: int| 0 <= a < b < res@.len() ==> res@[a] < res@[b],
            forall|a: int| 0 <= a < res@.len() ==> res@[a] < k,
        decreases possible_crtcs@.len() - k,
    {
        let ghost before = res@;
        if possible_crtcs[k] & mask != 0 {
            res.push(k);
        }
        proof {
            assert forall|q: usize| #[trigger] res@.contains(q) <==> (q < k + 1 && possible_crtcs@[q as int] & mask != 0) by {
                if res@.contains(q) {
                    let j = choose|j: int| 0 <= j < res@.len() && res@[j] == q;
                    if j < before.len() {
                        assert(before.contains(q));
                    }
                }
                if q < k && possible_crtcs@[q as int] & mask != 0 {
                    assert(before.contains(q));
                    let j = choose|j: int| 0 <= j < before.len() && before[j] == q;
                    assert(res@[j] == q);
                }
                if q == k && possible_crtcs@[q as int] & mask != 0 {
                    assert(res@[res@.len() - 1] == q);
                }
            }
        }
        k += 1;
    }
    res
}

} // verus!
