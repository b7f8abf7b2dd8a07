//! Allocation of scanout buffers: which modifiers and GBM usage flags the
//! render and scanout buffers are allocated with for each way of getting a
//! rendered frame onto the scanout device (prime methods), the order in
//! which the methods are tried, and how frames are copied between buffers.

use vstd::prelude::*;
use indexmap::IndexMap;
use indexmap::IndexSet;
use std::collections::HashSet;

pub mod prime_methods;
pub mod error_text;

verus! {

broadcast use vstd::seq_lib::group_seq_properties;

/// A DRM format modifier.
pub type Modifier = u64;

/// `DRM_FORMAT_MOD_LINEAR`.
pub const LINEAR_MODIFIER: u64 = 0;

/// GBM buffer-object usage flags (`enum gbm_bo_flags`).
pub const GBM_BO_USE_SCANOUT: u32 = 1;
pub const GBM_BO_USE_RENDERING: u32 = 4;
pub const GBM_BO_USE_LINEAR: u32 = 16;

#[verifier::external_type_specification]
#[verifier::external_body]
#[verifier::reject_recursive_types(K)]
#[verifier::reject_recursive_types(V)]
#[verifier::reject_recursive_types(S)]
pub struct ExIndexMap<K, V, S>(IndexMap<K, V, S>);

#[verifier::external_type_specification]
#[verifier::external_body]
#[verifier::reject_recursive_types(T)]
#[verifier::reject_recursive_types(S)]
pub struct ExIndexSet<T, S>(IndexSet<T, S>);

/// How a gfx API can write a buffer with a given modifier.
#[derive(Copy, Clone, Debug, PartialEq, Eq, Structural)]
pub struct GfxWriteModifier {
    /// Whether buffers with this modifier must be allocated with
    /// `GBM_BO_USE_RENDERING` to be rendered to.
    pub needs_render_usage: bool,
}

/// The entries of an index map of write modifiers, in insertion order.
pub uninterp spec fn write_modifier_entries(m: IndexMap<u64, GfxWriteModifier>) -> Seq<(u64, GfxWriteModifier)>;

/// The elements of an index set of modifiers, in insertion order.
pub uninterp spec fn modifier_set_items(s: IndexSet<u64>) -> Seq<u64>;

/// The keys of a sequence of entries.
pub open spec fn entry_keys(e: Seq<(u64, GfxWriteModifier)>) -> Seq<u64> {
    e.map_values(|p: (u64, GfxWriteModifier)| p.0)
}

/// Calls `IndexMap::iter` and copies the entries out in order. The contract
/// claims that the result lists the map's entries in its order and that no
/// key occurs twice, as the map's keys are unique.
#[verifier::external_body]
fn index_map_entries(m: &IndexMap<u64, GfxWriteModifier>) -> (r: Vec<(u64, GfxWriteModifier)>)
    ensures
        r@ == write_modifier_entries(*m),
        entry_keys(r@).no_duplicates(),
{
    m.iter().map(|(k, v)| (*k, *v)).collect()
}

/// Calls `IndexMap::get`. The contract claims that the result is the value
/// stored under the key, if any.
#[verifier::external_body]
fn index_map_get(m: &IndexMap<u64, GfxWriteModifier>, k: u64) -> (r: Option<GfxWriteModifier>)
    ensures
        r == spec_entry_lookup(write_modifier_entries(*m), k),
{
    m.get(&k).copied()
}

/// Calls `IndexSet::iter` and copies the elements out in order. The
/// contract claims that the result lists the set's elements in its order
/// and that none occurs twice.
#[verifier::external_body]
fn modifier_set_vec(s: &IndexSet<u64>) -> (r: Vec<u64>)
    ensures
        r@ == modifier_set_items(*s),
        r@.no_duplicates(),
{
    s.iter().copied().collect()
}

/// Calls `IndexSet::contains`. The contract claims that the result says
/// whether the element is in the set.
#[verifier::external_body]
pub(crate) fn modifier_set_contains(s: &IndexSet<u64>, m: u64) -> (r: bool)
    ensures
        r == modifier_set_items(*s).contains(m),
{
    s.contains(&m)
}

/// The value stored under a key in a sequence of entries whose keys are
/// unique.
pub open spec fn spec_entry_lookup(e: Seq<(u64, GfxWriteModifier)>, k: u64) -> Option<GfxWriteModifier> {
    if exists|i: int| 0 <= i < e.len() && #[trigger] e[i].0 == k {
        Some(e[choose|i: int| 0 <= i < e.len() && #[trigger] e[i].0 == k].1)
    } else {
        None
    }
}

#[verifier::external_type_specification]
#[verifier::external_body]
pub struct ExAhashRandomState(ahash::RandomState);

/// Collects the modifiers into an `ahash::HashSet` (`FromIterator` with
/// `ahash::RandomState`). The contract claims that the set holds exactly the
/// given modifiers.
#[verifier::external_body]
fn modifier_hash_set(items: &[u64]) -> (r: HashSet<u64, ahash::RandomState>)
    ensures
        r@ == items@.to_set(),
{
    items.iter().copied().collect()
}

/// Calls `HashSet::contains` on an `ahash::HashSet`. The contract claims
/// that the result says whether the modifier is in the set.
#[verifier::external_body]
fn modifier_hash_set_contains(s: &HashSet<u64, ahash::RandomState>, m: u64) -> (r: bool)
    ensures
        r == s@.contains(m),
{
    s.contains(&m)
}

/// A pixel format as a gfx API supports it: the modifiers with which it can
/// render to (write) and sample from (read) buffers of the format.
pub struct GfxFormat {
    pub write_modifiers: IndexMap<u64, GfxWriteModifier>,
    pub read_modifiers: IndexSet<u64>,
}

/// The modifiers the gfx API can render to, in its order.
pub open spec fn spec_render_modifiers(f: &GfxFormat) -> Seq<u64> {
    entry_keys(write_modifier_entries(f.write_modifiers))
}

/// The modifiers the gfx API can sample from, in its order.
pub open spec fn spec_sample_modifiers(f: &GfxFormat) -> Seq<u64> {
    modifier_set_items(f.read_modifiers)
}

/// The modifiers of `left` that occur in `right`, in the order of `left`.
pub open spec fn spec_intersect(left: Seq<u64>, right: Seq<u64>) -> Seq<u64> {
    left.filter(|m: u64| right.contains(m))
}

/// The modifiers that the gfx API can both render to and sample from and
/// that occur in `right`, in the gfx API's order.
pub open spec fn spec_intersect_render(f: &GfxFormat, right: Seq<u64>) -> Seq<u64> {
    spec_intersect(spec_intersect(spec_render_modifiers(f), spec_sample_modifiers(f)), right)
}

/// Only the linear modifier, if the modifiers hold it; else the modifiers.
pub open spec fn spec_linear_only(m: Seq<u64>) -> Seq<u64> {
    if m.contains(LINEAR_MODIFIER) {
        seq![LINEAR_MODIFIER]
    } else {
        m
    }
}

/// The modifiers that the gfx API can sample from.
pub fn sample_modifiers(fmt: &GfxFormat) -> (r: Vec<u64>)
    ensures
        r@ == spec_sample_modifiers(fmt),
{
    modifier_set_vec(&fmt.read_modifiers)
}

/// The modifiers that the gfx API can render to.
pub fn render_modifiers(fmt: &GfxFormat) -> (r: Vec<u64>)
    ensures
        r@ == spec_render_modifiers(fmt),
        r@.no_duplicates(),
{
    let entries = index_map_entries(&fmt.write_modifiers);
    let mut res: Vec<u64> = Vec::new();
    let mut i: usize = 0;
    while i < entries.len()
        invariant
            i <= entries@.len(),
            res@.len() == i,
            forall|j: int| 0 <= j < i ==> #[trigger] res@[j] == entries@[j].0,
        decreases entries@.len() - i,
    {
        res.push(entries[i].0);
        i += 1;
    }
    assert(res@ =~= entry_keys(entries@));
    res
}

/// Keeps the modifiers of `left` that occur in `right`, in order.
pub fn intersect_modifiers(left: &[u64], right: &[u64]) -> (r: Vec<u64>)
    ensures
        r@ == spec_intersect(left@, right@),
{
    let right_set = modifier_hash_set(right);
    let mut res: Vec<u64> = Vec::new();
    let mut i: usize = 0;
    while i < left.len()
        invariant
            i <= left@.len(),
            right_set@ == right@.to_set(),
            res@ == spec_intersect(left@.take(i as int), right@),
        decreases left@.len() - i,
    {
        let m = left[i];
        let keep = modifier_hash_set_contains(&right_set, m);
        proof {
            reveal(Seq::filter);
            assert(left@.take(i + 1).drop_last() =~= left@.take(i as int));
            assert(right@.to_set().contains(m) == right@.contains(m));
        }
        if keep {
            res.push(m);
        }
        i += 1;
    }
    assert(left@.take(left@.len() as int) =~= left@);
    res
}

/// What a filter keeps of a list without duplicates occurs in the list,
/// once each.
pub proof fn lemma_filter_no_duplicates(s: Seq<u64>, p: spec_fn(u64) -> bool)
    requires
        s.no_duplicates(),
    ensures
        s.filter(p).no_duplicates(),
        forall|x: u64| s.filter(p).contains(x) ==> s.contains(x),
    decreases s.len(),
{
    reveal(Seq::filter);
    if s.len() > 0 {
        let d = s.drop_last();
        assert(d.no_duplicates()) by {
            assert forall|i: int, j: int| 0 <= i < d.len() && 0 <= j < d.len() && i != j implies d[i] != d[j] by {
                assert(d[i] == s[i] && d[j] == s[j]);
            }
        }
        lemma_filter_no_duplicates(d, p);
        assert forall|x: u64| s.filter(p).contains(x) implies s.contains(x) by {
            if d.filter(p).contains(x) {
                assert(d.contains(x));
                let k = choose|k: int| 0 <= k < d.len() && d[k] == x;
                assert(s[k] == x);
            } else {
                assert(x == s.last());
                assert(s[s.len() - 1] == x);
            }
        }
        if p(s.last()) {
            assert(!d.contains(s.last())) by {
                if d.contains(s.last()) {
                    let k = choose|k: int| 0 <= k < d.len() && d[k] == s.last();
                    assert(s[k] == s[s.len() - 1]);
                }
            }
            let f = d.filter(p);
            assert forall|i: int, j: int|
                0 <= i < f.push(s.last()).len() && 0 <= j < f.push(s.last()).len() && i != j implies f.push(s.last())[i]
                != f.push(s.last())[j] by {
                if i == f.len() {
                    assert(!f.contains(s.last()));
                    assert(f[j] == f.push(s.last())[j]);
                } else if j == f.len() {
                    assert(!f.contains(s.last()));
                    assert(f[i] == f.push(s.last())[i]);
                }
            }
        }
    }
}

/// Keeps the modifiers that the gfx API can both render to and sample from
/// and that occur in `right`, in the gfx API's order; none occurs twice.
pub fn intersect_render_modifiers(left: &GfxFormat, right: &[u64]) -> (r: Vec<u64>)
    ensures
        r@ == spec_intersect_render(left, right@),
        r@.no_duplicates(),
{
    let writable = render_modifiers(left);
    let readable = sample_modifiers(left);
    let both = intersect_modifiers(writable.as_slice(), readable.as_slice());
    proof {
        lemma_filter_no_duplicates(writable@, |m: u64| readable@.contains(m));
        lemma_filter_no_duplicates(both@, |m: u64| right@.contains(m));
    }
    intersect_modifiers(both.as_slice(), right)
}

/// Replaces the modifiers by the linear modifier alone if they hold it.
pub fn make_linear_only(modifiers: &mut Vec<u64>)
    ensures
        final(modifiers)@ == spec_linear_only(old(modifiers)@),
{
    let mut found = false;
    let mut i: usize = 0;
    while i < modifiers.len()
        invariant
            i <= modifiers@.len(),
            found == modifiers@.take(i as int).contains(LINEAR_MODIFIER),
        decreases modifiers@.len() - i,
    {
        proof {
            assert(modifiers@.take(i + 1) =~= modifiers@.take(i as int).push(modifiers@[i as int]));
        }
        if modifiers[i] == LINEAR_MODIFIER {
            found = true;
        }
        i += 1;
    }
    assert(modifiers@.take(modifiers@.len() as int) =~= modifiers@);
    if found {
        *modifiers = vec![LINEAR_MODIFIER];
    }
}

/// A modifier that a copy device can read from or write to, up to a size.
#[derive(Copy, Clone, Debug, PartialEq, Eq, Structural)]
pub struct CopyDeviceSupport {
    pub modifier: u64,
    pub max_width: u32,
    pub max_height: u32,
}

/// What a copy device can copy from and to, for one format.
pub struct CopyDeviceFormat {
    pub src_support: Vec<CopyDeviceSupport>,
    pub dst_support: Vec<CopyDeviceSupport>,
}

/// Whether a copy-device entry allows buffers of the given size; the size
/// is compared as unsigned, so a negative size allows none.
pub open spec fn spec_support_fits(s: CopyDeviceSupport, width: i32, height: i32) -> bool {
    s.max_width >= width as u32 && s.max_height >= height as u32
}

/// The modifiers of the entries that allow buffers of the given size, in
/// order.
pub open spec fn spec_copy_modifiers(support: Seq<CopyDeviceSupport>, width: i32, height: i32) -> Seq<u64> {
    support.filter(|s: CopyDeviceSupport| spec_support_fits(s, width, height)).map_values(
        |s: CopyDeviceSupport| s.modifier,
    )
}

/// Whether any entry that allows buffers of the given size is linear.
pub open spec fn spec_copy_supports_linear(support: Seq<CopyDeviceSupport>, width: i32, height: i32) -> bool {
    spec_copy_modifiers(support, width, height).contains(LINEAR_MODIFIER)
}

/// Whether any of the write modifiers needs `GBM_BO_USE_RENDERING`.
pub open spec fn spec_needs_render_usage(m: Seq<GfxWriteModifier>) -> bool {
    exists|i: int| 0 <= i < m.len() && (#[trigger] m[i]).needs_render_usage
}

/// Whether any of the write modifiers needs `GBM_BO_USE_RENDERING`.
pub fn needs_render_usage(modifiers: &[GfxWriteModifier]) -> (r: bool)
    ensures
        r == spec_needs_render_usage(modifiers@),
{
    let mut i: usize = 0;
    while i < modifiers.len()
        invariant
            i <= modifiers@.len(),
            forall|j: int| 0 <= j < i ==> !(#[trigger] modifiers@[j]).needs_render_usage,
        decreases modifiers@.len() - i,
    {
        if modifiers[i].needs_render_usage {
            return true;
        }
        i += 1;
    }
    false
}

/// What the allocation of one set of scanout buffers starts from: the
/// render device's format, what the scanout device and the copy devices
/// support, the plane's modifiers and the buffer size.
pub struct Builder<'a> {
    /// The format as the render device's gfx API supports it.
    pub render_fmt: &'a GfxFormat,
    /// The format as the scanout device's gfx API supports it, if it does.
    pub dev_fmt: Option<&'a GfxFormat>,
    /// The modifiers the plane can scan out.
    pub plane_modifiers: &'a IndexSet<u64>,
    pub width: i32,
    pub height: i32,
    pub cursor: bool,
    /// What the render device's copy device supports, if it has one.
    pub render_copy_device: Option<&'a CopyDeviceFormat>,
    /// What the scanout device's copy device supports, if it has one.
    pub dev_copy_device: Option<&'a CopyDeviceFormat>,
    /// Whether udmabufs can be created.
    pub udmabuf_available: bool,
}

/// The modifiers and GBM usage a buffer object is allocated with.
pub struct BoAllocationSettings {
    pub modifiers: Vec<u64>,
    pub usage: u32,
}

/// The GBM usage of a buffer: scanout buffers are scanout-capable, and
/// linear if they hold a cursor; buffers that are rendered to with a
/// modifier that needs it have the rendering usage.
pub open spec fn spec_usage(scanout: bool, cursor: bool, needs_render_usage: bool) -> u32 {
    ((if scanout { GBM_BO_USE_SCANOUT as int } else { 0 }) + (if scanout && cursor {
        GBM_BO_USE_LINEAR as int
    } else {
        0
    }) + (if needs_render_usage { GBM_BO_USE_RENDERING as int } else { 0 })) as u32
}

proof fn lemma_usage_bits()
    by (bit_vector)
    ensures
        0u32 | 1u32 == 1u32,
        1u32 | 16u32 == 17u32,
        0u32 | 4u32 == 4u32,
        1u32 | 4u32 == 5u32,
        17u32 | 4u32 == 21u32,
{
}

/// The write modifiers of the entries, in order.
pub open spec fn entry_values(e: Seq<(u64, GfxWriteModifier)>) -> Seq<GfxWriteModifier> {
    e.map_values(|p: (u64, GfxWriteModifier)| p.1)
}

/// Whether a looked-up write modifier exists and needs
/// `GBM_BO_USE_RENDERING`.
pub open spec fn spec_found_needs_render(o: Option<GfxWriteModifier>) -> bool {
    match o {
        Some(w) => w.needs_render_usage,
        None => false,
    }
}

/// Whether the format's write modifier of any of the modifiers needs
/// `GBM_BO_USE_RENDERING`.
pub open spec fn spec_lookup_needs_render_usage(modifiers: Seq<u64>, fmt: &GfxFormat) -> bool {
    exists|i: int|
        0 <= i < modifiers.len() && spec_found_needs_render(
            #[trigger] spec_entry_lookup(write_modifier_entries(fmt.write_modifiers), modifiers[i]),
        )
}

impl BoAllocationSettings {
    /// Settings for the keys of the write-modifier entries; the rendering
    /// usage is added where `rendering` holds and a modifier needs it.
    pub fn new1(
        common: &Builder,
        modifiers: &[(u64, GfxWriteModifier)],
        scanout: bool,
        rendering: bool,
        usage_out: &mut Option<u32>,
    ) -> (r: Self)
        ensures
            r.modifiers@ == entry_keys(modifiers@),
            r.usage == spec_usage(
                scanout,
                common.cursor,
                rendering && spec_needs_render_usage(entry_values(modifiers@)),
            ),
            *final(usage_out) == Some(r.usage),
    {
        let mut keys: Vec<u64> = Vec::new();
        let mut values: Vec<GfxWriteModifier> = Vec::new();
        let mut i: usize = 0;
        while i < modifiers.len()
            invariant
                i <= modifiers@.len(),
                keys@.len() == i,
                values@.len() == i,
                forall|j: int| 0 <= j < i ==> #[trigger] keys@[j] == modifiers@[j].0,
                forall|j: int| 0 <= j < i ==> #[trigger] values@[j] == modifiers@[j].1,
            decreases modifiers@.len() - i,
        {
            keys.push(modifiers[i].0);
            values.push(modifiers[i].1);
            i += 1;
        }
        assert(keys@ =~= entry_keys(modifiers@));
        assert(values@ =~= entry_values(modifiers@));
        let needs = rendering && needs_render_usage(values.as_slice());
        Self::new3(common, keys.as_slice(), scanout, needs, usage_out)
    }

    /// Settings for the modifiers; the rendering usage is added where
    /// `rendering` holds and the format's write modifier of one of them
    /// needs it.
    pub fn new2(
        common: &Builder,
        modifiers: &[u64],
        fmt: &GfxFormat,
        scanout: bool,
        rendering: bool,
        usage_out: &mut Option<u32>,
    ) -> (r: Self)
        ensures
            r.modifiers@ == modifiers@,
            r.usage == spec_usage(
                scanout,
                common.cursor,
                rendering && spec_lookup_needs_render_usage(modifiers@, fmt),
            ),
            *final(usage_out) == Some(r.usage),
    {
        let mut needs = false;
        if rendering {
            let mut i: usize = 0;
            while i < modifiers.len() && !needs
                invariant
                    i <= modifiers@.len(),
                    needs ==> spec_lookup_needs_render_usage(modifiers@, fmt),
                    !needs ==> forall|j: int|
                        0 <= j < i ==> !spec_found_needs_render(
                            #[trigger] spec_entry_lookup(write_modifier_entries(fmt.write_modifiers), modifiers@[j]),
                        ),
                decreases modifiers@.len() - i,
            {
                let w = index_map_get(&fmt.write_modifiers, modifiers[i]);
                match w {
                    Some(w) => {
                        if w.needs_render_usage {
                            needs = true;
                        }
                    },
                    None => {},
                }
                proof {
                    if needs {
                        assert(spec_found_needs_render(
                            spec_entry_lookup(write_modifier_entries(fmt.write_modifiers), modifiers@[i as int]),
                        ));
                    }
                }
                i += 1;
            }
        }
        Self::new3(common, modifiers, scanout, needs, usage_out)
    }

    /// Settings for the modifiers with the usage that `scanout`, the
    /// cursor flag and `needs_render_usage` call for.
    pub fn new3(
        common: &Builder,
        modifiers: &[u64],
        scanout: bool,
        needs_render_usage: bool,
        usage_out: &mut Option<u32>,
    ) -> (r: Self)
        ensures
            r.modifiers@ == modifiers@,
            r.usage == spec_usage(scanout, common.cursor, needs_render_usage),
            *final(usage_out) == Some(r.usage),
    {
        proof {
            lemma_usage_bits();
        }
        let mut usage: u32 = 0;
        if scanout {
            usage = usage | GBM_BO_USE_SCANOUT;
            if common.cursor {
                usage = usage | GBM_BO_USE_LINEAR;
            }
        }
        if needs_render_usage {
            usage = usage | GBM_BO_USE_RENDERING;
        }
        *usage_out = Some(usage);
        let mut mods: Vec<u64> = Vec::new();
        let mut i: usize = 0;
        while i < modifiers.len()
            invariant
                i <= modifiers@.len(),
                mods@ == modifiers@.take(i as int),
            decreases modifiers@.len() - i,
        {
            mods.push(modifiers[i]);
            i += 1;
            assert(mods@ =~= modifiers@.take(i as int));
        }
        assert(modifiers@.take(modifiers@.len() as int) =~= modifiers@);
        BoAllocationSettings { modifiers: mods, usage }
    }
}

/// The write modifiers of the entries, in order.
fn entry_values_vec(entries: &Vec<(u64, GfxWriteModifier)>) -> (r: Vec<GfxWriteModifier>)
    ensures
        r@ == entry_values(entries@),
{
    let mut res: Vec<GfxWriteModifier> = Vec::new();
    let mut i: usize = 0;
    while i < entries.len()
        invariant
            i <= entries@.len(),
            res@.len() == i,
            forall|j: int| 0 <= j < i ==> #[trigger] res@[j] == entries@[j].1,
        decreases entries@.len() - i,
    {
        res.push(entries[i].1);
        i += 1;
    }
    assert(res@ =~= entry_values(entries@));
    res
}

/// The usage of a buffer that is allocated on a device, scanned out there
/// and rendered to; a cursor buffer is linear.
pub open spec fn spec_device_usage(cursor: bool, needs_render_usage: bool) -> u32 {
    ((GBM_BO_USE_SCANOUT as int) + (if cursor { GBM_BO_USE_LINEAR as int } else { 0 }) + (if needs_render_usage {
        GBM_BO_USE_RENDERING as int
    } else {
        0
    })) as u32
}

/// The usage of a linear bridge buffer on the render device.
pub open spec fn spec_bridge_usage(needs_render_usage: bool) -> u32 {
    ((GBM_BO_USE_LINEAR as int) + (if needs_render_usage { GBM_BO_USE_RENDERING as int } else { 0 })) as u32
}

proof fn lemma_scanout_usage_bits()
    by (bit_vector)
    ensures
        (4u32 | 1u32) & !4u32 == 1u32,
        ((4u32 | 1u32) & !4u32) | 16u32 == 17u32,
        (4u32 | 1u32) | 16u32 == 21u32,
        (4u32 | 16u32) & !4u32 == 16u32,
        4u32 | 1u32 == 5u32,
        4u32 | 16u32 == 20u32,
{
}

/// The modifiers and usage of the buffer that a device scans out: the
/// modifiers its gfx API can write that the plane supports, in the API's
/// order; the format must be supported and some modifier must remain.
pub open spec fn spec_scanout_dev_plan(
    dev_fmt: Option<&GfxFormat>,
    plane_modifiers: Seq<u64>,
    cursor: bool,
) -> Result<(Seq<u64>, u32), crate::backends::metal::ScanoutBufferErrorKind> {
    match dev_fmt {
        None => Err(crate::backends::metal::ScanoutBufferErrorKind::SodUnsupportedFormat),
        Some(f) => {
            let possible = spec_filter_entries(write_modifier_entries(f.write_modifiers), plane_modifiers, None);
            if possible.len() == 0 {
                Err(crate::backends::metal::ScanoutBufferErrorKind::SodNoWritableModifier)
            } else {
                Ok((entry_keys(possible), spec_device_usage(cursor, spec_needs_render_usage(entry_values(possible)))))
            }
        },
    }
}

/// Plans the buffer that a device scans out (see `spec_scanout_dev_plan`).
pub fn scanout_dev_plan(
    dev_fmt: Option<&GfxFormat>,
    plane_modifiers: &IndexSet<u64>,
    cursor: bool,
) -> (r: Result<BoAllocationSettings, crate::backends::metal::ScanoutBufferErrorKind>)
    ensures
        match spec_scanout_dev_plan(dev_fmt, modifier_set_items(*plane_modifiers), cursor) {
            Ok((m, u)) => r matches Ok(s) && s.modifiers@ == m && s.usage == u,
            Err(e) => r == Err::<BoAllocationSettings, crate::backends::metal::ScanoutBufferErrorKind>(e),
        },
{
    let f = match dev_fmt {
        Some(f) => f,
        None => {
            return Err(crate::backends::metal::ScanoutBufferErrorKind::SodUnsupportedFormat);
        },
    };
    let entries = index_map_entries(&f.write_modifiers);
    let possible = filter_entries(&entries, plane_modifiers, None);
    if possible.len() == 0 {
        return Err(crate::backends::metal::ScanoutBufferErrorKind::SodNoWritableModifier);
    }
    let values = entry_values_vec(&possible);
    let needs = needs_render_usage(values.as_slice());
    proof {
        lemma_scanout_usage_bits();
    }
    let mut usage = GBM_BO_USE_RENDERING | GBM_BO_USE_SCANOUT;
    if !needs {
        usage = usage & !GBM_BO_USE_RENDERING;
    }
    if cursor {
        usage = usage | GBM_BO_USE_LINEAR;
    }
    Ok(BoAllocationSettings { modifiers: keys_of(&possible), usage })
}

/// The modifiers and usage of the linear bridge buffer that another render
/// device renders into: the modifiers its gfx API can write that the
/// scanout device can read, in the API's order.
pub open spec fn spec_scanout_bridge_plan(
    render_fmt: Option<&GfxFormat>,
    dev_read_modifiers: Seq<u64>,
) -> Result<(Seq<u64>, u32), crate::backends::metal::ScanoutBufferErrorKind> {
    match render_fmt {
        None => Err(crate::backends::metal::ScanoutBufferErrorKind::RenderUnsupportedFormat),
        Some(f) => {
            let possible = spec_filter_entries(write_modifier_entries(f.write_modifiers), dev_read_modifiers, None);
            if possible.len() == 0 {
                Err(crate::backends::metal::ScanoutBufferErrorKind::RenderNoWritableModifier)
            } else {
                Ok((entry_keys(possible), spec_bridge_usage(spec_needs_render_usage(entry_values(possible)))))
            }
        },
    }
}

/// Plans the bridge buffer on another render device (see
/// `spec_scanout_bridge_plan`).
pub fn scanout_bridge_plan(
    render_fmt: Option<&GfxFormat>,
    dev_fmt: &GfxFormat,
) -> (r: Result<BoAllocationSettings, crate::backends::metal::ScanoutBufferErrorKind>)
    ensures
        match spec_scanout_bridge_plan(render_fmt, spec_sample_modifiers(dev_fmt)) {
            Ok((m, u)) => r matches Ok(s) && s.modifiers@ == m && s.usage == u,
            Err(e) => r == Err::<BoAllocationSettings, crate::backends::metal::ScanoutBufferErrorKind>(e),
        },
{
    let f = match render_fmt {
        Some(f) => f,
        None => {
            return Err(crate::backends::metal::ScanoutBufferErrorKind::RenderUnsupportedFormat);
        },
    };
    let entries = index_map_entries(&f.write_modifiers);
    let possible = filter_entries(&entries, &dev_fmt.read_modifiers, None);
    if possible.len() == 0 {
        return Err(crate::backends::metal::ScanoutBufferErrorKind::RenderNoWritableModifier);
    }
    let values = entry_values_vec(&possible);
    let needs = needs_render_usage(values.as_slice());
    proof {
        lemma_scanout_usage_bits();
    }
    let mut usage = GBM_BO_USE_RENDERING | GBM_BO_USE_LINEAR;
    if !needs {
        usage = usage & !GBM_BO_USE_RENDERING;
    }
    Ok(BoAllocationSettings { modifiers: keys_of(&possible), usage })
}

impl<'a> Builder<'a> {
    /// The modifiers of the entries that allow buffers of this size, in
    /// order.
    pub fn copy_modifiers(&self, support: &[CopyDeviceSupport]) -> (r: Vec<u64>)
        ensures
            r@ == spec_copy_modifiers(support@, self.width, self.height),
    {
        let mut res: Vec<u64> = Vec::new();
        let mut i: usize = 0;
        while i < support.len()
            invariant
                i <= support@.len(),
                res@ == spec_copy_modifiers(support@.take(i as int), self.width, self.height),
            decreases support@.len() - i,
        {
            let s = support[i];
            let fits = s.max_width >= self.width as u32 && s.max_height >= self.height as u32;
            proof {
                reveal(Seq::filter);
                let p = |s: CopyDeviceSupport| spec_support_fits(s, self.width, self.height);
                let f = |s: CopyDeviceSupport| s.modifier;
                let pre = support@.take(i as int);
                let cur = support@.take(i + 1);
                assert(cur.drop_last() =~= pre);
                assert(cur.last() == s);
                assert(pre.filter(p).push(s).map_values(f) =~= pre.filter(p).map_values(f).push(s.modifier));
            }
            if fits {
                res.push(s.modifier);
            }
            i += 1;
        }
        assert(support@.take(support@.len() as int) =~= support@);
        res
    }

    /// Whether an entry that allows buffers of this size is linear.
    pub fn copy_supports_linear(&self, support: &[CopyDeviceSupport]) -> (r: bool)
        ensures
            r == spec_copy_supports_linear(support@, self.width, self.height),
    {
        let m = self.copy_modifiers(support);
        let mut i: usize = 0;
        while i < m.len()
            invariant
                i <= m@.len(),
                m@ == spec_copy_modifiers(support@, self.width, self.height),
                forall|j: int| 0 <= j < i ==> m@[j] != LINEAR_MODIFIER,
            decreases m@.len() - i,
        {
            if m[i] == LINEAR_MODIFIER {
                assert(m@[i as int] == LINEAR_MODIFIER);
                return true;
            }
            i += 1;
        }
        false
    }
}

/// Why a set of scanout buffers could not be allocated with one method.
/// Where the cause is an error of a device API, its message is carried.
#[derive(Clone, Debug)]
pub enum ScanoutBufferErrorKind {
    SodUnsupportedFormat,
    SodBufferAllocation(String),
    SodAddfb2(String),
    SodImportSodImage(String),
    SodImportFb(String),
    RenderWriteReadSodReadIntersection,
    SodWriteReadPlaneIntersection,
    SodWritePlaneIntersection,
    RenderWriteReadCopySrcIntersection,
    SodPlaneRenderCopyDstIntersection,
    RenderWriteReadSodCopySrcIntersection,
    SodPlaneCopyDstIntersection,
    RenderBufferAllocation(String),
    RenderImportImage(String),
    RenderImportFb(String),
    RenderClear(String),
    RenderImportRenderTexture(String),
    SodImportRenderImage(String),
    SodImportRenderTexture(String),
    UdmabufNotAvailable,
    RenderNoCopyDevice,
    SodNoCopyDevice,
    RenderNoCopyToLinear,
    SodNoCopyFromLinear,
    CreateUdmabuf(String),
    RenderCreateCopyToUdmabuf(String),
    RenderCreateCopyToSecondary(String),
    SodCreateCopyFromUdmabuf(String),
    SodCreateCopyFromSecondary(String),
    SodCreateCopyFromRender(String),
    RenderCreateCopyToSod(String),
    RenderCreateCopyBuffer(String),
}

/// What was learned while preparing an allocation, for the error report.
pub struct RenderBufferAllocationDebug {
    pub dev_copy_src_modifiers: Option<Vec<u64>>,
    pub dev_copy_dst_modifiers: Option<Vec<u64>>,
    pub dev_gfx_write_modifiers: Option<Vec<u64>>,
    pub dev_gfx_read_modifiers: Option<Vec<u64>>,
    pub dev_modifiers_possible: Option<Vec<u64>>,
    pub dev_usage: Option<u32>,
    pub dev_modifier: Option<u64>,
    pub render_copy_src_modifiers: Option<Vec<u64>>,
    pub render_copy_dst_modifiers: Option<Vec<u64>>,
    pub render_gfx_write_modifiers: Option<Vec<u64>>,
    pub render_gfx_read_modifiers: Option<Vec<u64>>,
    pub render_modifiers_possible: Option<Vec<u64>>,
    pub render_usage: Option<u32>,
    pub render_modifier: Option<u64>,
}

/// The contents of a [`RenderBufferAllocationDebug`].
pub struct AllocationDebugView {
    pub dev_copy_src_modifiers: Option<Seq<u64>>,
    pub dev_copy_dst_modifiers: Option<Seq<u64>>,
    pub dev_gfx_write_modifiers: Option<Seq<u64>>,
    pub dev_gfx_read_modifiers: Option<Seq<u64>>,
    pub dev_modifiers_possible: Option<Seq<u64>>,
    pub dev_usage: Option<u32>,
    pub dev_modifier: Option<u64>,
    pub render_copy_src_modifiers: Option<Seq<u64>>,
    pub render_copy_dst_modifiers: Option<Seq<u64>>,
    pub render_gfx_write_modifiers: Option<Seq<u64>>,
    pub render_gfx_read_modifiers: Option<Seq<u64>>,
    pub render_modifiers_possible: Option<Seq<u64>>,
    pub render_usage: Option<u32>,
    pub render_modifier: Option<u64>,
}

pub open spec fn opt_seq(o: Option<Vec<u64>>) -> Option<Seq<u64>> {
    match o {
        Some(v) => Some(v@),
        None => None,
    }
}

impl View for RenderBufferAllocationDebug {
    type V = AllocationDebugView;

    open spec fn view(&self) -> AllocationDebugView {
        AllocationDebugView {
            dev_copy_src_modifiers: opt_seq(self.dev_copy_src_modifiers),
            dev_copy_dst_modifiers: opt_seq(self.dev_copy_dst_modifiers),
            dev_gfx_write_modifiers: opt_seq(self.dev_gfx_write_modifiers),
            dev_gfx_read_modifiers: opt_seq(self.dev_gfx_read_modifiers),
            dev_modifiers_possible: opt_seq(self.dev_modifiers_possible),
            dev_usage: self.dev_usage,
            dev_modifier: self.dev_modifier,
            render_copy_src_modifiers: opt_seq(self.render_copy_src_modifiers),
            render_copy_dst_modifiers: opt_seq(self.render_copy_dst_modifiers),
            render_gfx_write_modifiers: opt_seq(self.render_gfx_write_modifiers),
            render_gfx_read_modifiers: opt_seq(self.render_gfx_read_modifiers),
            render_modifiers_possible: opt_seq(self.render_modifiers_possible),
            render_usage: self.render_usage,
            render_modifier: self.render_modifier,
        }
    }
}

impl RenderBufferAllocationDebug {
    /// A record with nothing learned yet.
    pub fn new() -> (r: Self)
        ensures
            r@ == (AllocationDebugView {
                dev_copy_src_modifiers: None,
                dev_copy_dst_modifiers: None,
                dev_gfx_write_modifiers: None,
                dev_gfx_read_modifiers: None,
                dev_modifiers_possible: None,
                dev_usage: None,
                dev_modifier: None,
                render_copy_src_modifiers: None,
                render_copy_dst_modifiers: None,
                render_gfx_write_modifiers: None,
                render_gfx_read_modifiers: None,
                render_modifiers_possible: None,
                render_usage: None,
                render_modifier: None,
            }),
    {
        RenderBufferAllocationDebug {
            dev_copy_src_modifiers: None,
            dev_copy_dst_modifiers: None,
            dev_gfx_write_modifiers: None,
            dev_gfx_read_modifiers: None,
            dev_modifiers_possible: None,
            dev_usage: None,
            dev_modifier: None,
            render_copy_src_modifiers: None,
            render_copy_dst_modifiers: None,
            render_gfx_write_modifiers: None,
            render_gfx_read_modifiers: None,
            render_modifiers_possible: None,
            render_usage: None,
            render_modifier: None,
        }
    }
}

/// The modifiers and usage of a [`BoAllocationSettings`].
pub open spec fn settings_view(s: &BoAllocationSettings) -> (Seq<u64>, u32) {
    (s.modifiers@, s.usage)
}

/// A prepared allocation without prime: one buffer that is rendered to and
/// scanned out.
pub struct NoPrimePrepared {
    pub allocation_settings: BoAllocationSettings,
}

/// A prepared allocation with prime: a buffer on the render device and one
/// on the scanout device.
pub struct PrimePrepared {
    pub render_allocation_settings: BoAllocationSettings,
    pub dev_allocation_settings: BoAllocationSettings,
}

pub open spec fn prime_prepared_view(p: &PrimePrepared) -> ((Seq<u64>, u32), (Seq<u64>, u32)) {
    (settings_view(&p.render_allocation_settings), settings_view(&p.dev_allocation_settings))
}

/// Whether a prepared prime allocation is the outcome the specification
/// gives.
pub open spec fn prime_outcome_is(
    r: Result<PrimePrepared, ScanoutBufferErrorKind>,
    s: Result<((Seq<u64>, u32), (Seq<u64>, u32)), ScanoutBufferErrorKind>,
) -> bool {
    match r {
        Ok(p) => s == Ok::<((Seq<u64>, u32), (Seq<u64>, u32)), ScanoutBufferErrorKind>(prime_prepared_view(&p)),
        Err(e) => s == Err::<((Seq<u64>, u32), (Seq<u64>, u32)), ScanoutBufferErrorKind>(e),
    }
}

/// The plane's modifiers.
pub open spec fn spec_plane_modifiers(b: &Builder) -> Seq<u64> {
    modifier_set_items(*b.plane_modifiers)
}

/// The entries whose key occurs in `a` and, where `b` is given, in `b`, in
/// order.
pub open spec fn spec_filter_entries(
    entries: Seq<(u64, GfxWriteModifier)>,
    a: Seq<u64>,
    b: Option<Seq<u64>>,
) -> Seq<(u64, GfxWriteModifier)> {
    entries.filter(
        |e: (u64, GfxWriteModifier)|
            a.contains(e.0) && match b {
                Some(b) => b.contains(e.0),
                None => true,
            },
    )
}

/// The write-modifier entries of the render format that the plane can scan
/// out and the render device can sample from.
pub open spec fn spec_none_entries(b: &Builder) -> Seq<(u64, GfxWriteModifier)> {
    spec_filter_entries(
        write_modifier_entries(b.render_fmt.write_modifiers),
        spec_plane_modifiers(b),
        Some(spec_sample_modifiers(b.render_fmt)),
    )
}

/// Keeps the entries whose key occurs in `a` and, where `b` is given, in `b`.
fn filter_entries(
    entries: &Vec<(u64, GfxWriteModifier)>,
    a: &IndexSet<u64>,
    b: Option<&IndexSet<u64>>,
) -> (r: Vec<(u64, GfxWriteModifier)>)
    ensures
        r@ == spec_filter_entries(
            entries@,
            modifier_set_items(*a),
            match b {
                Some(b) => Some(modifier_set_items(*b)),
                None => None,
            },
        ),
{
    let ghost bs = match b {
        Some(b) => Some(modifier_set_items(*b)),
        None => None,
    };
    let mut res: Vec<(u64, GfxWriteModifier)> = Vec::new();
    let mut i: usize = 0;
    while i < entries.len()
        invariant
            i <= entries@.len(),
            bs == match b {
                Some(b) => Some(modifier_set_items(*b)),
                None => None::<Seq<u64>>,
            },
            res@ == spec_filter_entries(entries@.take(i as int), modifier_set_items(*a), bs),
        decreases entries@.len() - i,
    {
        let e = entries[i];
        let mut keep = modifier_set_contains(a, e.0);
        if keep {
            match b {
                Some(b) => {
                    keep = modifier_set_contains(b, e.0);
                },
                None => {},
            }
        }
        proof {
            reveal(Seq::filter);
            assert(entries@.take(i + 1).drop_last() =~= entries@.take(i as int));
        }
        if keep {
            res.push(e);
        }
        i += 1;
    }
    assert(entries@.take(entries@.len() as int) =~= entries@);
    res
}

/// The keys of the entries, in order.
fn keys_of(entries: &Vec<(u64, GfxWriteModifier)>) -> (r: Vec<u64>)
    ensures
        r@ == entry_keys(entries@),
{
    let mut res: Vec<u64> = Vec::new();
    let mut i: usize = 0;
    while i < entries.len()
        invariant
            i <= entries@.len(),
            res@.len() == i,
            forall|j: int| 0 <= j < i ==> #[trigger] res@[j] == entries@[j].0,
        decreases entries@.len() - i,
    {
        res.push(entries[i].0);
        i += 1;
    }
    assert(res@ =~= entry_keys(entries@));
    res
}

/// The outcome of preparing an allocation for a render device that scans
/// out itself.
pub open spec fn spec_none_outcome(b: &Builder) -> Result<(Seq<u64>, u32), ScanoutBufferErrorKind> {
    let entries = spec_none_entries(b);
    if entries.len() == 0 {
        Err(ScanoutBufferErrorKind::SodWriteReadPlaneIntersection)
    } else {
        Ok((entry_keys(entries), spec_usage(true, b.cursor, spec_needs_render_usage(entry_values(entries)))))
    }
}

/// What preparing an allocation without prime records.
pub open spec fn spec_none_debug(b: &Builder, d0: AllocationDebugView) -> AllocationDebugView {
    let entries = spec_none_entries(b);
    let d = AllocationDebugView {
        dev_gfx_write_modifiers: Some(spec_render_modifiers(b.render_fmt)),
        dev_gfx_read_modifiers: Some(spec_sample_modifiers(b.render_fmt)),
        dev_modifiers_possible: Some(entry_keys(entries)),
        ..d0
    };
    if entries.len() == 0 {
        d
    } else {
        AllocationDebugView {
            render_usage: Some(spec_usage(true, b.cursor, spec_needs_render_usage(entry_values(entries)))),
            ..d
        }
    }
}

impl<'a> Builder<'a> {
    /// Prepares an allocation for a render device that scans out itself:
    /// the modifiers are those the render device can render to and sample
    /// from and the plane can scan out, the buffer is scanout-capable and,
    /// where a modifier needs it, renderable.
    pub fn prepare_prime_none(&self, dbg: &mut RenderBufferAllocationDebug) -> (r: Result<
        NoPrimePrepared,
        ScanoutBufferErrorKind,
    >)
        ensures
            match r {
                Ok(p) => spec_none_outcome(self) == Ok::<(Seq<u64>, u32), ScanoutBufferErrorKind>(
                    settings_view(&p.allocation_settings),
                ),
                Err(e) => spec_none_outcome(self) == Err::<(Seq<u64>, u32), ScanoutBufferErrorKind>(e),
            },
            final(dbg)@ == spec_none_debug(self, old(dbg)@),
    {
        let all = index_map_entries(&self.render_fmt.write_modifiers);
        let modifiers = filter_entries(&all, self.plane_modifiers, Some(&self.render_fmt.read_modifiers));
        dbg.dev_gfx_write_modifiers = Some(render_modifiers(self.render_fmt));
        dbg.dev_gfx_read_modifiers = Some(sample_modifiers(self.render_fmt));
        dbg.dev_modifiers_possible = Some(keys_of(&modifiers));
        if modifiers.len() == 0 {
            return Err(ScanoutBufferErrorKind::SodWriteReadPlaneIntersection);
        }
        let allocation_settings = BoAllocationSettings::new1(
            self,
            modifiers.as_slice(),
            true,
            true,
            &mut dbg.render_usage,
        );
        Ok(NoPrimePrepared { allocation_settings })
    }
}

/// The usage of the render buffer of a prime allocation that copies from
/// it: renderable where one of its modifiers needs it.
pub open spec fn spec_copy_render_usage(b: &Builder, render_possible: Seq<u64>) -> u32 {
    spec_usage(false, b.cursor, spec_lookup_needs_render_usage(render_possible, b.render_fmt))
}

/// The outcome of preparing a copying prime allocation whose render buffer
/// is copied from with the `src` modifiers and whose scanout buffer is
/// copied to with the `dst` modifiers: the render modifiers are those the
/// render device can render to, sample from and copy from; the scanout
/// modifiers are those the plane can scan out and the copy can write,
/// reduced to linear where linear is among them. `mid_err` is a failure
/// that comes after the render modifiers are found.
pub open spec fn spec_copy_outcome(
    b: &Builder,
    src: Seq<u64>,
    dst: Seq<u64>,
    src_err: ScanoutBufferErrorKind,
    mid_err: Option<ScanoutBufferErrorKind>,
    dst_err: ScanoutBufferErrorKind,
) -> Result<((Seq<u64>, u32), (Seq<u64>, u32)), ScanoutBufferErrorKind> {
    let render_possible = spec_intersect_render(b.render_fmt, src);
    let dev_modifiers = spec_linear_only(spec_intersect(spec_plane_modifiers(b), dst));
    if render_possible.len() == 0 {
        Err(src_err)
    } else if mid_err is Some {
        Err(mid_err->0)
    } else if dev_modifiers.len() == 0 {
        Err(dst_err)
    } else {
        Ok(
            (
                (render_possible, spec_copy_render_usage(b, render_possible)),
                (dev_modifiers, spec_usage(true, b.cursor, false)),
            ),
        )
    }
}

/// What preparing a copying prime allocation records; `src_is_render` and
/// `dst_is_render` say whether the copies are made by the render device's
/// copy device or by the scanout device's.
pub open spec fn spec_copy_debug(
    b: &Builder,
    src: Seq<u64>,
    dst: Seq<u64>,
    src_is_render: bool,
    dst_is_render: bool,
    mid_err: Option<ScanoutBufferErrorKind>,
    d0: AllocationDebugView,
) -> AllocationDebugView {
    let render_possible = spec_intersect_render(b.render_fmt, src);
    let dev_modifiers = spec_linear_only(spec_intersect(spec_plane_modifiers(b), dst));
    let d1 = AllocationDebugView {
        render_gfx_write_modifiers: Some(spec_render_modifiers(b.render_fmt)),
        render_gfx_read_modifiers: Some(spec_sample_modifiers(b.render_fmt)),
        render_modifiers_possible: Some(render_possible),
        ..d0
    };
    let d2 = if src_is_render {
        AllocationDebugView { render_copy_src_modifiers: Some(src), ..d1 }
    } else {
        AllocationDebugView { dev_copy_src_modifiers: Some(src), ..d1 }
    };
    if render_possible.len() == 0 || mid_err is Some {
        d2
    } else {
        let d3 = if dst_is_render {
            AllocationDebugView { render_copy_dst_modifiers: Some(dst), ..d2 }
        } else {
            AllocationDebugView { dev_copy_dst_modifiers: Some(dst), ..d2 }
        };
        let d4 = AllocationDebugView { dev_modifiers_possible: Some(dev_modifiers), ..d3 };
        if dev_modifiers.len() == 0 {
            d4
        } else {
            AllocationDebugView {
                render_usage: Some(spec_copy_render_usage(b, render_possible)),
                dev_usage: Some(spec_usage(true, b.cursor, false)),
                ..d4
            }
        }
    }
}

/// The render entries that both devices can sample from, and the scanout
/// entries the plane can scan out.
pub open spec fn spec_sampling_entries(b: &Builder, dev_fmt: &GfxFormat) -> (Seq<(u64, GfxWriteModifier)>, Seq<(u64, GfxWriteModifier)>) {
    (
        spec_filter_entries(
            write_modifier_entries(b.render_fmt.write_modifiers),
            spec_sample_modifiers(b.render_fmt),
            Some(spec_sample_modifiers(dev_fmt)),
        ),
        spec_filter_entries(write_modifier_entries(dev_fmt.write_modifiers), spec_plane_modifiers(b), None),
    )
}

/// The outcome of preparing an allocation in which the scanout device
/// samples the render buffer.
pub open spec fn spec_sampling_outcome(b: &Builder) -> Result<((Seq<u64>, u32), (Seq<u64>, u32)), ScanoutBufferErrorKind> {
    match b.dev_fmt {
        None => Err(ScanoutBufferErrorKind::SodUnsupportedFormat),
        Some(dev_fmt) => {
            let (render_possible, dev_possible) = spec_sampling_entries(b, dev_fmt);
            if render_possible.len() == 0 {
                Err(ScanoutBufferErrorKind::RenderWriteReadSodReadIntersection)
            } else if dev_possible.len() == 0 {
                Err(ScanoutBufferErrorKind::SodWritePlaneIntersection)
            } else {
                Ok(
                    (
                        (
                            entry_keys(render_possible),
                            spec_usage(false, b.cursor, spec_needs_render_usage(entry_values(render_possible))),
                        ),
                        (
                            entry_keys(dev_possible),
                            spec_usage(true, b.cursor, spec_needs_render_usage(entry_values(dev_possible))),
                        ),
                    ),
                )
            }
        },
    }
}

/// What preparing a sampling allocation records.
pub open spec fn spec_sampling_debug(b: &Builder, d0: AllocationDebugView) -> AllocationDebugView {
    match b.dev_fmt {
        None => d0,
        Some(dev_fmt) => {
            let (render_possible, dev_possible) = spec_sampling_entries(b, dev_fmt);
            let d1 = AllocationDebugView {
                dev_gfx_read_modifiers: Some(spec_sample_modifiers(dev_fmt)),
                render_gfx_write_modifiers: Some(spec_render_modifiers(b.render_fmt)),
                render_gfx_read_modifiers: Some(spec_sample_modifiers(b.render_fmt)),
                render_modifiers_possible: Some(entry_keys(render_possible)),
                ..d0
            };
            if render_possible.len() == 0 {
                d1
            } else {
                let d2 = AllocationDebugView {
                    dev_gfx_write_modifiers: Some(spec_render_modifiers(dev_fmt)),
                    dev_modifiers_possible: Some(entry_keys(dev_possible)),
                    ..d1
                };
                if dev_possible.len() == 0 {
                    d2
                } else {
                    AllocationDebugView {
                        render_usage: Some(
                            spec_usage(false, b.cursor, spec_needs_render_usage(entry_values(render_possible))),
                        ),
                        dev_usage: Some(
                            spec_usage(true, b.cursor, spec_needs_render_usage(entry_values(dev_possible))),
                        ),
                        ..d2
                    }
                }
            }
        },
    }
}

impl<'a> Builder<'a> {
    /// Prepares an allocation in which the scanout device samples the
    /// render buffer: the render modifiers are those the render device can
    /// render to and both devices can sample from; the scanout modifiers are
    /// those the scanout device can render to and the plane can scan out.
    pub fn prepare_prime_sampling(&self, dbg: &mut RenderBufferAllocationDebug) -> (r: Result<
        PrimePrepared,
        ScanoutBufferErrorKind,
    >)
        ensures
            prime_outcome_is(r, spec_sampling_outcome(self)),
            final(dbg)@ == spec_sampling_debug(self, old(dbg)@),
    {
        let dev_fmt = match self.dev_fmt {
            Some(f) => f,
            None => {
                return Err(ScanoutBufferErrorKind::SodUnsupportedFormat);
            },
        };
        let render_all = index_map_entries(&self.render_fmt.write_modifiers);
        let render_possible = filter_entries(
            &render_all,
            &self.render_fmt.read_modifiers,
            Some(&dev_fmt.read_modifiers),
        );
        dbg.dev_gfx_read_modifiers = Some(sample_modifiers(dev_fmt));
        dbg.render_gfx_write_modifiers = Some(render_modifiers(self.render_fmt));
        dbg.render_gfx_read_modifiers = Some(sample_modifiers(self.render_fmt));
        dbg.render_modifiers_possible = Some(keys_of(&render_possible));
        if render_possible.len() == 0 {
            return Err(ScanoutBufferErrorKind::RenderWriteReadSodReadIntersection);
        }
        let dev_all = index_map_entries(&dev_fmt.write_modifiers);
        let dev_possible = filter_entries(&dev_all, self.plane_modifiers, None);
        dbg.dev_gfx_write_modifiers = Some(render_modifiers(dev_fmt));
        dbg.dev_modifiers_possible = Some(keys_of(&dev_possible));
        if dev_possible.len() == 0 {
            return Err(ScanoutBufferErrorKind::SodWritePlaneIntersection);
        }
        let render_allocation_settings = BoAllocationSettings::new1(
            self,
            render_possible.as_slice(),
            false,
            true,
            &mut dbg.render_usage,
        );
        let dev_allocation_settings = BoAllocationSettings::new1(
            self,
            dev_possible.as_slice(),
            true,
            true,
            &mut dbg.dev_usage,
        );
        Ok(PrimePrepared { render_allocation_settings, dev_allocation_settings })
    }

    /// The shared part of the copying prime methods, from the modifiers the
    /// copies support on.
    fn prepare_copy(
        &self,
        src: Vec<u64>,
        dst_support: &[CopyDeviceSupport],
        src_is_render: bool,
        dst_is_render: bool,
        src_err: ScanoutBufferErrorKind,
        mid_err: Option<ScanoutBufferErrorKind>,
        dst_err: ScanoutBufferErrorKind,
        dbg: &mut RenderBufferAllocationDebug,
    ) -> (r: Result<PrimePrepared, ScanoutBufferErrorKind>)
        ensures
            prime_outcome_is(
                r,
                spec_copy_outcome(
                    self,
                    src@,
                    spec_copy_modifiers(dst_support@, self.width, self.height),
                    src_err,
                    mid_err,
                    dst_err,
                ),
            ),
            final(dbg)@ == spec_copy_debug(
                self,
                src@,
                spec_copy_modifiers(dst_support@, self.width, self.height),
                src_is_render,
                dst_is_render,
                mid_err,
                old(dbg)@,
            ),
    {
        let ghost src_v = src@;
        let render_possible = intersect_render_modifiers(self.render_fmt, src.as_slice());
        dbg.render_gfx_write_modifiers = Some(render_modifiers(self.render_fmt));
        dbg.render_gfx_read_modifiers = Some(sample_modifiers(self.render_fmt));
        if src_is_render {
            dbg.render_copy_src_modifiers = Some(src);
        } else {
            dbg.dev_copy_src_modifiers = Some(src);
        }
        let possible = render_possible.clone();
        assert(possible@ =~= render_possible@);
        dbg.render_modifiers_possible = Some(possible);
        if render_possible.len() == 0 {
            return Err(src_err);
        }
        match mid_err {
            Some(e) => {
                return Err(e);
            },
            None => {},
        }
        let dst = self.copy_modifiers(dst_support);
        let plane = modifier_set_vec(self.plane_modifiers);
        let mut dev_modifiers = intersect_modifiers(plane.as_slice(), dst.as_slice());
        if dst_is_render {
            dbg.render_copy_dst_modifiers = Some(dst);
        } else {
            dbg.dev_copy_dst_modifiers = Some(dst);
        }
        make_linear_only(&mut dev_modifiers);
        let possible = dev_modifiers.clone();
        assert(possible@ =~= dev_modifiers@);
        dbg.dev_modifiers_possible = Some(possible);
        if dev_modifiers.len() == 0 {
            return Err(dst_err);
        }
        let render_allocation_settings = BoAllocationSettings::new2(
            self,
            render_possible.as_slice(),
            self.render_fmt,
            false,
            true,
            &mut dbg.render_usage,
        );
        let dev_allocation_settings = BoAllocationSettings::new3(
            self,
            dev_modifiers.as_slice(),
            true,
            false,
            &mut dbg.dev_usage,
        );
        Ok(PrimePrepared { render_allocation_settings, dev_allocation_settings })
    }
}

/// The outcome of preparing an allocation in which the scanout device's
/// copy device pulls the frame from the render buffer.
pub open spec fn spec_direct_pull_outcome(b: &Builder) -> Result<((Seq<u64>, u32), (Seq<u64>, u32)), ScanoutBufferErrorKind> {
    match b.dev_copy_device {
        None => Err(ScanoutBufferErrorKind::SodNoCopyDevice),
        Some(d) => spec_copy_outcome(
            b,
            spec_copy_modifiers(d.src_support@, b.width, b.height),
            spec_copy_modifiers(d.dst_support@, b.width, b.height),
            ScanoutBufferErrorKind::RenderWriteReadSodCopySrcIntersection,
            None,
            ScanoutBufferErrorKind::SodPlaneCopyDstIntersection,
        ),
    }
}

pub open spec fn spec_direct_pull_debug(b: &Builder, d0: AllocationDebugView) -> AllocationDebugView {
    match b.dev_copy_device {
        None => d0,
        Some(d) => spec_copy_debug(
            b,
            spec_copy_modifiers(d.src_support@, b.width, b.height),
            spec_copy_modifiers(d.dst_support@, b.width, b.height),
            false,
            false,
            None,
            d0,
        ),
    }
}

/// The outcome of preparing an allocation in which the render device's
/// copy device pushes the frame into the scanout buffer.
pub open spec fn spec_direct_push_outcome(b: &Builder) -> Result<((Seq<u64>, u32), (Seq<u64>, u32)), ScanoutBufferErrorKind> {
    match (b.render_copy_device, b.dev_copy_device) {
        (None, _) => Err(ScanoutBufferErrorKind::RenderNoCopyDevice),
        (Some(_), None) => Err(ScanoutBufferErrorKind::SodNoCopyDevice),
        (Some(r), Some(_)) => spec_copy_outcome(
            b,
            spec_copy_modifiers(r.src_support@, b.width, b.height),
            spec_copy_modifiers(r.dst_support@, b.width, b.height),
            ScanoutBufferErrorKind::RenderWriteReadCopySrcIntersection,
            None,
            ScanoutBufferErrorKind::SodPlaneRenderCopyDstIntersection,
        ),
    }
}

pub open spec fn spec_direct_push_debug(b: &Builder, d0: AllocationDebugView) -> AllocationDebugView {
    match (b.render_copy_device, b.dev_copy_device) {
        (Some(r), Some(_)) => spec_copy_debug(
            b,
            spec_copy_modifiers(r.src_support@, b.width, b.height),
            spec_copy_modifiers(r.dst_support@, b.width, b.height),
            true,
            true,
            None,
            d0,
        ),
        _ => d0,
    }
}

/// The failure, if any, of the linear copies through which an indirect
/// copy goes: the render device must copy to linear and the scanout device
/// must copy from linear.
pub open spec fn spec_linear_copies_err(b: &Builder, r: &CopyDeviceFormat, d: &CopyDeviceFormat) -> Option<ScanoutBufferErrorKind> {
    if !spec_copy_supports_linear(r.dst_support@, b.width, b.height) {
        Some(ScanoutBufferErrorKind::RenderNoCopyToLinear)
    } else if !spec_copy_supports_linear(d.src_support@, b.width, b.height) {
        Some(ScanoutBufferErrorKind::SodNoCopyFromLinear)
    } else {
        None
    }
}

/// The outcome of preparing an allocation in which the render device copies
/// the frame into a linear buffer from which the scanout device pulls it.
pub open spec fn spec_indirect_pull_outcome(b: &Builder) -> Result<((Seq<u64>, u32), (Seq<u64>, u32)), ScanoutBufferErrorKind> {
    match (b.render_copy_device, b.dev_copy_device) {
        (None, _) => Err(ScanoutBufferErrorKind::RenderNoCopyDevice),
        (Some(_), None) => Err(ScanoutBufferErrorKind::SodNoCopyDevice),
        (Some(r), Some(d)) => spec_copy_outcome(
            b,
            spec_copy_modifiers(r.src_support@, b.width, b.height),
            spec_copy_modifiers(d.dst_support@, b.width, b.height),
            ScanoutBufferErrorKind::RenderWriteReadCopySrcIntersection,
            spec_linear_copies_err(b, r, d),
            ScanoutBufferErrorKind::SodPlaneCopyDstIntersection,
        ),
    }
}

pub open spec fn spec_indirect_pull_debug(b: &Builder, d0: AllocationDebugView) -> AllocationDebugView {
    match (b.render_copy_device, b.dev_copy_device) {
        (Some(r), Some(d)) => spec_copy_debug(
            b,
            spec_copy_modifiers(r.src_support@, b.width, b.height),
            spec_copy_modifiers(d.dst_support@, b.width, b.height),
            true,
            false,
            spec_linear_copies_err(b, r, d),
            d0,
        ),
        _ => d0,
    }
}

/// The outcome of preparing an allocation in which the frame goes through
/// a udmabuf: the render device copies into it and the scanout device
/// copies out of it.
pub open spec fn spec_udmabuf_outcome(b: &Builder) -> Result<((Seq<u64>, u32), (Seq<u64>, u32)), ScanoutBufferErrorKind> {
    if !b.udmabuf_available {
        Err(ScanoutBufferErrorKind::UdmabufNotAvailable)
    } else {
        match b.render_copy_device {
            None => Err(ScanoutBufferErrorKind::RenderNoCopyDevice),
            Some(r) => if !spec_copy_supports_linear(r.dst_support@, b.width, b.height) {
                Err(ScanoutBufferErrorKind::RenderNoCopyToLinear)
            } else {
                match b.dev_copy_device {
                    None => Err(ScanoutBufferErrorKind::SodNoCopyDevice),
                    Some(d) => if !spec_copy_supports_linear(d.src_support@, b.width, b.height) {
                        Err(ScanoutBufferErrorKind::SodNoCopyFromLinear)
                    } else {
                        spec_copy_outcome(
                            b,
                            spec_copy_modifiers(r.src_support@, b.width, b.height),
                            spec_copy_modifiers(d.dst_support@, b.width, b.height),
                            ScanoutBufferErrorKind::RenderWriteReadCopySrcIntersection,
                            None,
                            ScanoutBufferErrorKind::SodPlaneCopyDstIntersection,
                        )
                    },
                }
            },
        }
    }
}

pub open spec fn spec_udmabuf_debug(b: &Builder, d0: AllocationDebugView) -> AllocationDebugView {
    match (b.render_copy_device, b.dev_copy_device) {
        (Some(r), Some(d)) => if b.udmabuf_available && spec_linear_copies_err(b, r, d) is None {
            spec_copy_debug(
                b,
                spec_copy_modifiers(r.src_support@, b.width, b.height),
                spec_copy_modifiers(d.dst_support@, b.width, b.height),
                true,
                false,
                None,
                d0,
            )
        } else {
            d0
        },
        _ => d0,
    }
}

impl<'a> Builder<'a> {
    /// Prepares an allocation in which the scanout device's copy device
    /// pulls the frame from the render buffer.
    pub fn prepare_direct_copy_pull(&self, dbg: &mut RenderBufferAllocationDebug) -> (r: Result<
        PrimePrepared,
        ScanoutBufferErrorKind,
    >)
        ensures
            prime_outcome_is(r, spec_direct_pull_outcome(self)),
            final(dbg)@ == spec_direct_pull_debug(self, old(dbg)@),
    {
        let dev_copy = match self.dev_copy_device {
            Some(d) => d,
            None => {
                return Err(ScanoutBufferErrorKind::SodNoCopyDevice);
            },
        };
        let src = self.copy_modifiers(dev_copy.src_support.as_slice());
        self.prepare_copy(
            src,
            dev_copy.dst_support.as_slice(),
            false,
            false,
            ScanoutBufferErrorKind::RenderWriteReadSodCopySrcIntersection,
            None,
            ScanoutBufferErrorKind::SodPlaneCopyDstIntersection,
            dbg,
        )
    }

    /// Prepares an allocation in which the render device's copy device
    /// pushes the frame into the scanout buffer.
    pub fn prepare_direct_copy_push(&self, dbg: &mut RenderBufferAllocationDebug) -> (r: Result<
        PrimePrepared,
        ScanoutBufferErrorKind,
    >)
        ensures
            prime_outcome_is(r, spec_direct_push_outcome(self)),
            final(dbg)@ == spec_direct_push_debug(self, old(dbg)@),
    {
        let render_copy = match self.render_copy_device {
            Some(d) => d,
            None => {
                return Err(ScanoutBufferErrorKind::RenderNoCopyDevice);
            },
        };
        if self.dev_copy_device.is_none() {
            return Err(ScanoutBufferErrorKind::SodNoCopyDevice);
        }
        let src = self.copy_modifiers(render_copy.src_support.as_slice());
        self.prepare_copy(
            src,
            render_copy.dst_support.as_slice(),
            true,
            true,
            ScanoutBufferErrorKind::RenderWriteReadCopySrcIntersection,
            None,
            ScanoutBufferErrorKind::SodPlaneRenderCopyDstIntersection,
            dbg,
        )
    }

    /// Prepares an allocation in which the render device copies the frame
    /// into a linear buffer from which the scanout device pulls it.
    pub fn prepare_indirect_copy_pull(&self, dbg: &mut RenderBufferAllocationDebug) -> (r: Result<
        PrimePrepared,
        ScanoutBufferErrorKind,
    >)
        ensures
            prime_outcome_is(r, spec_indirect_pull_outcome(self)),
            final(dbg)@ == spec_indirect_pull_debug(self, old(dbg)@),
    {
        let render_copy = match self.render_copy_device {
            Some(d) => d,
            None => {
                return Err(ScanoutBufferErrorKind::RenderNoCopyDevice);
            },
        };
        let dev_copy = match self.dev_copy_device {
            Some(d) => d,
            None => {
                return Err(ScanoutBufferErrorKind::SodNoCopyDevice);
            },
        };
        let mid_err = if !self.copy_supports_linear(render_copy.dst_support.as_slice()) {
            Some(ScanoutBufferErrorKind::RenderNoCopyToLinear)
        } else if !self.copy_supports_linear(dev_copy.src_support.as_slice()) {
            Some(ScanoutBufferErrorKind::SodNoCopyFromLinear)
        } else {
            None
        };
        let src = self.copy_modifiers(render_copy.src_support.as_slice());
        self.prepare_copy(
            src,
            dev_copy.dst_support.as_slice(),
            true,
            false,
            ScanoutBufferErrorKind::RenderWriteReadCopySrcIntersection,
            mid_err,
            ScanoutBufferErrorKind::SodPlaneCopyDstIntersection,
            dbg,
        )
    }

    /// Prepares an allocation in which the frame goes through a udmabuf.
    pub fn prepare_copy_udmabuf(&self, dbg: &mut RenderBufferAllocationDebug) -> (r: Result<
        PrimePrepared,
        ScanoutBufferErrorKind,
    >)
        ensures
            prime_outcome_is(r, spec_udmabuf_outcome(self)),
            final(dbg)@ == spec_udmabuf_debug(self, old(dbg)@),
    {
        if !self.udmabuf_available {
            return Err(ScanoutBufferErrorKind::UdmabufNotAvailable);
        }
        let render_copy = match self.render_copy_device {
            Some(d) => d,
            None => {
                return Err(ScanoutBufferErrorKind::RenderNoCopyDevice);
            },
        };
        if !self.copy_supports_linear(render_copy.dst_support.as_slice()) {
            return Err(ScanoutBufferErrorKind::RenderNoCopyToLinear);
        }
        let dev_copy = match self.dev_copy_device {
            Some(d) => d,
            None => {
                return Err(ScanoutBufferErrorKind::SodNoCopyDevice);
            },
        };
        if !self.copy_supports_linear(dev_copy.src_support.as_slice()) {
            return Err(ScanoutBufferErrorKind::SodNoCopyFromLinear);
        }
        let src = self.copy_modifiers(render_copy.src_support.as_slice());
        self.prepare_copy(
            src,
            dev_copy.dst_support.as_slice(),
            true,
            false,
            ScanoutBufferErrorKind::RenderWriteReadCopySrcIntersection,
            None,
            ScanoutBufferErrorKind::SodPlaneCopyDstIntersection,
            dbg,
        )
    }
}

/// A way of getting frames rendered on one device onto a buffer that
/// another device scans out.
#[derive(Copy, Clone, Debug, PartialEq, Eq, Structural)]
pub enum PrimeMethod {
    DirectPull,
    Sampling,
    IndirectPull,
    Udmabuf,
    // This does not work on AMD since use from another device will prevent the
    // framebuffer from being pinned into video memory. It might be useful on other
    // devices where the scanout device is CPU only and the render device can perform
    // an accelerated copy.
    DirectPush,
}

/// The prime methods in their default order.
pub open spec fn spec_all_prime_methods() -> Seq<PrimeMethod> {
    seq![
        PrimeMethod::DirectPull,
        PrimeMethod::Sampling,
        PrimeMethod::IndirectPull,
        PrimeMethod::Udmabuf,
        PrimeMethod::DirectPush,
    ]
}

/// The name of a prime method.
pub open spec fn spec_prime_method_name(m: PrimeMethod) -> Seq<char> {
    match m {
        PrimeMethod::DirectPull => "direct-pull"@,
        PrimeMethod::IndirectPull => "indirect-pull"@,
        PrimeMethod::DirectPush => "direct-push"@,
        PrimeMethod::Sampling => "direct-sampling"@,
        PrimeMethod::Udmabuf => "udmabuf"@,
    }
}

impl PrimeMethod {
    pub fn name(self) -> (r: &'static str)
        ensures
            r@ == spec_prime_method_name(self),
    {
        match self {
            PrimeMethod::DirectPull => "direct-pull",
            PrimeMethod::IndirectPull => "indirect-pull",
            PrimeMethod::DirectPush => "direct-push",
            PrimeMethod::Sampling => "direct-sampling",
            PrimeMethod::Udmabuf => "udmabuf",
        }
    }

    /// All prime methods in their default order.
    pub fn variants() -> (r: Vec<PrimeMethod>)
        ensures
            r@ == spec_all_prime_methods(),
    {
        let r = vec![
            PrimeMethod::DirectPull,
            PrimeMethod::Sampling,
            PrimeMethod::IndirectPull,
            PrimeMethod::Udmabuf,
            PrimeMethod::DirectPush,
        ];
        assert(r@ =~= spec_all_prime_methods());
        r
    }
}

/// How a render buffer's frame gets to the scanout device.
#[derive(Copy, Clone, Debug, PartialEq, Eq, Structural)]
pub enum RenderBufferPrime {
    /// The render device scans out itself.
    NoPrime,
    /// The scanout device samples the render buffer.
    Sampling,
    /// The frame is copied through a udmabuf.
    CopyUdmabuf,
    /// The scanout device's copy device pulls the frame.
    CopyDirectPull,
    /// The frame is copied into a secondary buffer from which the scanout
    /// device's copy device pulls it.
    CopyIndirectPull,
    /// The render device's copy device pushes the frame.
    CopyDirectPush,
}

/// The prime method of a buffer's prime kind; none without prime.
pub open spec fn spec_prime_method(p: RenderBufferPrime) -> Option<PrimeMethod> {
    match p {
        RenderBufferPrime::NoPrime => None,
        RenderBufferPrime::Sampling => Some(PrimeMethod::Sampling),
        RenderBufferPrime::CopyUdmabuf => Some(PrimeMethod::Udmabuf),
        RenderBufferPrime::CopyDirectPull => Some(PrimeMethod::DirectPull),
        RenderBufferPrime::CopyDirectPush => Some(PrimeMethod::DirectPush),
        RenderBufferPrime::CopyIndirectPull => Some(PrimeMethod::IndirectPull),
    }
}

/// Whether the buffer's frame is moved by a copy device of the scanout
/// device's side (every copying kind keeps one).
pub open spec fn spec_has_copy_device(p: RenderBufferPrime) -> bool {
    match p {
        RenderBufferPrime::NoPrime | RenderBufferPrime::Sampling => false,
        _ => true,
    }
}

impl RenderBufferPrime {
    pub fn method(&self) -> (r: Option<PrimeMethod>)
        ensures
            r == spec_prime_method(*self),
    {
        let method = match self {
            RenderBufferPrime::NoPrime => {
                return None;
            },
            RenderBufferPrime::Sampling => PrimeMethod::Sampling,
            RenderBufferPrime::CopyUdmabuf => PrimeMethod::Udmabuf,
            RenderBufferPrime::CopyDirectPull => PrimeMethod::DirectPull,
            RenderBufferPrime::CopyDirectPush => PrimeMethod::DirectPush,
            RenderBufferPrime::CopyIndirectPull => PrimeMethod::IndirectPull,
        };
        Some(method)
    }

    /// Whether the buffer keeps a copy device of the scanout device.
    pub fn has_dev_copy_device(&self) -> (r: bool)
        ensures
            r == spec_has_copy_device(*self),
    {
        match self {
            RenderBufferPrime::NoPrime | RenderBufferPrime::Sampling => false,
            _ => true,
        }
    }
}

/// Proves that the prime kinds of buffers are told apart by their method.
pub proof fn lemma_prime_method_injective(a: RenderBufferPrime, b: RenderBufferPrime)
    requires
        spec_prime_method(a) == spec_prime_method(b),
    ensures
        a == b,
{
}

/// A sync file, by its handle.
#[derive(Copy, Clone, Debug, PartialEq, Eq, Structural)]
pub struct SyncFile {
    pub id: u64,
}

/// What blocks further rendering and what blocks presentation after a copy
/// to the scanout device.
#[derive(Copy, Clone, Debug, PartialEq, Eq, Structural)]
pub struct RenderBufferCopy {
    pub render_block: Option<SyncFile>,
    pub present_block: Option<SyncFile>,
}

impl RenderBufferCopy {
    /// A copy whose sync file blocks both rendering and presentation.
    pub fn for_both(sf: Option<SyncFile>) -> (r: Self)
        ensures
            r.render_block == sf,
            r.present_block == sf,
    {
        RenderBufferCopy { render_block: sf, present_block: sf }
    }
}

/// Why a copy between render buffers failed; where a device API failed,
/// its message is carried.
#[derive(Clone, Debug)]
pub enum RenderBufferError {
    NotSameSize,
    GfxError(String),
    CopyToOutput(String),
    CopyRenderToUdmabuf(String),
    CopyUdmabufToDev(String),
    CreateCopyDeviceCopy(String),
    ExecuteCopyDeviceCopy(String),
    CopyRenderToDev(String),
}

/// An operation on the devices that a copy of a render buffer performs.
#[derive(Copy, Clone, Debug, PartialEq, Eq, Structural)]
pub enum CopyOp {
    /// The scanout device's framebuffer copies the imported render texture.
    DevFbCopyTexture,
    /// The render-side copy runs.
    RenderCopy,
    /// The scanout-side copy runs.
    DevCopy,
}

/// The next thing a copy to the scanout device does.
#[derive(Debug)]
pub enum CopyToDevStep {
    /// Run the operation after the sync file; report its result to
    /// [`CopyToDev::resume`].
    Execute { op: CopyOp, sync: Option<SyncFile> },
    Done(Result<RenderBufferCopy, RenderBufferError>),
}

/// A copy of a render buffer's frame to the scanout device in progress.
pub struct CopyToDev {
    pub prime: RenderBufferPrime,
    /// Set once the first of two copies is done: what blocks rendering.
    pub render_block: Option<Option<SyncFile>>,
    pub done: bool,
}

/// The first step of a copy to the scanout device.
pub open spec fn spec_copy_to_dev_start(prime: RenderBufferPrime, sync: Option<SyncFile>) -> CopyToDevStep {
    match prime {
        RenderBufferPrime::NoPrime => CopyToDevStep::Done(
            Ok(RenderBufferCopy { render_block: None, present_block: sync }),
        ),
        RenderBufferPrime::Sampling => CopyToDevStep::Execute { op: CopyOp::DevFbCopyTexture, sync },
        RenderBufferPrime::CopyUdmabuf | RenderBufferPrime::CopyIndirectPull => CopyToDevStep::Execute {
            op: CopyOp::RenderCopy,
            sync,
        },
        RenderBufferPrime::CopyDirectPull => CopyToDevStep::Execute { op: CopyOp::DevCopy, sync },
        RenderBufferPrime::CopyDirectPush => CopyToDevStep::Execute { op: CopyOp::RenderCopy, sync },
    }
}

/// The step after an operation of a copy to the scanout device finished
/// with `res`.
pub open spec fn spec_copy_to_dev_resume(
    prime: RenderBufferPrime,
    render_block: Option<Option<SyncFile>>,
    res: Result<Option<SyncFile>, String>,
) -> CopyToDevStep {
    match prime {
        RenderBufferPrime::Sampling => match res {
            Ok(sf) => CopyToDevStep::Done(Ok(RenderBufferCopy { render_block: sf, present_block: sf })),
            Err(e) => CopyToDevStep::Done(Err(RenderBufferError::CopyToOutput(e))),
        },
        RenderBufferPrime::CopyUdmabuf | RenderBufferPrime::CopyIndirectPull => match render_block {
            None => match res {
                Ok(rb) => CopyToDevStep::Execute { op: CopyOp::DevCopy, sync: rb },
                Err(e) => CopyToDevStep::Done(Err(RenderBufferError::CopyRenderToUdmabuf(e))),
            },
            Some(rb) => match res {
                Ok(pb) => CopyToDevStep::Done(Ok(RenderBufferCopy { render_block: rb, present_block: pb })),
                Err(e) => CopyToDevStep::Done(Err(RenderBufferError::CopyUdmabufToDev(e))),
            },
        },
        _ => match res {
            Ok(sf) => CopyToDevStep::Done(Ok(RenderBufferCopy { render_block: sf, present_block: sf })),
            Err(e) => CopyToDevStep::Done(Err(RenderBufferError::CopyRenderToDev(e))),
        },
    }
}

impl CopyToDev {
    /// Starts copying the frame of a buffer of the given prime kind to the
    /// scanout device after `sync`.
    pub fn start(prime: RenderBufferPrime, sync: Option<SyncFile>) -> (r: (Self, CopyToDevStep))
        ensures
            r.1 == spec_copy_to_dev_start(prime, sync),
            r.0.prime == prime,
            r.0.render_block is None,
            r.0.done == (r.1 is Done),
    {
        let step = match prime {
            RenderBufferPrime::NoPrime => CopyToDevStep::Done(
                Ok(RenderBufferCopy { render_block: None, present_block: sync }),
            ),
            RenderBufferPrime::Sampling => CopyToDevStep::Execute { op: CopyOp::DevFbCopyTexture, sync },
            RenderBufferPrime::CopyUdmabuf | RenderBufferPrime::CopyIndirectPull => CopyToDevStep::Execute {
                op: CopyOp::RenderCopy,
                sync,
            },
            RenderBufferPrime::CopyDirectPull => CopyToDevStep::Execute { op: CopyOp::DevCopy, sync },
            RenderBufferPrime::CopyDirectPush => CopyToDevStep::Execute { op: CopyOp::RenderCopy, sync },
        };
        let done = match step {
            CopyToDevStep::Done(_) => true,
            _ => false,
        };
        (CopyToDev { prime, render_block: None, done }, step)
    }

    /// Takes the result of the operation last asked for and says what
    /// comes next.
    pub fn resume(&mut self, res: Result<Option<SyncFile>, String>) -> (r: CopyToDevStep)
        requires
            !old(self).done,
        ensures
            r == spec_copy_to_dev_resume(old(self).prime, old(self).render_block, res),
            final(self).prime == old(self).prime,
            final(self).done == (r is Done),
            r matches CopyToDevStep::Execute { sync, .. } ==> final(self).render_block == Some(sync),
    {
        let step = match self.prime {
            RenderBufferPrime::Sampling => match res {
                Ok(sf) => CopyToDevStep::Done(Ok(RenderBufferCopy::for_both(sf))),
                Err(e) => CopyToDevStep::Done(Err(RenderBufferError::CopyToOutput(e))),
            },
            RenderBufferPrime::CopyUdmabuf | RenderBufferPrime::CopyIndirectPull => match self.render_block {
                None => match res {
                    Ok(rb) => {
                        self.render_block = Some(rb);
                        CopyToDevStep::Execute { op: CopyOp::DevCopy, sync: rb }
                    },
                    Err(e) => CopyToDevStep::Done(Err(RenderBufferError::CopyRenderToUdmabuf(e))),
                },
                Some(rb) => match res {
                    Ok(pb) => CopyToDevStep::Done(Ok(RenderBufferCopy { render_block: rb, present_block: pb })),
                    Err(e) => CopyToDevStep::Done(Err(RenderBufferError::CopyUdmabufToDev(e))),
                },
            },
            _ => match res {
                Ok(sf) => CopyToDevStep::Done(Ok(RenderBufferCopy::for_both(sf))),
                Err(e) => CopyToDevStep::Done(Err(RenderBufferError::CopyRenderToDev(e))),
            },
        };
        self.done = match step {
            CopyToDevStep::Done(_) => true,
            _ => false,
        };
        step
    }
}

/// A prepared allocation.
pub enum Prepared {
    NoPrime(NoPrimePrepared),
    Prime(PrimePrepared),
}

/// The outcome of preparing an allocation with a prime method.
pub open spec fn spec_prime_outcome(b: &Builder, m: PrimeMethod) -> Result<((Seq<u64>, u32), (Seq<u64>, u32)), ScanoutBufferErrorKind> {
    match m {
        PrimeMethod::DirectPull => spec_direct_pull_outcome(b),
        PrimeMethod::DirectPush => spec_direct_push_outcome(b),
        PrimeMethod::Udmabuf => spec_udmabuf_outcome(b),
        PrimeMethod::Sampling => spec_sampling_outcome(b),
        PrimeMethod::IndirectPull => spec_indirect_pull_outcome(b),
    }
}

/// What preparing an allocation with a prime method records.
pub open spec fn spec_prime_debug(b: &Builder, m: PrimeMethod, d0: AllocationDebugView) -> AllocationDebugView {
    match m {
        PrimeMethod::DirectPull => spec_direct_pull_debug(b, d0),
        PrimeMethod::DirectPush => spec_direct_push_debug(b, d0),
        PrimeMethod::Udmabuf => spec_udmabuf_debug(b, d0),
        PrimeMethod::Sampling => spec_sampling_debug(b, d0),
        PrimeMethod::IndirectPull => spec_indirect_pull_debug(b, d0),
    }
}

impl<'a> Builder<'a> {
    /// Prepares an allocation: without prime where `method` is none, else
    /// with the prime method.
    pub fn prepare(&self, method: Option<PrimeMethod>, dbg: &mut RenderBufferAllocationDebug) -> (r: Result<
        Prepared,
        ScanoutBufferErrorKind,
    >)
        ensures
            match method {
                None => {
                    &&& final(dbg)@ == spec_none_debug(self, old(dbg)@)
                    &&& match r {
                        Ok(Prepared::NoPrime(p)) => spec_none_outcome(self) == Ok::<(Seq<u64>, u32), ScanoutBufferErrorKind>(
                            settings_view(&p.allocation_settings),
                        ),
                        Ok(Prepared::Prime(_)) => false,
                        Err(e) => spec_none_outcome(self) == Err::<(Seq<u64>, u32), ScanoutBufferErrorKind>(e),
                    }
                },
                Some(m) => {
                    &&& final(dbg)@ == spec_prime_debug(self, m, old(dbg)@)
                    &&& match r {
                        Ok(Prepared::Prime(p)) => prime_outcome_is(
                            Ok::<PrimePrepared, ScanoutBufferErrorKind>(p),
                            spec_prime_outcome(self, m),
                        ),
                        Ok(Prepared::NoPrime(_)) => false,
                        Err(e) => spec_prime_outcome(self, m) == Err::<((Seq<u64>, u32), (Seq<u64>, u32)), ScanoutBufferErrorKind>(e),
                    }
                },
            },
    {
        match method {
            None => match self.prepare_prime_none(dbg) {
                Ok(p) => Ok(Prepared::NoPrime(p)),
                Err(e) => Err(e),
            },
            Some(m) => {
                let res = match m {
                    PrimeMethod::DirectPull => self.prepare_direct_copy_pull(dbg),
                    PrimeMethod::DirectPush => self.prepare_direct_copy_push(dbg),
                    PrimeMethod::Udmabuf => self.prepare_copy_udmabuf(dbg),
                    PrimeMethod::Sampling => self.prepare_prime_sampling(dbg),
                    PrimeMethod::IndirectPull => self.prepare_indirect_copy_pull(dbg),
                };
                match res {
                    Ok(p) => Ok(Prepared::Prime(p)),
                    Err(e) => Err(e),
                }
            },
        }
    }
}

/// Which framebuffer a copy between render buffers draws into.
#[derive(Copy, Clone, Debug, PartialEq, Eq, Structural)]
pub enum FbSel {
    /// The new buffer's render framebuffer.
    NewRender,
    /// The new buffer's scanout-device framebuffer.
    NewDev,
}

/// Which texture a copy between render buffers samples, with the dmabuf
/// it is imported from.
#[derive(Copy, Clone, Debug, PartialEq, Eq, Structural)]
pub enum TexSel {
    /// The old buffer's render texture (its render buffer object).
    OldRender,
    /// The old buffer's import of its render buffer into the scanout device
    /// (its scanout buffer object).
    OldDevRender,
}

/// How the contents of one render buffer are copied to a new one.
#[derive(Copy, Clone, Debug, PartialEq, Eq, Structural)]
pub enum CopyToNewPlan {
    /// A copy device copies the old scanout buffer object to the new one:
    /// the new buffer's copy device where it has one, else the old's.
    CopyDevice { use_new_device: bool },
    /// The framebuffer draws the texture; where the two sides use different
    /// gfx instances the texture is first imported into the drawing one.
    Texture { fb: FbSel, tex: TexSel, import: bool },
}

/// What the copy between render buffers needs to know of a buffer: its
/// size, its prime kind and which gfx instances its render side and its
/// scanout side use.
#[derive(Copy, Clone, Debug, PartialEq, Eq, Structural)]
pub struct RenderBufferInfo {
    pub width: i32,
    pub height: i32,
    pub prime: RenderBufferPrime,
    pub render_gfx: u64,
    pub dev_gfx: u64,
}

/// The plan of a copy from `old` to `new`.
pub open spec fn spec_copy_to_new_plan(old: RenderBufferInfo, new: RenderBufferInfo) -> Result<CopyToNewPlan, RenderBufferError> {
    if old.width != new.width || old.height != new.height {
        Err(RenderBufferError::NotSameSize)
    } else if spec_has_copy_device(new.prime) {
        Ok(CopyToNewPlan::CopyDevice { use_new_device: true })
    } else if spec_has_copy_device(old.prime) {
        Ok(CopyToNewPlan::CopyDevice { use_new_device: false })
    } else {
        let (fb, dst_gfx) = if new.prime == RenderBufferPrime::NoPrime {
            (FbSel::NewRender, new.render_gfx)
        } else {
            (FbSel::NewDev, new.dev_gfx)
        };
        let (tex, src_gfx) = if old.prime == RenderBufferPrime::NoPrime {
            (TexSel::OldRender, old.render_gfx)
        } else {
            (TexSel::OldDevRender, old.dev_gfx)
        };
        Ok(CopyToNewPlan::Texture { fb, tex, import: dst_gfx != src_gfx })
    }
}

/// Plans the copy of the contents of `old` into `new`, which must have the
/// same size.
pub fn plan_copy_to_new(old: &RenderBufferInfo, new: &RenderBufferInfo) -> (r: Result<
    CopyToNewPlan,
    RenderBufferError,
>)
    ensures
        r == spec_copy_to_new_plan(*old, *new),
{
    if old.width != new.width || old.height != new.height {
        return Err(RenderBufferError::NotSameSize);
    }
    if new.prime.has_dev_copy_device() {
        return Ok(CopyToNewPlan::CopyDevice { use_new_device: true });
    }
    if old.prime.has_dev_copy_device() {
        return Ok(CopyToNewPlan::CopyDevice { use_new_device: false });
    }
    let (fb, dst_gfx) = match new.prime {
        RenderBufferPrime::NoPrime => (FbSel::NewRender, new.render_gfx),
        _ => (FbSel::NewDev, new.dev_gfx),
    };
    let (tex, src_gfx) = match old.prime {
        RenderBufferPrime::NoPrime => (TexSel::OldRender, old.render_gfx),
        _ => (TexSel::OldDevRender, old.dev_gfx),
    };
    Ok(CopyToNewPlan::Texture { fb, tex, import: dst_gfx != src_gfx })
}

/// An operation of a copy between render buffers.
#[derive(Copy, Clone, Debug, PartialEq, Eq, Structural)]
pub enum CopyToNewOp {
    /// Create a copy of the old scanout buffer object into the new one with
    /// the chosen copy device.
    CreateCopy { use_new_device: bool },
    /// Run the created copy.
    ExecuteCopy,
    /// Import the texture's dmabuf into the drawing gfx instance.
    ImportTexture { tex: TexSel },
    /// Draw the (imported, where so) texture into the framebuffer.
    CopyTexture { fb: FbSel, tex: TexSel, imported: bool },
}

/// The next thing a copy between render buffers does.
#[derive(Debug)]
pub enum CopyToNewStep {
    Run(CopyToNewOp),
    Done(Result<Option<SyncFile>, RenderBufferError>),
}

/// A copy between render buffers in progress.
pub struct CopyToNew {
    pub plan: CopyToNewPlan,
    /// Whether the first of the plan's two operations is done.
    pub first_done: bool,
    pub done: bool,
}

/// The first operation of a plan.
pub open spec fn spec_copy_to_new_first(plan: CopyToNewPlan) -> CopyToNewOp {
    match plan {
        CopyToNewPlan::CopyDevice { use_new_device } => CopyToNewOp::CreateCopy { use_new_device },
        CopyToNewPlan::Texture { fb, tex, import } => if import {
            CopyToNewOp::ImportTexture { tex }
        } else {
            CopyToNewOp::CopyTexture { fb, tex, imported: false }
        },
    }
}

/// The step after an operation of a plan finished with `res`;
/// `first_done` says whether the first of its two operations was done
/// before.
pub open spec fn spec_copy_to_new_resume(
    plan: CopyToNewPlan,
    first_done: bool,
    res: Result<Option<SyncFile>, String>,
) -> CopyToNewStep {
    match plan {
        CopyToNewPlan::CopyDevice { .. } => match res {
            Err(e) => CopyToNewStep::Done(
                Err(
                    if first_done {
                        RenderBufferError::ExecuteCopyDeviceCopy(e)
                    } else {
                        RenderBufferError::CreateCopyDeviceCopy(e)
                    },
                ),
            ),
            Ok(sf) => if first_done {
                CopyToNewStep::Done(Ok(sf))
            } else {
                CopyToNewStep::Run(CopyToNewOp::ExecuteCopy)
            },
        },
        CopyToNewPlan::Texture { fb, tex, import } => match res {
            Err(e) => CopyToNewStep::Done(Err(RenderBufferError::GfxError(e))),
            Ok(sf) => if import && !first_done {
                CopyToNewStep::Run(CopyToNewOp::CopyTexture { fb, tex, imported: true })
            } else {
                CopyToNewStep::Done(Ok(sf))
            },
        },
    }
}

impl CopyToNew {
    /// Starts a copy between render buffers by the plan.
    pub fn start(plan: CopyToNewPlan) -> (r: (Self, CopyToNewOp))
        ensures
            r.1 == spec_copy_to_new_first(plan),
            r.0.plan == plan,
            !r.0.first_done,
            !r.0.done,
    {
        let op = match plan {
            CopyToNewPlan::CopyDevice { use_new_device } => CopyToNewOp::CreateCopy { use_new_device },
            CopyToNewPlan::Texture { fb, tex, import } => if import {
                CopyToNewOp::ImportTexture { tex }
            } else {
                CopyToNewOp::CopyTexture { fb, tex, imported: false }
            },
        };
        (CopyToNew { plan, first_done: false, done: false }, op)
    }

    /// Takes the result of the operation last asked for and says what
    /// comes next.
    pub fn resume(&mut self, res: Result<Option<SyncFile>, String>) -> (r: CopyToNewStep)
        requires
            !old(self).done,
        ensures
            r == spec_copy_to_new_resume(old(self).plan, old(self).first_done, res),
            final(self).plan == old(self).plan,
            final(self).first_done,
            final(self).done == (r is Done),
    {
        let first_done = self.first_done;
        self.first_done = true;
        let step = match self.plan {
            CopyToNewPlan::CopyDevice { .. } => match res {
                Err(e) => CopyToNewStep::Done(
                    Err(
                        if first_done {
                            RenderBufferError::ExecuteCopyDeviceCopy(e)
                        } else {
                            RenderBufferError::CreateCopyDeviceCopy(e)
                        },
                    ),
                ),
                Ok(sf) => if first_done {
                    CopyToNewStep::Done(Ok(sf))
                } else {
                    CopyToNewStep::Run(CopyToNewOp::ExecuteCopy)
                },
            },
            CopyToNewPlan::Texture { fb, tex, import } => match res {
                Err(e) => CopyToNewStep::Done(Err(RenderBufferError::GfxError(e))),
                Ok(sf) => if import && !first_done {
                    CopyToNewStep::Run(CopyToNewOp::CopyTexture { fb, tex, imported: true })
                } else {
                    CopyToNewStep::Done(Ok(sf))
                },
            },
        };
        self.done = match step {
            CopyToNewStep::Done(_) => true,
            _ => false,
        };
        step
    }
}

/// Which framebuffer clearing a render buffer clears.
#[derive(Copy, Clone, Debug, PartialEq, Eq, Structural)]
pub enum ClearTarget {
    RenderFb,
    DevFb,
}

/// How a render buffer is cleared: which framebuffer is cleared, and
/// whether the cleared frame is then copied to the scanout device (whose
/// presentation block is the result).
pub fn clear_plan(prime: RenderBufferPrime) -> (r: (ClearTarget, bool))
    ensures
        r.0 == (if prime == RenderBufferPrime::Sampling {
            ClearTarget::DevFb
        } else {
            ClearTarget::RenderFb
        }),
        r.1 == spec_has_copy_device(prime),
{
    match prime {
        RenderBufferPrime::NoPrime => (ClearTarget::RenderFb, false),
        RenderBufferPrime::Sampling => (ClearTarget::DevFb, false),
        _ => (ClearTarget::RenderFb, true),
    }
}

/// Why allocating with one method (or without prime) failed, with the
/// devices, the buffer's size and what was learned while preparing it.
pub struct ScanoutBufferError {
    /// The scanout device.
    pub dev: String,
    /// The render device, where it is another device.
    pub render_name: Option<String>,
    /// The name of the buffer's format.
    pub format: String,
    /// The modifiers the plane supports for the format, in order.
    pub plane_modifiers: Vec<u64>,
    pub width: i32,
    pub height: i32,
    pub cursor: bool,
    pub dbg: RenderBufferAllocationDebug,
    pub kind: ScanoutBufferErrorKind,
    pub prime: Option<PrimeMethod>,
}

/// The failures of all prime methods that were tried, in order.
pub struct ScanoutBufferErrors {
    pub errors: Vec<ScanoutBufferError>,
}

/// Why no scanout buffers could be allocated.
pub enum ScanoutAllocationError {
    /// The render device's gfx API does not support the format.
    RenderUnsupportedFormat,
    /// Allocation failed on a render device that scans out itself.
    AllocateScanoutBuffer(ScanoutBufferError),
    /// Every prime method failed.
    AllocateScanoutBufferPrime(ScanoutBufferErrors),
}

/// The search for a way to allocate scanout buffers: without prime where
/// the render device scans out itself, else with each prime method in turn
/// until one succeeds.
pub struct ScanoutSearch {
    attempts: Vec<Option<PrimeMethod>>,
    next: usize,
    errors: Vec<ScanoutBufferError>,
    /// The way last asked for succeeded: the search is over.
    done: bool,
    same_device: bool,
    /// Whether the buffers get a blend buffer: all but cursor buffers do.
    blend_buffer: bool,
    dev: String,
    render_name: String,
    format: String,
    plane_modifiers: Vec<u64>,
    width: i32,
    height: i32,
    cursor: bool,
}

/// The attempts of a search: without prime where the render device scans
/// out itself, else each prime method in order.
pub open spec fn spec_attempts(same_device: bool, methods: Seq<PrimeMethod>) -> Seq<Option<PrimeMethod>> {
    if same_device {
        seq![None]
    } else {
        methods.map_values(|m: PrimeMethod| Some(m))
    }
}

/// What a search is: the ways to try, in order; how many were tried; the
/// failure of each; whether the way last asked for succeeded; and what the
/// buffers are asked for with.
pub struct ScanoutSearchView {
    pub attempts: Seq<Option<PrimeMethod>>,
    pub next: nat,
    pub errors: Seq<ScanoutBufferError>,
    pub done: bool,
    pub same_device: bool,
    pub blend_buffer: bool,
    pub dev: String,
    pub render_name: String,
    pub format: String,
    pub plane_modifiers: Seq<u64>,
    pub width: i32,
    pub height: i32,
    pub cursor: bool,
}

impl View for ScanoutSearch {
    type V = ScanoutSearchView;

    closed spec fn view(&self) -> ScanoutSearchView {
        ScanoutSearchView {
            attempts: self.attempts@,
            next: self.next as nat,
            errors: self.errors@,
            done: self.done,
            same_device: self.same_device,
            blend_buffer: self.blend_buffer,
            dev: self.dev,
            render_name: self.render_name,
            format: self.format,
            plane_modifiers: self.plane_modifiers@,
            width: self.width,
            height: self.height,
            cursor: self.cursor,
        }
    }
}

impl ScanoutSearch {
    /// One failure is recorded for each way tried, in order; where the
    /// render device scans out itself, the one way is without prime; a
    /// search that succeeded stopped at a way it has.
    pub open spec fn wf(&self) -> bool {
        &&& self@.next <= self@.attempts.len()
        &&& self@.errors.len() == self@.next
        &&& forall|i: int| 0 <= i < self@.next ==> (#[trigger] self@.errors[i]).prime == self@.attempts[i]
        &&& self@.same_device ==> self@.attempts == seq![None::<PrimeMethod>]
        &&& self@.done ==> self@.next < self@.attempts.len()
    }

    /// Whether the buffers get a blend buffer: all but cursor buffers do.
    pub fn blend_buffer(&self) -> (r: bool)
        ensures
            r == self@.blend_buffer,
    {
        self.blend_buffer
    }

    /// Starts a search for buffers of the size on the scanout device
    /// `dev_id`, rendered on the device `render_dev_id`; fails at once
    /// where the render device's gfx API does not support the format.
    pub fn new(
        render_format_supported: bool,
        dev: String,
        dev_id: u64,
        render_name: String,
        render_dev_id: u64,
        format: String,
        plane_modifiers: Vec<u64>,
        width: i32,
        height: i32,
        cursor: bool,
        methods: &[PrimeMethod],
    ) -> (r: Result<Self, ScanoutAllocationError>)
        ensures
            !render_format_supported <==> r matches Err(ScanoutAllocationError::RenderUnsupportedFormat),
            render_format_supported ==> (r matches Ok(s) && {
                &&& s.wf()
                &&& s@.attempts == spec_attempts(dev_id == render_dev_id, methods@)
                &&& s@.next == 0
                &&& !s@.done
                &&& s@.format == format
                &&& s@.plane_modifiers == plane_modifiers@
                &&& s@.same_device == (dev_id == render_dev_id)
                &&& s@.blend_buffer == !cursor
                &&& s@.dev == dev
                &&& s@.render_name == render_name
                &&& s@.width == width
                &&& s@.height == height
                &&& s@.cursor == cursor
            }),
    {
        if !render_format_supported {
            return Err(ScanoutAllocationError::RenderUnsupportedFormat);
        }
        let same_device = dev_id == render_dev_id;
        let mut attempts: Vec<Option<PrimeMethod>> = Vec::new();
        if same_device {
            attempts.push(None);
        } else {
            let mut i: usize = 0;
            while i < methods.len()
                invariant
                    i <= methods@.len(),
                    attempts@.len() == i,
                    forall|j: int| 0 <= j < i ==> #[trigger] attempts@[j] == Some(methods@[j]),
                decreases methods@.len() - i,
            {
                attempts.push(Some(methods[i]));
                i += 1;
            }
        }
        assert(attempts@ =~= spec_attempts(same_device, methods@));
        Ok(
            ScanoutSearch {
                attempts,
                next: 0,
                errors: Vec::new(),
                done: false,
                same_device,
                blend_buffer: !cursor,
                dev,
                render_name,
                format,
                plane_modifiers,
                width,
                height,
                cursor,
            },
        )
    }

    /// The next way to try, if any is left and none succeeded.
    pub fn next_attempt(&self) -> (r: Option<Option<PrimeMethod>>)
        requires
            self.wf(),
        ensures
            r == (if !self@.done && self@.next < self@.attempts.len() {
                Some(self@.attempts[self@.next as int])
            } else {
                None
            }),
    {
        if !self.done && self.next < self.attempts.len() {
            Some(self.attempts[self.next])
        } else {
            None
        }
    }

    /// Records that the way last asked for failed: the error names the
    /// scanout device, the render device where it is another one, the
    /// size, the way and what was learned.
    pub fn record_failure(&mut self, kind: ScanoutBufferErrorKind, dbg: RenderBufferAllocationDebug)
        requires
            old(self).wf(),
            !old(self)@.done,
            old(self)@.next < old(self)@.attempts.len(),
        ensures
            final(self).wf(),
            !final(self)@.done,
            final(self)@.next == old(self)@.next + 1,
            final(self)@.attempts == old(self)@.attempts,
            final(self)@.same_device == old(self)@.same_device,
            final(self)@.blend_buffer == old(self)@.blend_buffer,
            final(self)@.dev == old(self)@.dev,
            final(self)@.render_name == old(self)@.render_name,
            final(self)@.format == old(self)@.format,
            final(self)@.plane_modifiers == old(self)@.plane_modifiers,
            final(self)@.width == old(self)@.width,
            final(self)@.height == old(self)@.height,
            final(self)@.cursor == old(self)@.cursor,
            final(self)@.errors.len() == old(self)@.errors.len() + 1,
            forall|k: int| 0 <= k < old(self)@.errors.len() ==> #[trigger] final(self)@.errors[k] == old(self)@.errors[k],
            ({
                let e = final(self)@.errors[old(self)@.errors.len() as int];
                &&& e.dev == old(self)@.dev
                &&& e.render_name == (if old(self)@.same_device {
                    None
                } else {
                    Some(old(self)@.render_name)
                })
                &&& e.format == old(self)@.format
                &&& e.plane_modifiers@ == old(self)@.plane_modifiers
                &&& e.width == old(self)@.width
                &&& e.height == old(self)@.height
                &&& e.cursor == old(self)@.cursor
                &&& e.dbg == dbg
                &&& e.kind == kind
                &&& e.prime == old(self)@.attempts[old(self)@.next as int]
            }),
    {
        let n = self.next;
        let len = self.attempts.len();
        assert(n < len);
        let prime = self.attempts[n];
        let render_name = if self.same_device {
            None
        } else {
            Some(self.render_name.clone())
        };
        let dev = self.dev.clone();
        let format = self.format.clone();
        let plane_modifiers = self.plane_modifiers.clone();
        assert(plane_modifiers@ =~= self.plane_modifiers@);
        self.errors.push(
            ScanoutBufferError {
                dev,
                render_name,
                format,
                plane_modifiers,
                width: self.width,
                height: self.height,
                cursor: self.cursor,
                dbg,
                kind,
                prime,
            },
        );
        self.next = n + 1;
    }

    /// Records that the way last asked for yielded every buffer: the search
    /// ends with that way, after the failures of the ways before it.
    pub fn record_success(&mut self) -> (r: Option<PrimeMethod>)
        requires
            old(self).wf(),
            !old(self)@.done,
            old(self)@.next < old(self)@.attempts.len(),
        ensures
            final(self).wf(),
            final(self)@.done,
            r == old(self)@.attempts[old(self)@.next as int],
            final(self)@.next == old(self)@.next,
            final(self)@.attempts == old(self)@.attempts,
            final(self)@.errors == old(self)@.errors,
            final(self)@.same_device == old(self)@.same_device,
            final(self)@.blend_buffer == old(self)@.blend_buffer,
            final(self)@.cursor == old(self)@.cursor,
    {
        self.done = true;
        self.attempts[self.next]
    }

    /// The failures recorded so far (reported when a later method succeeds).
    pub fn failures(&self) -> (r: &Vec<ScanoutBufferError>)
        ensures
            r@ == self@.errors,
    {
        &self.errors
    }

    /// The error once every way has failed: the single failure where the
    /// render device scans out itself, else all failures in order.
    pub fn into_error(self) -> (r: ScanoutAllocationError)
        requires
            self.wf(),
            !self@.done,
            self@.next == self@.attempts.len(),
        ensures
            self@.same_device ==> (r matches ScanoutAllocationError::AllocateScanoutBuffer(e) && e == self@.errors[0]),
            !self@.same_device ==> (r matches ScanoutAllocationError::AllocateScanoutBufferPrime(e) && e.errors@ == self@.errors),
    {
        let ScanoutSearch { mut errors, same_device, .. } = self;
        if same_device {
            let e = errors.remove(0);
            ScanoutAllocationError::AllocateScanoutBuffer(e)
        } else {
            ScanoutAllocationError::AllocateScanoutBufferPrime(ScanoutBufferErrors { errors })
        }
    }
}

/// Allocates scanout buffers: tries the search's ways in order with
/// `attempt` (which allocates every buffer of the set with a way, or says
/// why it could not) and stops at the first way that yields them, which is
/// returned with the buffers and the failures of the ways before it. Where
/// every way fails, the error reports each failure.
pub fn run_scanout_search<B, F>(search: ScanoutSearch, attempt: F) -> (r: Result<
    (Option<PrimeMethod>, B, Vec<ScanoutBufferError>),
    ScanoutAllocationError,
>) where F: Fn(Option<PrimeMethod>) -> Result<B, (ScanoutBufferErrorKind, RenderBufferAllocationDebug)>
    requires
        search.wf(),
        !search@.done,
        search@.next == 0,
        forall|m: Option<PrimeMethod>| attempt.requires((m,)),
    ensures
        r matches Ok((m, b, fails)) ==> exists|k: int|
            {
                &&& 0 <= k < search@.attempts.len()
                &&& m == search@.attempts[k]
                &&& attempt.ensures((m,), Ok::<B, (ScanoutBufferErrorKind, RenderBufferAllocationDebug)>(b))
                &&& fails@.len() == k
                &&& forall|j: int|
                    0 <= j < k ==> (#[trigger] fails@[j]).prime == search@.attempts[j] && attempt.ensures(
                        (search@.attempts[j],),
                        Err::<B, (ScanoutBufferErrorKind, RenderBufferAllocationDebug)>((fails@[j].kind, fails@[j].dbg)),
                    )
            },
        r matches Err(ScanoutAllocationError::AllocateScanoutBuffer(e)) ==> search@.same_device && e.prime is None
            && attempt.ensures(
            (None::<PrimeMethod>,),
            Err::<B, (ScanoutBufferErrorKind, RenderBufferAllocationDebug)>((e.kind, e.dbg)),
        ),
        r matches Err(ScanoutAllocationError::AllocateScanoutBufferPrime(es)) ==> {
            &&& !search@.same_device
            &&& es.errors@.len() == search@.attempts.len()
            &&& forall|j: int|
                0 <= j < search@.attempts.len() ==> (#[trigger] es.errors@[j]).prime == search@.attempts[j]
                    && attempt.ensures(
                    (search@.attempts[j],),
                    Err::<B, (ScanoutBufferErrorKind, RenderBufferAllocationDebug)>((es.errors@[j].kind, es.errors@[j].dbg)),
                )
        },
        !(r matches Err(ScanoutAllocationError::RenderUnsupportedFormat)),
{
    let mut sr = search;
    let ghost attempts = search.attempts@;
    let ghost same = search.same_device;
    loop
        invariant
            sr.wf(),
            !sr.done,
            sr.attempts@ == attempts,
            sr.same_device == same,
            attempts == search.attempts@,
            same == search.same_device,
            same ==> attempts == seq![None::<PrimeMethod>],
            forall|m: Option<PrimeMethod>| attempt.requires((m,)),
            forall|j: int|
                0 <= j < sr.next ==> attempt.ensures(
                    (attempts[j],),
                    Err::<B, (ScanoutBufferErrorKind, RenderBufferAllocationDebug)>(
                        (#[trigger] sr.errors@[j].kind, sr.errors@[j].dbg),
                    ),
                ),
        decreases attempts.len() - sr.next,
    {
        match sr.next_attempt() {
            None => {
                let ghost errs = sr.errors@;
                assert(sr.next == attempts.len());
                let e = sr.into_error();
                proof {
                    if same {
                        assert(errs[0].prime == attempts[0]);
                        assert(attempt.ensures(
                            (attempts[0],),
                            Err::<B, (ScanoutBufferErrorKind, RenderBufferAllocationDebug)>((errs[0].kind, errs[0].dbg)),
                        ));
                    } else {
                        assert forall|j: int| 0 <= j < attempts.len() implies (#[trigger] errs[j]).prime == attempts[j]
                            && attempt.ensures(
                            (attempts[j],),
                            Err::<B, (ScanoutBufferErrorKind, RenderBufferAllocationDebug)>((errs[j].kind, errs[j].dbg)),
                        ) by {
                            assert(errs[j].kind == errs[j].kind);
                        }
                    }
                }
                let res: Result<(Option<PrimeMethod>, B, Vec<ScanoutBufferError>), ScanoutAllocationError> = Err(e);
                return res;
            },
            Some(m) => match attempt(m) {
                Ok(b) => {
                    let ghost k = sr.next as int;
                    sr.record_success();
                    let ScanoutSearch { errors, .. } = sr;
                    proof {
                        assert(errors@.len() == k);
                        assert forall|j: int| 0 <= j < k implies (#[trigger] errors@[j]).prime == attempts[j]
                            && attempt.ensures(
                            (attempts[j],),
                            Err::<B, (ScanoutBufferErrorKind, RenderBufferAllocationDebug)>((errors@[j].kind, errors@[j].dbg)),
                        ) by {
                            assert(errors@[j].kind == errors@[j].kind);
                        }
                        assert(m == attempts[k]);
                        assert(search@.attempts == attempts);
                    }
                    let res: Result<(Option<PrimeMethod>, B, Vec<ScanoutBufferError>), ScanoutAllocationError> = Ok((m, b, errors));
                    return res;
                },
                Err((kind, dbg)) => {
                    sr.record_failure(kind, dbg);
                },
            },
        }
    }
}

/// Whether `create`, asked for buffer `k` of a set (the first one starting
/// fully damaged), may give `r`.
pub open spec fn spec_created<B, E, F: Fn(usize, bool) -> Result<B, E>>(create: F, k: int, r: Result<B, E>) -> bool {
    create.ensures((k as usize, k == 0), r)
}

/// Whether `create` may give buffer `k` of a set.
pub open spec fn spec_creatable<B, E, F: Fn(usize, bool) -> Result<B, E>>(create: F, k: int) -> bool {
    exists|b: B| #[trigger] spec_created(create, k, Ok::<B, E>(b))
}

/// Creates the `n` buffers of a set in order with `create`, which is told
/// each buffer's index and whether that buffer starts fully damaged (the
/// first one does); stops at the first failure.
pub fn create_buffer_set<B, E, F>(n: usize, create: F) -> (r: Result<Vec<B>, E>) where F: Fn(usize, bool) -> Result<B, E>
    requires
        forall|k: usize, full: bool| k < n ==> create.requires((k, full)),
    ensures
        r matches Ok(v) ==> v@.len() == n && forall|k: int| 0 <= k < n ==> spec_created(create, k, Ok::<B, E>(#[trigger] v@[k])),
        r matches Err(e) ==> exists|k: int|
            0 <= k < n && spec_created(create, k, Err::<B, E>(e)) && forall|j: int|
                0 <= j < k ==> #[trigger] spec_creatable(create, j),
{
    let mut v: Vec<B> = Vec::new();
    let mut k: usize = 0;
    while k < n
        invariant
            k <= n,
            v@.len() == k,
            forall|k2: usize, full: bool| k2 < n ==> create.requires((k2, full)),
            forall|j: int| 0 <= j < k ==> spec_created(create, j, Ok::<B, E>(#[trigger] v@[j])),
        decreases n - k,
    {
        match create(k, k == 0) {
            Ok(b) => {
                v.push(b);
                proof {
                    assert(spec_created(create, k as int, Ok::<B, E>(v@[k as int])));
                }
            },
            Err(e) => {
                proof {
                    assert(spec_created(create, k as int, Err::<B, E>(e)));
                    assert forall|j: int| 0 <= j < k implies #[trigger] spec_creatable(create, j) by {
                        assert(spec_created(create, j, Ok::<B, E>(v@[j])));
                    }
                    assert(0 <= k < n && spec_created(create, k as int, Err::<B, E>(e)));
                    assert(exists|k2: int|
                        0 <= k2 < n && spec_created(create, k2, Err::<B, E>(e)) && forall|j: int|
                            0 <= j < k2 ==> #[trigger] spec_creatable(create, j));
                }
                let res: Result<Vec<B>, E> = Err(e);
                proof {
                    assert(res matches Err(e2) && e2 == e);
                }
                return res;
            },
        }
        k += 1;
    }
    Ok(v)
}

/// Proves that a search that has tried every way has recorded one failure
/// per way, in the order they were tried.
pub proof fn lemma_search_reports_every_failure(s: ScanoutSearch)
    requires
        s.wf(),
        s@.next == s@.attempts.len(),
    ensures
        s@.errors.len() == s@.attempts.len(),
        forall|i: int| 0 <= i < s@.attempts.len() ==> (#[trigger] s@.errors[i]).prime == s@.attempts[i],
{
}

/// An operation on the devices while one buffer of a set is created.
#[derive(Copy, Clone, Debug, PartialEq, Eq, Structural)]
pub enum CreateOp {
    /// A udmabuf of the buffer's size is created.
    CreateUdmabuf,
    /// The render device's copy device allocates the secondary buffer.
    CreateSecondaryBuffer,
    /// The render buffer object is allocated with the render settings.
    CreateRenderBo,
    /// The render buffer is imported into the render gfx API.
    ImportRenderImage,
    /// The import is turned into a texture.
    RenderTexture,
    /// The import is turned into a framebuffer.
    RenderFramebuffer,
    /// The render framebuffer is cleared.
    ClearRender,
    /// The render buffer is added as a DRM framebuffer (without prime).
    AddRenderFb,
    /// The render buffer is imported into the scanout gfx API.
    ImportRenderIntoDev,
    /// That import is turned into a texture.
    DevRenderTexture,
    /// The scanout buffer object is allocated with the scanout settings.
    CreateDevBo,
    /// The scanout buffer is added as a DRM framebuffer.
    AddDevFb,
    /// The scanout buffer is imported into the scanout gfx API.
    ImportDevImage,
    /// That import is turned into a framebuffer.
    DevFramebuffer,
    /// The render device's copy device creates the copy to the scanout buffer.
    CreateRenderCopyToDev,
    /// The scanout device's copy device creates the copy from the render buffer.
    CreateDevCopyFromRender,
    /// The render device's copy device creates the copy to the secondary buffer.
    CreateRenderCopyToSecondary,
    /// The scanout device's copy device creates the copy from the secondary buffer.
    CreateDevCopyFromSecondary,
    /// The render device's copy device creates the copy to the udmabuf.
    CreateRenderCopyToUdmabuf,
    /// The scanout device's copy device creates the copy from the udmabuf.
    CreateDevCopyFromUdmabuf,
}

/// The operations that create the render side of a buffer.
pub open spec fn spec_render_ops() -> Seq<CreateOp> {
    seq![
        CreateOp::CreateRenderBo,
        CreateOp::ImportRenderImage,
        CreateOp::RenderTexture,
        CreateOp::RenderFramebuffer,
        CreateOp::ClearRender,
    ]
}

/// The operations that create one buffer of a set with the method (none:
/// without prime), in order.
pub open spec fn spec_create_ops(method: Option<PrimeMethod>) -> Seq<CreateOp> {
    let render = spec_render_ops();
    let dev_bo = seq![CreateOp::CreateDevBo, CreateOp::AddDevFb];
    match method {
        None => render.push(CreateOp::AddRenderFb),
        Some(PrimeMethod::Sampling) => render + seq![CreateOp::ImportRenderIntoDev, CreateOp::DevRenderTexture]
            + dev_bo + seq![CreateOp::ImportDevImage, CreateOp::DevFramebuffer],
        Some(PrimeMethod::DirectPush) => render + dev_bo + seq![CreateOp::CreateRenderCopyToDev],
        Some(PrimeMethod::DirectPull) => render + dev_bo + seq![CreateOp::CreateDevCopyFromRender],
        Some(PrimeMethod::IndirectPull) => seq![CreateOp::CreateSecondaryBuffer] + render + dev_bo + seq![
            CreateOp::CreateRenderCopyToSecondary,
            CreateOp::CreateDevCopyFromSecondary,
        ],
        Some(PrimeMethod::Udmabuf) => seq![CreateOp::CreateUdmabuf] + render + dev_bo + seq![
            CreateOp::CreateRenderCopyToUdmabuf,
            CreateOp::CreateDevCopyFromUdmabuf,
        ],
    }
}

/// The failure an operation reports, with the device API's message.
pub open spec fn spec_op_error(op: CreateOp, msg: String) -> ScanoutBufferErrorKind {
    match op {
        CreateOp::CreateUdmabuf => ScanoutBufferErrorKind::CreateUdmabuf(msg),
        CreateOp::CreateSecondaryBuffer => ScanoutBufferErrorKind::RenderCreateCopyBuffer(msg),
        CreateOp::CreateRenderBo => ScanoutBufferErrorKind::RenderBufferAllocation(msg),
        CreateOp::ImportRenderImage => ScanoutBufferErrorKind::RenderImportImage(msg),
        CreateOp::RenderTexture => ScanoutBufferErrorKind::RenderImportRenderTexture(msg),
        CreateOp::RenderFramebuffer => ScanoutBufferErrorKind::RenderImportFb(msg),
        CreateOp::ClearRender => ScanoutBufferErrorKind::RenderClear(msg),
        CreateOp::AddRenderFb => ScanoutBufferErrorKind::SodAddfb2(msg),
        CreateOp::ImportRenderIntoDev => ScanoutBufferErrorKind::SodImportRenderImage(msg),
        CreateOp::DevRenderTexture => ScanoutBufferErrorKind::SodImportRenderTexture(msg),
        CreateOp::CreateDevBo => ScanoutBufferErrorKind::SodBufferAllocation(msg),
        CreateOp::AddDevFb => ScanoutBufferErrorKind::SodAddfb2(msg),
        CreateOp::ImportDevImage => ScanoutBufferErrorKind::SodImportSodImage(msg),
        CreateOp::DevFramebuffer => ScanoutBufferErrorKind::SodImportFb(msg),
        CreateOp::CreateRenderCopyToDev => ScanoutBufferErrorKind::RenderCreateCopyToSod(msg),
        CreateOp::CreateDevCopyFromRender => ScanoutBufferErrorKind::SodCreateCopyFromRender(msg),
        CreateOp::CreateRenderCopyToSecondary => ScanoutBufferErrorKind::RenderCreateCopyToSecondary(msg),
        CreateOp::CreateDevCopyFromSecondary => ScanoutBufferErrorKind::SodCreateCopyFromSecondary(msg),
        CreateOp::CreateRenderCopyToUdmabuf => ScanoutBufferErrorKind::RenderCreateCopyToUdmabuf(msg),
        CreateOp::CreateDevCopyFromUdmabuf => ScanoutBufferErrorKind::SodCreateCopyFromUdmabuf(msg),
    }
}

/// The position of the render buffer's allocation among the operations.
pub open spec fn spec_render_bo_pos(method: Option<PrimeMethod>) -> int {
    match method {
        Some(PrimeMethod::IndirectPull) | Some(PrimeMethod::Udmabuf) => 1,
        _ => 0,
    }
}

/// The position of the scanout buffer's allocation among the operations of
/// a prime method.
pub open spec fn spec_dev_bo_pos(method: PrimeMethod) -> int {
    match method {
        PrimeMethod::Sampling => 7,
        PrimeMethod::DirectPush | PrimeMethod::DirectPull => 5,
        PrimeMethod::IndirectPull | PrimeMethod::Udmabuf => 6,
    }
}

/// Whether the failure of operation `k` records the render buffer's
/// modifier: once the render buffer exists, within the creation of the
/// render side and, with prime, until the end.
pub open spec fn spec_records_render_modifier(method: Option<PrimeMethod>, k: int) -> bool {
    spec_render_bo_pos(method) < k && (method is Some || k < spec_render_bo_pos(method) + 5)
}

/// Whether the failure of operation `k` records a scanout modifier: without
/// prime, the render buffer's when adding it as a framebuffer fails; with
/// prime, the scanout buffer's once it exists.
pub open spec fn spec_records_dev_modifier(method: Option<PrimeMethod>, k: int) -> bool {
    match method {
        None => k == 5,
        Some(m) => spec_dev_bo_pos(m) < k,
    }
}

/// The prime kind of a buffer created with the method.
pub open spec fn spec_prime_of(method: Option<PrimeMethod>) -> RenderBufferPrime {
    match method {
        None => RenderBufferPrime::NoPrime,
        Some(PrimeMethod::Sampling) => RenderBufferPrime::Sampling,
        Some(PrimeMethod::DirectPush) => RenderBufferPrime::CopyDirectPush,
        Some(PrimeMethod::DirectPull) => RenderBufferPrime::CopyDirectPull,
        Some(PrimeMethod::IndirectPull) => RenderBufferPrime::CopyIndirectPull,
        Some(PrimeMethod::Udmabuf) => RenderBufferPrime::CopyUdmabuf,
    }
}

/// The creation of one buffer of a set in progress.
pub struct BufferCreation {
    pub method: Option<PrimeMethod>,
    pub width: i32,
    pub height: i32,
    pub format: u32,
    pub ops: Vec<CreateOp>,
    pub next: usize,
}

/// A created buffer, as the allocation describes it.
#[derive(Copy, Clone, Debug, PartialEq, Eq, Structural)]
pub struct CreatedBuffer {
    pub prime: RenderBufferPrime,
    pub width: i32,
    pub height: i32,
    pub format: u32,
    /// Whether the buffer is locked (in use by the display).
    pub locked: bool,
}

impl BufferCreation {
    pub open spec fn wf(&self) -> bool {
        &&& self.ops@ == spec_create_ops(self.method)
        &&& self.next <= self.ops@.len()
    }

    /// Starts creating a buffer of the size and format with the method.
    pub fn new(method: Option<PrimeMethod>, width: i32, height: i32, format: u32) -> (r: Self)
        ensures
            r.wf(),
            r.method == method,
            r.width == width,
            r.height == height,
            r.format == format,
            r.next == 0,
    {
        let mut ops: Vec<CreateOp> = Vec::new();
        match method {
            Some(PrimeMethod::IndirectPull) => ops.push(CreateOp::CreateSecondaryBuffer),
            Some(PrimeMethod::Udmabuf) => ops.push(CreateOp::CreateUdmabuf),
            _ => {},
        }
        ops.push(CreateOp::CreateRenderBo);
        ops.push(CreateOp::ImportRenderImage);
        ops.push(CreateOp::RenderTexture);
        ops.push(CreateOp::RenderFramebuffer);
        ops.push(CreateOp::ClearRender);
        match method {
            None => {
                ops.push(CreateOp::AddRenderFb);
            },
            Some(m) => {
                if m == PrimeMethod::Sampling {
                    ops.push(CreateOp::ImportRenderIntoDev);
                    ops.push(CreateOp::DevRenderTexture);
                }
                ops.push(CreateOp::CreateDevBo);
                ops.push(CreateOp::AddDevFb);
                match m {
                    PrimeMethod::Sampling => {
                        ops.push(CreateOp::ImportDevImage);
                        ops.push(CreateOp::DevFramebuffer);
                    },
                    PrimeMethod::DirectPush => {
                        ops.push(CreateOp::CreateRenderCopyToDev);
                    },
                    PrimeMethod::DirectPull => {
                        ops.push(CreateOp::CreateDevCopyFromRender);
                    },
                    PrimeMethod::IndirectPull => {
                        ops.push(CreateOp::CreateRenderCopyToSecondary);
                        ops.push(CreateOp::CreateDevCopyFromSecondary);
                    },
                    PrimeMethod::Udmabuf => {
                        ops.push(CreateOp::CreateRenderCopyToUdmabuf);
                        ops.push(CreateOp::CreateDevCopyFromUdmabuf);
                    },
                }
            },
        }
        assert(ops@ =~= spec_create_ops(method));
        BufferCreation { method, width, height, format, ops, next: 0 }
    }

    /// The next operation, if any is left.
    pub fn next_op(&self) -> (r: Option<CreateOp>)
        requires
            self.wf(),
        ensures
            r == (if self.next < self.ops@.len() {
                Some(self.ops@[self.next as int])
            } else {
                None
            }),
    {
        if self.next < self.ops.len() {
            Some(self.ops[self.next])
        } else {
            None
        }
    }

    /// Records that the operation last asked for succeeded.
    pub fn succeed(&mut self)
        requires
            old(self).wf(),
            old(self).next < old(self).ops@.len(),
        ensures
            final(self).wf(),
            final(self).method == old(self).method,
            final(self).width == old(self).width,
            final(self).height == old(self).height,
            final(self).format == old(self).format,
            final(self).next == old(self).next + 1,
    {
        let len = self.ops.len();
        assert(self.next < len);
        self.next = self.next + 1;
    }

    /// The failure of the operation last asked for, with the device API's
    /// message; records the modifiers of the buffers that exist by then
    /// (`render_modifier` of the render buffer, `dev_modifier` of the
    /// scanout buffer) as the creation does.
    pub fn fail(
        &self,
        msg: String,
        render_modifier: u64,
        dev_modifier: u64,
        dbg: &mut RenderBufferAllocationDebug,
    ) -> (r: ScanoutBufferErrorKind)
        requires
            self.wf(),
            self.next < self.ops@.len(),
        ensures
            r == spec_op_error(self.ops@[self.next as int], msg),
            final(dbg)@ == (AllocationDebugView {
                render_modifier: if spec_records_render_modifier(self.method, self.next as int) {
                    Some(render_modifier)
                } else {
                    old(dbg)@.render_modifier
                },
                dev_modifier: if spec_records_dev_modifier(self.method, self.next as int) {
                    Some(if self.method is None { render_modifier } else { dev_modifier })
                } else {
                    old(dbg)@.dev_modifier
                },
                ..old(dbg)@
            }),
    {
        let k = self.next;
        let render_pos: usize = match self.method {
            Some(PrimeMethod::IndirectPull) | Some(PrimeMethod::Udmabuf) => 1,
            _ => 0,
        };
        let records_render = render_pos < k && (self.method.is_some() || k < render_pos + 5);
        let records_dev = match self.method {
            None => k == 5,
            Some(m) => {
                let dev_pos: usize = match m {
                    PrimeMethod::Sampling => 7,
                    PrimeMethod::DirectPush | PrimeMethod::DirectPull => 5,
                    PrimeMethod::IndirectPull | PrimeMethod::Udmabuf => 6,
                };
                dev_pos < k
            },
        };
        if records_render {
            dbg.render_modifier = Some(render_modifier);
        }
        if records_dev {
            dbg.dev_modifier = Some(if self.method.is_none() { render_modifier } else { dev_modifier });
        }
        match self.ops[k] {
            CreateOp::CreateUdmabuf => ScanoutBufferErrorKind::CreateUdmabuf(msg),
            CreateOp::CreateSecondaryBuffer => ScanoutBufferErrorKind::RenderCreateCopyBuffer(msg),
            CreateOp::CreateRenderBo => ScanoutBufferErrorKind::RenderBufferAllocation(msg),
            CreateOp::ImportRenderImage => ScanoutBufferErrorKind::RenderImportImage(msg),
            CreateOp::RenderTexture => ScanoutBufferErrorKind::RenderImportRenderTexture(msg),
            CreateOp::RenderFramebuffer => ScanoutBufferErrorKind::RenderImportFb(msg),
            CreateOp::ClearRender => ScanoutBufferErrorKind::RenderClear(msg),
            CreateOp::AddRenderFb => ScanoutBufferErrorKind::SodAddfb2(msg),
            CreateOp::ImportRenderIntoDev => ScanoutBufferErrorKind::SodImportRenderImage(msg),
            CreateOp::DevRenderTexture => ScanoutBufferErrorKind::SodImportRenderTexture(msg),
            CreateOp::CreateDevBo => ScanoutBufferErrorKind::SodBufferAllocation(msg),
            CreateOp::AddDevFb => ScanoutBufferErrorKind::SodAddfb2(msg),
            CreateOp::ImportDevImage => ScanoutBufferErrorKind::SodImportSodImage(msg),
            CreateOp::DevFramebuffer => ScanoutBufferErrorKind::SodImportFb(msg),
            CreateOp::CreateRenderCopyToDev => ScanoutBufferErrorKind::RenderCreateCopyToSod(msg),
            CreateOp::CreateDevCopyFromRender => ScanoutBufferErrorKind::SodCreateCopyFromRender(msg),
            CreateOp::CreateRenderCopyToSecondary => ScanoutBufferErrorKind::RenderCreateCopyToSecondary(msg),
            CreateOp::CreateDevCopyFromSecondary => ScanoutBufferErrorKind::SodCreateCopyFromSecondary(msg),
            CreateOp::CreateRenderCopyToUdmabuf => ScanoutBufferErrorKind::RenderCreateCopyToUdmabuf(msg),
            CreateOp::CreateDevCopyFromUdmabuf => ScanoutBufferErrorKind::SodCreateCopyFromUdmabuf(msg),
        }
    }

    /// The created buffer, once every operation succeeded: of the size and
    /// format asked for, with the method's prime kind, and locked.
    pub fn finish(&self) -> (r: CreatedBuffer)
        requires
            self.wf(),
            self.next == self.ops@.len(),
        ensures
            r.prime == spec_prime_of(self.method),
            r.width == self.width,
            r.height == self.height,
            r.format == self.format,
            r.locked,
    {
        let prime = match self.method {
            None => RenderBufferPrime::NoPrime,
            Some(PrimeMethod::Sampling) => RenderBufferPrime::Sampling,
            Some(PrimeMethod::DirectPush) => RenderBufferPrime::CopyDirectPush,
            Some(PrimeMethod::DirectPull) => RenderBufferPrime::CopyDirectPull,
            Some(PrimeMethod::IndirectPull) => RenderBufferPrime::CopyIndirectPull,
            Some(PrimeMethod::Udmabuf) => RenderBufferPrime::CopyUdmabuf,
        };
        CreatedBuffer { prime, width: self.width, height: self.height, format: self.format, locked: true }
    }
}

/// Proves that the buffer created with a prime method has that method.
pub proof fn lemma_created_buffer_has_method(method: Option<PrimeMethod>)
    ensures
        spec_prime_method(spec_prime_of(method)) == method,
{
}

/// Whether the buffer's scanout side is its render buffer object: without
/// prime it is; else it has a scanout buffer object of its own.
pub fn scans_out_render_bo(prime: RenderBufferPrime) -> (r: bool)
    ensures
        r == (prime == RenderBufferPrime::NoPrime),
{
    match prime {
        RenderBufferPrime::NoPrime => true,
        _ => false,
    }
}

/// Whether every modifier of `a` occurs in `b`.
pub open spec fn spec_all_in(a: Seq<u64>, b: Seq<u64>) -> bool {
    forall|i: int| 0 <= i < a.len() ==> b.contains(#[trigger] a[i])
}

proof fn lemma_all_in_trans(a: Seq<u64>, b: Seq<u64>, c: Seq<u64>)
    requires
        spec_all_in(a, b),
        spec_all_in(b, c),
    ensures
        spec_all_in(a, c),
{
    assert forall|i: int| 0 <= i < a.len() implies c.contains(#[trigger] a[i]) by {
        assert(b.contains(a[i]));
        let j = choose|j: int| 0 <= j < b.len() && b[j] == a[i];
        assert(c.contains(b[j]));
    }
}

proof fn lemma_intersect_in(l: Seq<u64>, r: Seq<u64>)
    ensures
        spec_all_in(spec_intersect(l, r), l),
        spec_all_in(spec_intersect(l, r), r),
{
    let p = |m: u64| r.contains(m);
    let f = l.filter(p);
    assert forall|i: int| 0 <= i < f.len() implies l.contains(#[trigger] f[i]) && r.contains(f[i]) by {
        l.lemma_filter_pred(p, i);
        assert(f.contains(f[i]));
        l.lemma_filter_contains_rev(p, f[i]);
    }
}

proof fn lemma_linear_only_in(m: Seq<u64>)
    ensures
        spec_all_in(spec_linear_only(m), m),
{
    if m.contains(LINEAR_MODIFIER) {
        assert(spec_linear_only(m)[0] == LINEAR_MODIFIER);
    }
}

proof fn lemma_filter_entries_in(e: Seq<(u64, GfxWriteModifier)>, a: Seq<u64>, b: Option<Seq<u64>>)
    ensures
        spec_all_in(entry_keys(spec_filter_entries(e, a, b)), a),
        spec_all_in(entry_keys(spec_filter_entries(e, a, b)), entry_keys(e)),
        b matches Some(bb) ==> spec_all_in(entry_keys(spec_filter_entries(e, a, b)), bb),
{
    let p = |x: (u64, GfxWriteModifier)|
        a.contains(x.0) && match b {
            Some(b) => b.contains(x.0),
            None => true,
        };
    let f = e.filter(p);
    let k = entry_keys(f);
    assert forall|i: int| 0 <= i < k.len() implies a.contains(#[trigger] k[i]) && entry_keys(e).contains(k[i]) && (
    b matches Some(bb) ==> bb.contains(k[i])) by {
        e.lemma_filter_pred(p, i);
        assert(f.contains(f[i]));
        e.lemma_filter_contains_rev(p, f[i]);
        let j = choose|j: int| 0 <= j < e.len() && e[j] == f[i];
        assert(entry_keys(e)[j] == k[i]);
    }
}

proof fn lemma_intersect_render_in(f: &GfxFormat, src: Seq<u64>)
    ensures
        spec_all_in(spec_intersect_render(f, src), spec_render_modifiers(f)),
        spec_all_in(spec_intersect_render(f, src), spec_sample_modifiers(f)),
        spec_all_in(spec_intersect_render(f, src), src),
{
    let both = spec_intersect(spec_render_modifiers(f), spec_sample_modifiers(f));
    lemma_intersect_in(spec_render_modifiers(f), spec_sample_modifiers(f));
    lemma_intersect_in(both, src);
    lemma_all_in_trans(spec_intersect_render(f, src), both, spec_render_modifiers(f));
    lemma_all_in_trans(spec_intersect_render(f, src), both, spec_sample_modifiers(f));
}

proof fn lemma_copy_outcome_supported(
    b: &Builder,
    src: Seq<u64>,
    dst: Seq<u64>,
    e1: ScanoutBufferErrorKind,
    m: Option<ScanoutBufferErrorKind>,
    e2: ScanoutBufferErrorKind,
)
    ensures
        spec_copy_outcome(b, src, dst, e1, m, e2) matches Ok(((r, _), (d, _))) ==> {
            &&& spec_all_in(d, spec_plane_modifiers(b))
            &&& spec_all_in(d, dst)
            &&& spec_all_in(r, spec_render_modifiers(b.render_fmt))
            &&& spec_all_in(r, spec_sample_modifiers(b.render_fmt))
            &&& spec_all_in(r, src)
        },
{
    lemma_intersect_render_in(b.render_fmt, src);
    let i = spec_intersect(spec_plane_modifiers(b), dst);
    lemma_intersect_in(spec_plane_modifiers(b), dst);
    lemma_linear_only_in(i);
    lemma_all_in_trans(spec_linear_only(i), i, spec_plane_modifiers(b));
    lemma_all_in_trans(spec_linear_only(i), i, dst);
}

/// Proves that a prepared allocation without prime uses only modifiers that
/// the plane can scan out and the render device can render to and sample
/// from.
pub proof fn lemma_no_prime_modifiers_supported(b: &Builder)
    ensures
        spec_none_outcome(b) matches Ok((m, _)) ==> {
            &&& spec_all_in(m, spec_plane_modifiers(b))
            &&& spec_all_in(m, spec_render_modifiers(b.render_fmt))
            &&& spec_all_in(m, spec_sample_modifiers(b.render_fmt))
        },
{
    lemma_filter_entries_in(
        write_modifier_entries(b.render_fmt.write_modifiers),
        spec_plane_modifiers(b),
        Some(spec_sample_modifiers(b.render_fmt)),
    );
}

/// Proves that a prepared prime allocation allocates the scanout buffer
/// only with modifiers that the plane can scan out, and the render buffer
/// only with modifiers that the render device can render to and sample
/// from.
pub proof fn lemma_prime_modifiers_supported(b: &Builder, method: PrimeMethod)
    ensures
        spec_prime_outcome(b, method) matches Ok(((r, _), (d, _))) ==> {
            &&& spec_all_in(d, spec_plane_modifiers(b))
            &&& spec_all_in(r, spec_render_modifiers(b.render_fmt))
            &&& spec_all_in(r, spec_sample_modifiers(b.render_fmt))
        },
{
    match method {
        PrimeMethod::Sampling => {
            match b.dev_fmt {
                Some(dev_fmt) => {
                    lemma_filter_entries_in(
                        write_modifier_entries(b.render_fmt.write_modifiers),
                        spec_sample_modifiers(b.render_fmt),
                        Some(spec_sample_modifiers(dev_fmt)),
                    );
                    lemma_filter_entries_in(
                        write_modifier_entries(dev_fmt.write_modifiers),
                        spec_plane_modifiers(b),
                        None,
                    );
                },
                None => {},
            }
        },
        PrimeMethod::DirectPull => {
            match b.dev_copy_device {
                Some(d) => lemma_copy_outcome_supported(
                    b,
                    spec_copy_modifiers(d.src_support@, b.width, b.height),
                    spec_copy_modifiers(d.dst_support@, b.width, b.height),
                    ScanoutBufferErrorKind::RenderWriteReadSodCopySrcIntersection,
                    None,
                    ScanoutBufferErrorKind::SodPlaneCopyDstIntersection,
                ),
                None => {},
            }
        },
        PrimeMethod::DirectPush => {
            match (b.render_copy_device, b.dev_copy_device) {
                (Some(r), Some(_)) => lemma_copy_outcome_supported(
                    b,
                    spec_copy_modifiers(r.src_support@, b.width, b.height),
                    spec_copy_modifiers(r.dst_support@, b.width, b.height),
                    ScanoutBufferErrorKind::RenderWriteReadCopySrcIntersection,
                    None,
                    ScanoutBufferErrorKind::SodPlaneRenderCopyDstIntersection,
                ),
                _ => {},
            }
        },
        PrimeMethod::IndirectPull => {
            match (b.render_copy_device, b.dev_copy_device) {
                (Some(r), Some(d)) => lemma_copy_outcome_supported(
                    b,
                    spec_copy_modifiers(r.src_support@, b.width, b.height),
                    spec_copy_modifiers(d.dst_support@, b.width, b.height),
                    ScanoutBufferErrorKind::RenderWriteReadCopySrcIntersection,
                    spec_linear_copies_err(b, r, d),
                    ScanoutBufferErrorKind::SodPlaneCopyDstIntersection,
                ),
                _ => {},
            }
        },
        PrimeMethod::Udmabuf => {
            match (b.render_copy_device, b.dev_copy_device) {
                (Some(r), Some(d)) => lemma_copy_outcome_supported(
                    b,
                    spec_copy_modifiers(r.src_support@, b.width, b.height),
                    spec_copy_modifiers(d.dst_support@, b.width, b.height),
                    ScanoutBufferErrorKind::RenderWriteReadCopySrcIntersection,
                    None,
                    ScanoutBufferErrorKind::SodPlaneCopyDstIntersection,
                ),
                _ => {},
            }
        },
    }
}

proof fn lemma_usage_value_bits()
    by (bit_vector)
    ensures
        0u32 & 1u32 == 0u32,
        0u32 & 4u32 == 0u32,
        0u32 & 16u32 == 0u32,
        1u32 & 1u32 == 1u32,
        1u32 & 4u32 == 0u32,
        1u32 & 16u32 == 0u32,
        4u32 & 1u32 == 0u32,
        4u32 & 4u32 == 4u32,
        4u32 & 16u32 == 0u32,
        5u32 & 1u32 == 1u32,
        5u32 & 4u32 == 4u32,
        5u32 & 16u32 == 0u32,
        17u32 & 1u32 == 1u32,
        17u32 & 4u32 == 0u32,
        17u32 & 16u32 == 16u32,
        21u32 & 1u32 == 1u32,
        21u32 & 4u32 == 4u32,
        21u32 & 16u32 == 16u32,
{
}

/// Proves what the usage flags of a buffer mean: it is scanout-capable
/// exactly where it is scanned out, linear exactly where it is a scanned-out
/// cursor buffer, and renderable exactly where its modifiers need it.
pub proof fn lemma_usage_flags(scanout: bool, cursor: bool, needs_render_usage: bool)
    ensures
        (spec_usage(scanout, cursor, needs_render_usage) & GBM_BO_USE_SCANOUT != 0) == scanout,
        (spec_usage(scanout, cursor, needs_render_usage) & GBM_BO_USE_LINEAR != 0) == (scanout && cursor),
        (spec_usage(scanout, cursor, needs_render_usage) & GBM_BO_USE_RENDERING != 0) == needs_render_usage,
{
    lemma_usage_value_bits();
}

} // verus!
