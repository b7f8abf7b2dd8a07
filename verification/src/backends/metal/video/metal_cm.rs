//! Color management with the color pipelines of planes and CRTCs.

pub mod metal_cm_crtc;
pub mod metal_cm_matcher;
pub mod metal_cm_paths;
pub mod metal_cm_plane;
pub mod metal_cm_plane_matcher;

use vstd::prelude::*;

verus! {

/// What a programming of a connector's color pipelines is computed from.
#[derive(Copy, Clone, Debug)]
pub struct ProgrammingKey {
    pub plane: u32,
    pub crtc: u32,
    pub src_description: u64,
    pub dst_description: u64,
    pub intent: u32,
    /// The client's gamma LUT, by its id.
    pub gamma_lut: Option<[u8; 32]>,
    pub has_cursor_plane: bool,
    pub use_plane_color_pipelines: bool,
}

pub open spec fn spec_lut_id(o: Option<[u8; 32]>) -> Option<Seq<u8>> {
    match o {
        Some(a) => Some(a@),
        None => None,
    }
}

/// Whether two keys describe the same programming.
pub open spec fn spec_same_key(a: ProgrammingKey, b: ProgrammingKey) -> bool {
    &&& a.plane == b.plane
    &&& a.crtc == b.crtc
    &&& a.src_description == b.src_description
    &&& a.dst_description == b.dst_description
    &&& a.intent == b.intent
    &&& spec_lut_id(a.gamma_lut) == spec_lut_id(b.gamma_lut)
    &&& a.has_cursor_plane == b.has_cursor_plane
    &&& a.use_plane_color_pipelines == b.use_plane_color_pipelines
}

fn same_lut_id(a: &Option<[u8; 32]>, b: &Option<[u8; 32]>) -> (r: bool)
    ensures
        r == (spec_lut_id(*a) == spec_lut_id(*b)),
{
    match (a, b) {
        (None, None) => true,
        (Some(x), Some(y)) => {
            let mut i: usize = 0;
            while i < 32
                invariant
                    i <= 32,
                    *a == Some(*x),
                    *b == Some(*y),
                    x@.len() == 32,
                    y@.len() == 32,
                    forall|k: int| 0 <= k < i ==> x@[k] == y@[k],
                decreases 32 - i,
            {
                if x[i] != y[i] {
                    assert(x@[i as int] != y@[i as int]);
                    return false;
                }
                i += 1;
            }
            assert(x@ =~= y@);
            true
        },
        _ => false,
    }
}

/// Whether two keys describe the same programming.
pub fn same_key(a: &ProgrammingKey, b: &ProgrammingKey) -> (r: bool)
    ensures
        r == spec_same_key(*a, *b),
{
    a.plane == b.plane && a.crtc == b.crtc && a.src_description == b.src_description && a.dst_description
        == b.dst_description && a.intent == b.intent && same_lut_id(&a.gamma_lut, &b.gamma_lut)
        && a.has_cursor_plane == b.has_cursor_plane && a.use_plane_color_pipelines == b.use_plane_color_pipelines
}

/// The key of a programming. On AMD devices with a cursor plane, plane
/// color pipelines are not used unless allowed explicitly.
pub fn programming_key(
    plane: u32,
    crtc: u32,
    src_description: u64,
    dst_description: u64,
    intent: u32,
    gamma_lut: Option<[u8; 32]>,
    has_cursor_plane: bool,
    use_plane_color_pipelines: bool,
    vendor_is_amd: bool,
    amd_allow_cursor: bool,
) -> (r: ProgrammingKey)
    ensures
        r == (ProgrammingKey {
            plane,
            crtc,
            src_description,
            dst_description,
            intent,
            gamma_lut,
            has_cursor_plane,
            use_plane_color_pipelines: use_plane_color_pipelines && !(vendor_is_amd && has_cursor_plane
                && !amd_allow_cursor),
        }),
{
    let mut use_plane = use_plane_color_pipelines;
    if vendor_is_amd && has_cursor_plane && !amd_allow_cursor {
        // https://gitlab.freedesktop.org/drm/amd/-/work_items/5062#note_3569710
        use_plane = false;
    }
    ProgrammingKey {
        plane,
        crtc,
        src_description,
        dst_description,
        intent,
        gamma_lut,
        has_cursor_plane,
        use_plane_color_pipelines: use_plane,
    }
}

/// A computed programming: its handle in the shared registry and its key.
#[derive(Copy, Clone, Debug)]
pub struct MetalCmProgramming {
    pub id: u64,
    pub key: ProgrammingKey,
}

/// What the connector's own memory says of a key.
#[derive(Copy, Clone, Debug)]
pub enum CacheAnswer {
    /// The programming in use or the one before has the key.
    Hit(MetalCmProgramming),
    /// The last programming that failed had the key.
    KnownFailed,
    /// Ask the shared registry.
    Miss,
}

/// What to do after the registry answered.
#[derive(Copy, Clone, Debug)]
pub enum RegistryAnswer {
    Use(MetalCmProgramming),
    Failed,
    /// Compute the programming and insert it into the registry.
    Compute,
}

/// The programmings a connector remembers: the one in use, the one before,
/// and the key of the last that failed.
pub struct MetalCmConnector {
    pub current: Option<MetalCmProgramming>,
    pub previous: Option<MetalCmProgramming>,
    pub last_failed: Option<ProgrammingKey>,
}

/// What the connector's memory says of a key.
pub open spec fn spec_find_cached(c: &MetalCmConnector, key: ProgrammingKey) -> CacheAnswer {
    if c.current is Some && spec_same_key(c.current->0.key, key) {
        CacheAnswer::Hit(c.current->0)
    } else if c.last_failed is Some && spec_same_key(c.last_failed->0, key) {
        CacheAnswer::KnownFailed
    } else if c.previous is Some && spec_same_key(c.previous->0.key, key) {
        CacheAnswer::Hit(c.previous->0)
    } else {
        CacheAnswer::Miss
    }
}

impl MetalCmConnector {
    pub fn new() -> (r: Self)
        ensures
            r.current is None,
            r.previous is None,
            r.last_failed is None,
    {
        MetalCmConnector { current: None, previous: None, last_failed: None }
    }

    /// Looks the key up: the programming in use, then the failure last
    /// seen, then the programming before.
    pub fn find_cached(&self, key: &ProgrammingKey) -> (r: CacheAnswer)
        ensures
            r == spec_find_cached(self, *key),
    {
        if let Some(p) = self.current {
            if same_key(&p.key, key) {
                return CacheAnswer::Hit(p);
            }
        }
        if let Some(k) = self.last_failed {
            if same_key(&k, key) {
                return CacheAnswer::KnownFailed;
            }
        }
        if let Some(p) = self.previous {
            if same_key(&p.key, key) {
                return CacheAnswer::Hit(p);
            }
        }
        CacheAnswer::Miss
    }

    /// Takes the registry's entry for the key, if any: `(id, failed)`. A
    /// failed entry is remembered as the last failure.
    pub fn on_registry(&mut self, key: ProgrammingKey, found: Option<(u64, bool)>) -> (r: RegistryAnswer)
        ensures
            final(self).current == old(self).current,
            final(self).previous == old(self).previous,
            match found {
                None => r is Compute && final(self).last_failed == old(self).last_failed,
                Some((id, failed)) => if failed {
                    r is Failed && final(self).last_failed == Some(key)
                } else {
                    r == RegistryAnswer::Use(MetalCmProgramming { id, key }) && final(self).last_failed
                        == old(self).last_failed
                },
            },
    {
        match found {
            None => RegistryAnswer::Compute,
            Some((id, failed)) => {
                if failed {
                    self.last_failed = Some(key);
                    RegistryAnswer::Failed
                } else {
                    RegistryAnswer::Use(MetalCmProgramming { id, key })
                }
            },
        }
    }

    /// Takes a newly computed programming; a failed one is remembered as
    /// the last failure.
    pub fn on_computed(&mut self, key: ProgrammingKey, id: u64, failed: bool) -> (r: Option<MetalCmProgramming>)
        ensures
            final(self).current == old(self).current,
            final(self).previous == old(self).previous,
            failed ==> r is None && final(self).last_failed == Some(key),
            !failed ==> r == Some(MetalCmProgramming { id, key }) && final(self).last_failed == old(self).last_failed,
    {
        if failed {
            self.last_failed = Some(key);
            return None;
        }
        Some(MetalCmProgramming { id, key })
    }

    /// Forgets what was computed: the programming in use becomes the one
    /// before, and no failure is remembered.
    pub fn invalidate(&mut self)
        ensures
            final(self).current is None,
            final(self).previous == old(self).current,
            final(self).last_failed is None,
    {
        self.previous = self.current;
        self.current = None;
        self.last_failed = None;
    }

    /// Puts the programming in use; the one in use before becomes the
    /// previous one, unless it is the same programming.
    pub fn apply(&mut self, p: MetalCmProgramming)
        ensures
            old(self).current is Some && old(self).current->0.id == p.id ==> *final(self) == *old(self),
            !(old(self).current is Some && old(self).current->0.id == p.id) ==> {
                &&& final(self).current == Some(p)
                &&& final(self).previous == old(self).current
                &&& final(self).last_failed == old(self).last_failed
            },
    {
        if let Some(c) = self.current {
            if c.id == p.id {
                return;
            }
        }
        self.previous = self.current;
        self.current = Some(p);
    }

    /// Whether the programming is not the one in use.
    pub fn is_different(&self, p: &MetalCmProgramming) -> (r: bool)
        ensures
            r == !(self.current is Some && self.current->0.id == p.id),
    {
        match self.current {
            Some(c) => c.id != p.id,
            None => true,
        }
    }
}

/// Proves that right after a programming is put in use, its key is found
/// in the connector's memory as that programming.
pub proof fn lemma_applied_programming_is_found(c: MetalCmConnector, p: MetalCmProgramming)
    requires
        c.current == Some(p),
    ensures
        spec_find_cached(&c, p.key) == CacheAnswer::Hit(p),
{
}

/// Proves that once a key failed, it is answered as failed without asking
/// the registry, unless the programming in use has it.
pub proof fn lemma_failed_key_is_not_recomputed(c: MetalCmConnector, key: ProgrammingKey)
    requires
        c.last_failed == Some(key),
        !(c.current is Some && spec_same_key(c.current->0.key, key)),
    ensures
        spec_find_cached(&c, key) == CacheAnswer::KnownFailed,
{
}

} // verus!
