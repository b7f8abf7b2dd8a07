//! The paths through a plane's and a CRTC's color pipelines that realize a
//! color transformation, and the matching of pipelines against paths.
//!
//! A path is a sequence of operation kinds. A pipeline is a sequence of
//! operations, each of which may or may not be bypassed. A pipeline realizes
//! a path when the operations that are not bypassed are, in order, of the
//! kinds of the path's steps.

use vstd::prelude::*;

verus! {

#[derive(Copy, Clone, Debug, PartialEq, Eq, Structural)]
pub enum SrcEotfCriterion {
    NoEotf,
    WithEotf { curve_needs_scale: bool },
}

#[derive(Copy, Clone, Debug, PartialEq, Eq, Structural)]
pub enum DstEotfCriterion {
    NoEotf,
    WithEotf { curve_needs_scale: bool, scale_lut_input: bool },
}

/// What a transformation needs, which selects the set of candidate paths.
#[derive(Copy, Clone, Debug, PartialEq, Eq, Structural)]
pub enum Criteria {
    Nothing,
    Needs { src_eotf: SrcEotfCriterion, dst_eotf: DstEotfCriterion },
}

/// The number of distinct criteria.
pub const NUM_CRITERIA: usize = 16;

pub open spec fn spec_src_index(c: SrcEotfCriterion) -> int {
    match c {
        SrcEotfCriterion::NoEotf => 0,
        SrcEotfCriterion::WithEotf { curve_needs_scale } => if curve_needs_scale { 2 } else { 1 },
    }
}

pub open spec fn spec_dst_index(c: DstEotfCriterion) -> int {
    match c {
        DstEotfCriterion::NoEotf => 0,
        DstEotfCriterion::WithEotf { curve_needs_scale, scale_lut_input } =>
            1 + (if curve_needs_scale { 2int } else { 0 }) + (if scale_lut_input { 1int } else { 0 }),
    }
}

/// The dense index of a criteria value.
pub open spec fn spec_criteria_index(c: Criteria) -> int {
    match c {
        Criteria::Nothing => 0,
        Criteria::Needs { src_eotf, dst_eotf } => 1 + spec_src_index(src_eotf) * 5 + spec_dst_index(dst_eotf),
    }
}

impl Criteria {
    pub fn index(self) -> (r: usize)
        ensures
            r == spec_criteria_index(self),
            r < NUM_CRITERIA,
    {
        match self {
            Criteria::Nothing => 0,
            Criteria::Needs { src_eotf, dst_eotf } => {
                let s: usize = match src_eotf {
                    SrcEotfCriterion::NoEotf => 0,
                    SrcEotfCriterion::WithEotf { curve_needs_scale } => if curve_needs_scale { 2 } else { 1 },
                };
                let d: usize = match dst_eotf {
                    DstEotfCriterion::NoEotf => 0,
                    DstEotfCriterion::WithEotf { curve_needs_scale, scale_lut_input } =>
                        1 + (if curve_needs_scale { 2 } else { 0 }) + (if scale_lut_input { 1 } else { 0 }),
                };
                1 + s * 5 + d
            },
        }
    }
}

/// Distinct criteria have distinct indices.
pub proof fn lemma_criteria_index_injective(a: Criteria, b: Criteria)
    ensures
        spec_criteria_index(a) == spec_criteria_index(b) ==> a == b,
        0 <= spec_criteria_index(a) < NUM_CRITERIA,
{
}

#[derive(Copy, Clone, Debug, Eq, PartialEq, Hash, Structural)]
pub enum LutEotf {
    Eotf,
    InvEotf,
    Both,
}

#[derive(Copy, Clone, Debug, Eq, PartialEq, Hash, Structural)]
pub enum PlaneOpTarget {
    Src,
    Dst,
}

#[derive(Copy, Clone, Debug, Eq, PartialEq, Hash, Structural)]
pub enum PlaneOpKind {
    Curve1d { target: PlaneOpTarget },
    Lut1d { eotf: LutEotf, scale_for_dst_lut: bool, input_is_scaled_for_dst_lut: bool },
    Lut3d { scale_for_dst_lut: bool },
    Matrix3x4 {
        apply_src_curve_scale: bool,
        apply_dst_curve_scale: bool,
        scale_for_dst_lut: bool,
        has_multiply_before: bool,
        has_multiply_after: bool,
    },
    Multiply { apply_src_curve_scale: bool, apply_dst_curve_scale: bool, scale_for_dst_lut: bool },
}

/// The kind of a plane color operation, as far as matching is concerned.
#[derive(Copy, Clone, Debug, Eq, PartialEq, Hash, Structural)]
pub enum PlaneOpName {
    Other,
    Curve1d,
    Lut1d,
    Lut3d,
    Matrix3x4,
    Multiply,
}

pub const NUM_PLANE_OP_NAMES: usize = 6;

impl PlaneOpName {
    pub fn index(self) -> (r: usize)
        ensures
            r < NUM_PLANE_OP_NAMES,
            r == (match self {
                PlaneOpName::Other => 0usize,
                PlaneOpName::Curve1d => 1,
                PlaneOpName::Lut1d => 2,
                PlaneOpName::Lut3d => 3,
                PlaneOpName::Matrix3x4 => 4,
                PlaneOpName::Multiply => 5,
            }),
    {
        match self {
            PlaneOpName::Other => 0,
            PlaneOpName::Curve1d => 1,
            PlaneOpName::Lut1d => 2,
            PlaneOpName::Lut3d => 3,
            PlaneOpName::Matrix3x4 => 4,
            PlaneOpName::Multiply => 5,
        }
    }
}

#[derive(Copy, Clone, Debug, Eq, PartialEq, Hash, Structural)]
pub enum CrtcOpKind {
    GammaLut { eotf: Option<LutEotf>, input_is_scaled_for_dst_lut: bool },
}

/// The kind of a CRTC color operation, as far as matching is concerned.
#[derive(Copy, Clone, Debug, Eq, PartialEq, Hash, Structural)]
pub enum CrtcOpName {
    Other,
    GammaLut,
}

pub const NUM_CRTC_OP_NAMES: usize = 2;

impl CrtcOpName {
    pub fn index(self) -> (r: usize)
        ensures
            r < NUM_CRTC_OP_NAMES,
            r == (match self {
                CrtcOpName::Other => 0usize,
                CrtcOpName::GammaLut => 1,
            }),
    {
        match self {
            CrtcOpName::Other => 0,
            CrtcOpName::GammaLut => 1,
        }
    }
}

/// Properties of a path.
pub const PATH_SUPPORTS_MATRIX: u8 = 1;
pub const PATH_MATRIX_VIA_LUT: u8 = 2;
pub const PATH_HAS_GAMMA_LUT: u8 = 4;
pub const PATH_GAMMA_LUT_IS_RAW: u8 = 8;
pub const PATH_HAS_SRC_CURVE: u8 = 16;
pub const PATH_HAS_DST_CURVE: u8 = 32;

/// A path: its flags and where its plane steps and CRTC steps stand in the
/// step tables.
#[derive(Copy, Clone, Debug, PartialEq, Eq, Structural)]
pub struct Path {
    pub flags: u8,
    pub pl_lo: u16,
    pub pl_len: u8,
    pub cl_lo: u16,
    pub cl_len: u8,
}

/// The steps in `[lo, lo + len)` of a step table: `kinds[indices[k]]`.
pub open spec fn spec_steps<T>(kinds: Seq<T>, indices: Seq<u16>, lo: int, len: int) -> Seq<T> {
    Seq::new(len as nat, |k: int| kinds[indices[lo + k] as int])
}

pub open spec fn spec_table_ok<T>(kinds: Seq<T>, indices: Seq<u16>, lo: int, len: int) -> bool {
    &&& lo + len <= indices.len()
    &&& forall|k: int| lo <= k < lo + len ==> (indices[k] as int) < kinds.len()
}

fn steps<T: Copy>(kinds: &[T], indices: &[u16], lo: usize, len: usize, res: &mut Vec<T>)
    requires
        spec_table_ok(kinds@, indices@, lo as int, len as int),
    ensures
        final(res)@ == spec_steps(kinds@, indices@, lo as int, len as int),
{
    res.clear();
    let n = indices.len();
    assert(lo + len <= n);
    let end = lo + len;
    let mut i: usize = lo;
    while i < end
        invariant
            end == lo + len,
            lo <= i <= lo + len,
            spec_table_ok(kinds@, indices@, lo as int, len as int),
            res@ == spec_steps(kinds@, indices@, lo as int, (i - lo) as int),
        decreases end - i,
    {
        res.push(kinds[indices[i] as usize]);
        proof {
            assert(res@ =~= spec_steps(kinds@, indices@, lo as int, (i + 1 - lo) as int));
        }
        i += 1;
    }
}

impl Path {
    /// The plane steps of the path, looked up in the plane step tables.
    pub fn plane(self, kinds: &[PlaneOpKind], indices: &[u16], res: &mut Vec<PlaneOpKind>)
        requires
            spec_table_ok(kinds@, indices@, self.pl_lo as int, self.pl_len as int),
        ensures
            final(res)@ == spec_steps(kinds@, indices@, self.pl_lo as int, self.pl_len as int),
    {
        steps(kinds, indices, self.pl_lo as usize, self.pl_len as usize, res);
    }

    /// The CRTC steps of the path, looked up in the CRTC step tables.
    pub fn crtc(self, kinds: &[CrtcOpKind], indices: &[u16], res: &mut Vec<CrtcOpKind>)
        requires
            spec_table_ok(kinds@, indices@, self.cl_lo as int, self.cl_len as int),
        ensures
            final(res)@ == spec_steps(kinds@, indices@, self.cl_lo as int, self.cl_len as int),
    {
        steps(kinds, indices, self.cl_lo as usize, self.cl_len as usize, res);
    }

    /// Whether the path has every flag of `flag`.
    pub fn has_flag(self, flag: u8) -> (r: bool)
        ensures
            r == (self.flags & flag == flag),
    {
        self.flags & flag == flag
    }
}

/// The number of paths whose results share one word of a result bitset.
pub const BITS: usize = 64;

/// The index of the word that holds the result of the last of `n` paths.
pub open spec fn spec_last_word(n: int) -> int {
    (n - 1) / (BITS as int)
}

/// Bit `k` of `x`.
pub open spec fn bit(x: u64, k: u64) -> bool {
    (x >> k) & 1 == 1
}

proof fn lemma_bits(s: u64, t: u64, x: u64, y: u64, k: u64, l: u64)
    by (bit_vector)
    requires
        k < 64,
        l < 64,
    ensures
        bit((s & t) << 1, k) == (k >= 1 && bit(s, (k - 1) as u64) && bit(t, (k - 1) as u64)),
        bit(x | y, k) == (bit(x, k) || bit(y, k)),
        bit(1u64, k) == (k == 0),
        bit(0u64, k) == false,
        ((s & (1u64 << l)) != 0) == bit(s, l),
        bit(1u64 << l, k) == (k == l),
{
}

/// Whether the operations of `pipeline` can consume exactly the first `k`
/// steps of a path whose step positions that accept each operation are given
/// by `tt`: every operation either consumes the next step, if that step
/// accepts it, or, if it can be bypassed, consumes nothing.
pub open spec fn spec_reach(tt: Seq<u64>, pipeline: Seq<(usize, bool)>, k: int) -> bool
    decreases pipeline.len(),
{
    if pipeline.len() == 0 {
        k == 0
    } else {
        let op = pipeline.last().0;
        let bypass = pipeline.last().1;
        let pre = pipeline.drop_last();
        ||| (k >= 1 && spec_reach(tt, pre, k - 1) && op < tt.len() && bit(tt[op as int], (k - 1) as u64))
        ||| (bypass && spec_reach(tt, pre, k))
    }
}

/// The pipeline realizes the path: its operations can consume all of the
/// path's steps.
pub open spec fn spec_path_matches(tt: Seq<u64>, len: usize, pipeline: Seq<(usize, bool)>) -> bool {
    spec_reach(tt, pipeline, len as int)
}

/// A matcher for a set of paths: for each path, the step positions that
/// accept each operation kind, and the path's length.
pub struct MatcherImpl {
    pub num_ops: usize,
    pub tt: Vec<Vec<u64>>,
    pub len: Vec<usize>,
}

impl MatcherImpl {
    pub open spec fn wf(&self) -> bool {
        &&& self.tt@.len() == self.len@.len()
        &&& forall|i: int| 0 <= i < self.tt@.len() ==> #[trigger] self.tt@[i]@.len() == self.num_ops
        &&& forall|i: int| 0 <= i < self.len@.len() ==> #[trigger] self.len@[i] < 64
    }

    pub open spec fn num_paths(&self) -> nat {
        self.len@.len()
    }

    /// Whether path `i` is realized by the pipeline.
    pub open spec fn spec_matches(&self, i: int, pipeline: Seq<(usize, bool)>) -> bool {
        spec_path_matches(self.tt@[i]@, self.len@[i], pipeline)
    }

    /// Computes, for each path, whether the pipeline of `(operation kind,
    /// bypassable)` pairs realizes it, by running all paths' automata on
    /// the pipeline at once; bit `i % BITS` of word `i / BITS` of `res` is
    /// set for each realized path `i`. The words that hold results are
    /// overwritten in full.
    pub fn find(&self, pipeline: &[(usize, bool)], res: &mut Vec<u64>)
        requires
            self.wf(),
            forall|j: int| 0 <= j < pipeline@.len() ==> (#[trigger] pipeline@[j]).0 < self.num_ops,
            self.num_paths() > 0 ==> spec_last_word(self.num_paths() as int) < old(res)@.len(),
        ensures
            final(res)@.len() == old(res)@.len(),
            forall|i: int| 0 <= i < self.num_paths() ==>
                bit(#[trigger] final(res)@[i / BITS as int], (i % BITS as int) as u64) == self.spec_matches(i, pipeline@),
            forall|w: int, b: u64| 0 <= w && w * BITS + b >= self.num_paths() && b < 64 && self.num_paths() > 0
                && w <= spec_last_word(self.num_paths() as int) ==> !#[trigger] bit(final(res)@[w], b),
            forall|w: int| 0 <= w < old(res)@.len() && (self.num_paths() == 0 || w > spec_last_word(self.num_paths() as int))
                ==> final(res)@[w] == old(res)@[w],
    {
        let n = self.len.len();
        let mut states: Vec<u64> = Vec::new();
        let mut i: usize = 0;
        while i < n
            invariant
                i <= n,
                n == self.len@.len(),
                states@.len() == i,
                forall|q: int| 0 <= q < i ==> #[trigger] states@[q] == 1u64,
            decreases n - i,
        {
            states.push(1);
            i += 1;
        }
        proof {
            assert forall|q: int, k: u64| 0 <= q < n && k < 64 implies
                #[trigger] bit(states@[q], k) == spec_reach(self.tt@[q]@, pipeline@.take(0), k as int) by {
                lemma_bits(0, 0, 0, 0, k, 0);
                assert(pipeline@.take(0).len() == 0);
            }
        }
        let mut p: usize = 0;
        while p < pipeline.len()
            invariant
                p <= pipeline@.len(),
                n == self.len@.len(),
                states@.len() == n,
                self.wf(),
                forall|j: int| 0 <= j < pipeline@.len() ==> (#[trigger] pipeline@[j]).0 < self.num_ops,
                forall|q: int, k: u64| 0 <= q < n && k < 64 ==>
                    #[trigger] bit(states@[q], k) == spec_reach(self.tt@[q]@, pipeline@.take(p as int), k as int),
            decreases pipeline@.len() - p,
        {
            let (op, bypass) = pipeline[p];
            let mut q: usize = 0;
            while q < n
                invariant
                    q <= n,
                    p < pipeline@.len(),
                    n == self.len@.len(),
                    states@.len() == n,
                    op == pipeline@[p as int].0,
                    bypass == pipeline@[p as int].1,
                    op < self.num_ops,
                    self.wf(),
                    forall|r: int, k: u64| q <= r < n && k < 64 ==>
                        #[trigger] bit(states@[r], k) == spec_reach(self.tt@[r]@, pipeline@.take(p as int), k as int),
                    forall|r: int, k: u64| 0 <= r < q && k < 64 ==>
                        #[trigger] bit(states@[r], k) == spec_reach(self.tt@[r]@, pipeline@.take(p + 1), k as int),
                decreases n - q,
            {
                let old_state = states[q];
                let t = self.tt[q][op];
                let mut s = (old_state & t) << 1;
                if bypass {
                    s = s | old_state;
                }
                states.set(q, s);
                proof {
                    let pre = pipeline@.take(p as int);
                    let cur = pipeline@.take(p + 1);
                    assert(cur.drop_last() =~= pre);
                    assert(cur.last() == pipeline@[p as int]);
                    assert forall|k: u64| k < 64 implies bit(s, k) == spec_reach(self.tt@[q as int]@, cur, k as int) by {
                        lemma_bits(old_state, t, (old_state & t) << 1, old_state, k, 0);
                        if k >= 1 {
                            assert(bit(old_state, (k - 1) as u64) == spec_reach(self.tt@[q as int]@, pre, k - 1));
                        }
                        assert(bit(old_state, k) == spec_reach(self.tt@[q as int]@, pre, k as int));
                    }
                }
                q += 1;
            }
            p += 1;
        }
        proof {
            assert(pipeline@.take(pipeline@.len() as int) =~= pipeline@);
        }
        if n == 0 {
            return;
        }
        let words = (n - 1) / BITS + 1;
        let mut idx: usize = 0;
        while idx < words
            invariant
                idx <= words,
                words == spec_last_word(n as int) + 1,
                n > 0,
                n == self.len@.len(),
                states@.len() == n,
                res@.len() == old(res)@.len(),
                spec_last_word(n as int) < res@.len(),
                self.wf(),
                forall|q: int, k: u64| 0 <= q < n && k < 64 ==>
                    #[trigger] bit(states@[q], k) == spec_reach(self.tt@[q]@, pipeline@, k as int),
                forall|i: int| 0 <= i < idx * BITS && i < n ==>
                    bit(#[trigger] res@[i / BITS as int], (i % BITS as int) as u64) == self.spec_matches(i, pipeline@),
                forall|w: int, b: u64| 0 <= w < idx && w * BITS + b >= n && b < 64 ==> !#[trigger] bit(res@[w], b),
                forall|w: int| idx <= w < res@.len() ==> res@[w] == old(res)@[w],
            decreases words - idx,
        {
            let max_shift = if idx + 1 < words || n % BITS == 0 { BITS } else { n % BITS };
            let mut v: u64 = 0;
            proof {
                assert forall|b: u64| b < 64 implies !bit(v, b) by {
                    lemma_bits(0, 0, 0, 0, b, 0);
                }
            }
            let mut shift: usize = 0;
            while shift < max_shift
                invariant
                    shift <= max_shift <= BITS,
                    idx < words,
                    words == spec_last_word(n as int) + 1,
                    n > 0,
                    idx * BITS + max_shift <= n,
                    max_shift == BITS || idx * BITS + max_shift == n,
                    n == self.len@.len(),
                    states@.len() == n,
                    self.wf(),
                    forall|q: int, k: u64| 0 <= q < n && k < 64 ==>
                        #[trigger] bit(states@[q], k) == spec_reach(self.tt@[q]@, pipeline@, k as int),
                    forall|b: u64| b < 64 ==> bit(v, b) == (b < shift && self.spec_matches(idx * BITS + b, pipeline@)),
                decreases max_shift - shift,
            {
                let i = idx * BITS + shift;
                let l = self.len[i];
                assert(l < 64);
                proof {
                    lemma_bits(states@[i as int], 0, v, 1u64 << (shift as u64), 0, l as u64);
                    assert forall|b: u64| b < 64 implies bit(v | (1u64 << (shift as u64)), b) == (bit(v, b) || b == shift) by {
                        lemma_bits(0, 0, v, 1u64 << (shift as u64), b, shift as u64);
                    }
                }
                let ghost old_v = v;
                if states[i] & (1u64 << l) != 0 {
                    v = v | (1u64 << shift);
                }
                proof {
                    assert(self.spec_matches(i as int, pipeline@) == spec_reach(self.tt@[i as int]@, pipeline@, l as int));
                    assert(bit(states@[i as int], l as u64) == spec_reach(self.tt@[i as int]@, pipeline@, l as int));
                    assert forall|b: u64| b < 64 implies bit(v, b) == (b < shift + 1 && self.spec_matches(idx * BITS + b, pipeline@)) by {
                        lemma_bits(0, 0, old_v, 1u64 << (shift as u64), b, shift as u64);
                        if b == shift {
                            assert(idx * BITS + b == i);
                        }
                    }
                }
                shift += 1;
            }
            res.set(idx, v);
            proof {
                assert forall|i: int| 0 <= i < (idx + 1) * BITS && i < n implies
                    bit(#[trigger] res@[i / BITS as int], (i % BITS as int) as u64) == self.spec_matches(i, pipeline@) by {
                    if i >= idx * BITS {
                        assert(i / BITS as int == idx);
                        assert(i % BITS as int == i - idx * BITS);
                    }
                }
            }
            idx += 1;
        }
    }
}

/// The number of words that hold one bit per path.
pub open spec fn spec_words(n: int) -> int {
    if n % (BITS as int) == 0 {
        n / (BITS as int)
    } else {
        n / (BITS as int) + 1
    }
}

/// For each criteria (by index), the paths that a pipeline realizes, one
/// bit per path.
pub struct Filter {
    pub filter: Vec<Vec<u64>>,
}

impl Filter {
    pub open spec fn wf(&self) -> bool {
        self.filter@.len() == NUM_CRITERIA
    }

    /// Whether path `i` of the criteria with index `c` is in the filter.
    pub open spec fn spec_contains(&self, c: int, i: int) -> bool {
        bit(self.filter@[c]@[i / (BITS as int)], (i % (BITS as int)) as u64)
    }

    /// An empty filter for criteria with the given numbers of paths.
    pub fn new(path_counts: &[usize]) -> (r: Self)
        requires
            path_counts@.len() == NUM_CRITERIA,
        ensures
            r.wf(),
            forall|c: int| 0 <= c < NUM_CRITERIA ==> (#[trigger] r.filter@[c])@.len() == spec_words(path_counts@[c] as int),
            forall|c: int, w: int| 0 <= c < NUM_CRITERIA && 0 <= w < r.filter@[c]@.len() ==> #[trigger] r.filter@[c]@[w] == 0,
    {
        let mut filter: Vec<Vec<u64>> = Vec::new();
        let mut c: usize = 0;
        while c < NUM_CRITERIA
            invariant
                c <= NUM_CRITERIA,
                path_counts@.len() == NUM_CRITERIA,
                filter@.len() == c,
                forall|k: int| 0 <= k < c ==> (#[trigger] filter@[k])@.len() == spec_words(path_counts@[k] as int),
                forall|k: int, w: int| 0 <= k < c && 0 <= w < filter@[k]@.len() ==> #[trigger] filter@[k]@[w] == 0,
            decreases NUM_CRITERIA - c,
        {
            let n = path_counts[c];
            let words = if n % BITS == 0 { n / BITS } else { n / BITS + 1 };
            let mut v: Vec<u64> = Vec::new();
            let mut w: usize = 0;
            while w < words
                invariant
                    w <= words,
                    v@.len() == w,
                    forall|k: int| 0 <= k < w ==> v@[k] == 0,
                decreases words - w,
            {
                v.push(0);
                w += 1;
            }
            filter.push(v);
            c += 1;
        }
        Filter { filter }
    }

    /// Whether path `path_idx` of the criteria is in the filter.
    pub fn contains(&self, criteria: Criteria, path_idx: usize) -> (r: bool)
        requires
            self.wf(),
            path_idx / BITS < self.filter@[spec_criteria_index(criteria)]@.len(),
        ensures
            r == self.spec_contains(spec_criteria_index(criteria), path_idx as int),
    {
        let c = criteria.index();
        let idx = path_idx / BITS;
        let offset = path_idx % BITS;
        let word = self.filter[c][idx];
        ((word >> (offset as u64)) & 1) == 1
    }
}

/// Runs the matchers of all criteria on the pipeline of `(operation kind,
/// bypassable)` pairs: returns, for each criteria, the paths the pipeline
/// realizes, and adds them to `all`.
pub fn create_filter(all: &mut Filter, names: &[(usize, bool)], matchers: &[MatcherImpl]) -> (r: Filter)
    requires
        old(all).wf(),
        matchers@.len() == NUM_CRITERIA,
        forall|c: int| 0 <= c < NUM_CRITERIA ==> (#[trigger] matchers@[c]).wf(),
        forall|c: int, j: int|
            0 <= c < NUM_CRITERIA && 0 <= j < names@.len() ==> (#[trigger] names@[j]).0 < (#[trigger] matchers@[c]).num_ops,
        forall|c: int|
            0 <= c < NUM_CRITERIA ==> (#[trigger] old(all).filter@[c])@.len() == spec_words(
                matchers@[c].num_paths() as int,
            ),
    ensures
        r.wf(),
        final(all).wf(),
        forall|c: int|
            0 <= c < NUM_CRITERIA ==> (#[trigger] r.filter@[c])@.len() == spec_words(matchers@[c].num_paths() as int),
        forall|c: int, i: int|
            0 <= c < NUM_CRITERIA && 0 <= i < matchers@[c].num_paths() ==> #[trigger] r.spec_contains(c, i)
                == matchers@[c].spec_matches(i, names@),
        forall|c: int| 0 <= c < NUM_CRITERIA ==> (#[trigger] final(all).filter@[c])@.len() == old(all).filter@[c]@.len(),
        forall|c: int, w: int|
            0 <= c < NUM_CRITERIA && 0 <= w < old(all).filter@[c]@.len() ==> #[trigger] final(all).filter@[c]@[w]
                == old(all).filter@[c]@[w] | r.filter@[c]@[w],
{
    let mut res: Vec<Vec<u64>> = Vec::new();
    let mut c: usize = 0;
    while c < NUM_CRITERIA
        invariant
            c <= NUM_CRITERIA,
            matchers@.len() == NUM_CRITERIA,
            forall|k: int| 0 <= k < NUM_CRITERIA ==> (#[trigger] matchers@[k]).wf(),
            forall|k: int, j: int|
                0 <= k < NUM_CRITERIA && 0 <= j < names@.len() ==> (#[trigger] names@[j]).0 < (#[trigger] matchers@[k]).num_ops,
            all.wf(),
            res@.len() == c,
            forall|k: int| 0 <= k < NUM_CRITERIA ==> (#[trigger] all.filter@[k])@.len() == old(all).filter@[k]@.len(),
            forall|k: int|
                0 <= k < NUM_CRITERIA ==> (#[trigger] old(all).filter@[k])@.len() == spec_words(
                    matchers@[k].num_paths() as int,
                ),
            forall|k: int| 0 <= k < c ==> (#[trigger] res@[k])@.len() == spec_words(matchers@[k].num_paths() as int),
            forall|k: int, i: int|
                0 <= k < c && 0 <= i < matchers@[k].num_paths() ==> bit(
                    #[trigger] res@[k]@[i / (BITS as int)],
                    (i % (BITS as int)) as u64,
                ) == matchers@[k].spec_matches(i, names@),
            forall|k: int, w: int|
                0 <= k < c && 0 <= w < old(all).filter@[k]@.len() ==> #[trigger] all.filter@[k]@[w]
                    == old(all).filter@[k]@[w] | res@[k]@[w],
            forall|k: int| c <= k < NUM_CRITERIA ==> #[trigger] all.filter@[k] == old(all).filter@[k],
        decreases NUM_CRITERIA - c,
    {
        let m = &matchers[c];
        let n = m.len.len();
        let words = if n % BITS == 0 { n / BITS } else { n / BITS + 1 };
        let mut bits: Vec<u64> = Vec::new();
        let mut w: usize = 0;
        while w < words
            invariant
                w <= words,
                bits@.len() == w,
            decreases words - w,
        {
            bits.push(0);
            w += 1;
        }
        assert forall|j: int| 0 <= j < names@.len() implies (#[trigger] names@[j]).0 < m.num_ops by {
            assert(names@[j].0 < matchers@[c as int].num_ops);
        }
        m.find(names, &mut bits);
        let mut merged = all.filter[c].clone();
        assert(merged@ =~= all.filter@[c as int]@);
        let mut i: usize = 0;
        while i < bits.len()
            invariant
                i <= bits@.len(),
                bits@.len() == words,
                merged@.len() == old(all).filter@[c as int]@.len(),
                old(all).filter@[c as int]@.len() == words,
                all.filter@[c as int] == old(all).filter@[c as int],
                forall|k: int| 0 <= k < i ==> #[trigger] merged@[k] == old(all).filter@[c as int]@[k] | bits@[k],
                forall|k: int| i <= k < merged@.len() ==> #[trigger] merged@[k] == old(all).filter@[c as int]@[k],
            decreases bits@.len() - i,
        {
            let v = merged[i] | bits[i];
            merged.set(i, v);
            i += 1;
        }
        all.filter.set(c, merged);
        res.push(bits);
        c += 1;
    }
    Filter { filter: res }
}

} // verus!
