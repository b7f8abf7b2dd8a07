//! The color pipelines of CRTCs: a CRTC's gamma LUT, and the matching of a
//! CRTC path (a sequence of operation kinds) against the operations of a
//! pipeline, each of which either realizes the next step or is bypassed.

use vstd::prelude::*;
use super::metal_cm_paths::create_filter;
use super::metal_cm_paths::spec_criteria_index;
use super::metal_cm_paths::spec_words;
use super::metal_cm_paths::Criteria;
use super::metal_cm_paths::CrtcOpKind;
use super::metal_cm_paths::CrtcOpName;
use super::metal_cm_paths::Filter;
use super::metal_cm_paths::LutEotf;
use super::metal_cm_paths::MatcherImpl;
use super::metal_cm_paths::BITS;
use super::metal_cm_paths::NUM_CRITERIA;

verus! {

// AMD: 4096
// Nvidia: 1024
// Intel: between 32 and 128, i.e., useless
/// The smallest gamma LUT that is used for a transfer curve.
pub const MIN_LUT_SIZE: usize = 1024;

/// A transfer curve that a LUT realizes, by the EOTFs involved.
#[derive(Copy, Clone, Debug, PartialEq, Eq, Hash, Structural)]
pub enum CurveConfig {
    Eotf(u32),
    InvEotf(u32),
    Both(u32, u32),
}

/// A color operation of a CRTC: its gamma LUT, with the LUT's size and the
/// property through which it is set.
#[derive(Copy, Clone, Debug, PartialEq, Eq, Structural)]
pub struct CrtcColorOp {
    pub size: usize,
    pub gamma_lut: u32,
}

/// How an operation is used by a match.
#[derive(Copy, Clone, Debug, PartialEq, Eq, Structural)]
pub enum ColorOpMatchType {
    /// The operation is bypassed: its LUT is cleared.
    Bypass { gamma_lut: u32 },
    /// The operation realizes a step: its LUT holds the curve, if any.
    GammaLut { gamma_lut: u32, eotf: Option<CurveConfig>, size: usize, input_is_scaled_for_dst_lut: bool },
}

/// An operation of a CRTC as a match uses it.
#[derive(Copy, Clone, Debug, PartialEq, Eq, Structural)]
pub struct ColorOpMatch {
    pub crtc: u32,
    pub ty: ColorOpMatchType,
}

/// Whether the operation can realize the step: a LUT too small for curves
/// realizes only steps without a curve.
pub open spec fn spec_accepts(op: CrtcColorOp, step: CrtcOpKind) -> bool {
    match step {
        CrtcOpKind::GammaLut { eotf, .. } => op.size >= MIN_LUT_SIZE || eotf is None,
    }
}

/// The curve a step asks for, with the source and destination EOTFs.
pub open spec fn spec_curve(eotf: Option<LutEotf>, src: u32, dst: u32) -> Option<CurveConfig> {
    match eotf {
        None => None,
        Some(LutEotf::Eotf) => Some(CurveConfig::Eotf(src)),
        Some(LutEotf::InvEotf) => Some(CurveConfig::InvEotf(dst)),
        Some(LutEotf::Both) => Some(CurveConfig::Both(src, dst)),
    }
}

/// How the operation realizes the step.
pub open spec fn spec_realize(op: CrtcColorOp, step: CrtcOpKind, src: u32, dst: u32) -> ColorOpMatchType {
    match step {
        CrtcOpKind::GammaLut { eotf, input_is_scaled_for_dst_lut } => ColorOpMatchType::GammaLut {
            gamma_lut: op.gamma_lut,
            eotf: spec_curve(eotf, src, dst),
            size: op.size,
            input_is_scaled_for_dst_lut,
        },
    }
}

/// Whether operations `i..` can realize exactly steps `j..` of the path.
pub open spec fn spec_can_match(ops: Seq<CrtcColorOp>, path: Seq<CrtcOpKind>, i: int, j: int) -> bool
    decreases ops.len() - i,
{
    if i >= ops.len() || i < 0 {
        j == path.len()
    } else {
        ||| (0 <= j < path.len() && spec_accepts(ops[i], path[j]) && spec_can_match(ops, path, i + 1, j + 1))
        ||| spec_can_match(ops, path, i + 1, j)
    }
}

/// How operation `i` is used when steps `j..` remain: it realizes step `j`
/// where it can and the rest can be matched; else it is bypassed where the
/// rest can be matched without it.
pub open spec fn spec_choice(ops: Seq<CrtcColorOp>, path: Seq<CrtcOpKind>, i: int, j: int, src: u32, dst: u32) -> Option<ColorOpMatchType> {
    if 0 <= j < path.len() && spec_accepts(ops[i], path[j]) && spec_can_match(ops, path, i + 1, j + 1) {
        Some(spec_realize(ops[i], path[j], src, dst))
    } else if spec_can_match(ops, path, i + 1, j) {
        Some(ColorOpMatchType::Bypass { gamma_lut: ops[i].gamma_lut })
    } else {
        None
    }
}

/// The uses of operations `i..` when steps `j..` remain, following the
/// choices.
pub open spec fn spec_walk(ops: Seq<CrtcColorOp>, path: Seq<CrtcOpKind>, i: int, j: int, src: u32, dst: u32) -> Seq<ColorOpMatchType>
    decreases ops.len() - i,
{
    if i >= ops.len() || i < 0 {
        Seq::empty()
    } else {
        match spec_choice(ops, path, i, j, src, dst) {
            Some(t) => seq![t] + spec_walk(
                ops,
                path,
                i + 1,
                if t is Bypass { j } else { j + 1 },
                src,
                dst,
            ),
            None => spec_walk(ops, path, i + 1, j, src, dst),
        }
    }
}

/// A pipeline of a CRTC: its operations in order, and the paths it
/// realizes for each criteria.
pub struct CrtcColorPipeline {
    pub crtc: u32,
    pub ops: Vec<CrtcColorOp>,
    pub filter: Filter,
}

/// The CRTC's pipelines and the paths that any of them realizes.
pub struct CrtcColorPipelines {
    pub pipelines: Vec<CrtcColorPipeline>,
    pub filter: Filter,
}

/// The uses of a pipeline's operations that realize a path.
pub struct CrtcColorPipelineMatch {
    pub matches: Vec<ColorOpMatch>,
}

/// Whether path `path_idx` of the criteria is in the filter, as far as the
/// filter has a word for it.
pub open spec fn spec_filter_has(f: &Filter, criteria: Criteria, path_idx: usize) -> bool {
    &&& path_idx / BITS < f.filter@[spec_criteria_index(criteria)]@.len()
    &&& f.spec_contains(spec_criteria_index(criteria), path_idx as int)
}

/// The matches of the operations, as the walk chooses them.
pub open spec fn spec_matches_of(crtc: u32, w: Seq<ColorOpMatchType>) -> Seq<ColorOpMatch> {
    w.map_values(|t: ColorOpMatchType| ColorOpMatch { crtc, ty: t })
}

/// What matching the pipeline against the path gives.
pub open spec fn spec_pipeline_match(
    p: &CrtcColorPipeline,
    criteria: Criteria,
    path_idx: usize,
    path: Seq<CrtcOpKind>,
    src: u32,
    dst: u32,
) -> Option<Seq<ColorOpMatch>> {
    if spec_filter_has(&p.filter, criteria, path_idx) && spec_can_match(p.ops@, path, 0, 0) {
        Some(spec_matches_of(p.crtc, spec_walk(p.ops@, path, 0, 0, src, dst)))
    } else {
        None
    }
}

/// The number of uses that realize a step.
pub open spec fn spec_realized_count(w: Seq<ColorOpMatchType>) -> int
    decreases w.len(),
{
    if w.len() == 0 {
        0
    } else {
        spec_realized_count(w.drop_first()) + if w[0] is Bypass {
            0int
        } else {
            1int
        }
    }
}

/// Proves that where operations `i..` can realize steps `j..`, the walk
/// uses each of those operations once and realizes each of those steps
/// once.
pub proof fn lemma_match_realizes_path(
    ops: Seq<CrtcColorOp>,
    path: Seq<CrtcOpKind>,
    i: int,
    j: int,
    src: u32,
    dst: u32,
)
    requires
        0 <= i <= ops.len(),
        0 <= j <= path.len(),
        spec_can_match(ops, path, i, j),
    ensures
        spec_walk(ops, path, i, j, src, dst).len() == ops.len() - i,
        spec_realized_count(spec_walk(ops, path, i, j, src, dst)) == path.len() - j,
    decreases ops.len() - i,
{
    if i < ops.len() {
        let t = spec_choice(ops, path, i, j, src, dst)->0;
        let j2 = if t is Bypass { j } else { j + 1 };
        lemma_match_realizes_path(ops, path, i + 1, j2, src, dst);
        let rest = spec_walk(ops, path, i + 1, j2, src, dst);
        assert((seq![t] + rest).drop_first() =~= rest);
    }
}

/// Whether the operation can realize the step.
fn accepts(op: CrtcColorOp, step: CrtcOpKind) -> (r: bool)
    ensures
        r == spec_accepts(op, step),
{
    match step {
        CrtcOpKind::GammaLut { eotf, .. } => op.size >= MIN_LUT_SIZE || eotf.is_none(),
    }
}

/// How the operation realizes the step.
fn realize(op: CrtcColorOp, step: CrtcOpKind, src: u32, dst: u32) -> (r: ColorOpMatchType)
    ensures
        r == spec_realize(op, step, src, dst),
{
    match step {
        CrtcOpKind::GammaLut { eotf, input_is_scaled_for_dst_lut } => {
            let eotf = match eotf {
                None => None,
                Some(LutEotf::Eotf) => Some(CurveConfig::Eotf(src)),
                Some(LutEotf::InvEotf) => Some(CurveConfig::InvEotf(dst)),
                Some(LutEotf::Both) => Some(CurveConfig::Both(src, dst)),
            };
            ColorOpMatchType::GammaLut { gamma_lut: op.gamma_lut, eotf, size: op.size, input_is_scaled_for_dst_lut }
        },
    }
}

impl CrtcColorPipeline {
    pub open spec fn wf(&self) -> bool {
        self.filter.wf()
    }

    /// Matches the pipeline against path `path_idx` of the criteria, whose
    /// steps are `path`, with the given source and destination EOTFs:
    /// none where the filter rules the path out or the operations cannot
    /// realize it; else the use of each operation.
    pub fn find_match(
        &self,
        criteria: Criteria,
        path_idx: usize,
        path: &[CrtcOpKind],
        src: u32,
        dst: u32,
    ) -> (r: Option<Vec<ColorOpMatch>>)
        requires
            self.wf(),
        ensures
            match r {
                Some(m) => spec_pipeline_match(self, criteria, path_idx, path@, src, dst) == Some(m@),
                None => spec_pipeline_match(self, criteria, path_idx, path@, src, dst) is None,
            },
    {
        let c = criteria.index();
        if path_idx / BITS >= self.filter.filter[c].len() {
            return None;
        }
        if !self.filter.contains(criteria, path_idx) {
            return None;
        }
        let ops = &self.ops;
        let n = ops.len();
        let m = path.len();
        // rows[k] holds, for each j <= m, whether operations n - k.. can
        // realize steps j.. of the path.
        let mut rows: Vec<Vec<bool>> = Vec::new();
        let mut last: Vec<bool> = Vec::new();
        let mut j: usize = 0;
        while j < m
            invariant
                j <= m,
                m == path@.len(),
                n == ops@.len(),
                last@.len() == j,
                forall|q: int| 0 <= q < j ==> #[trigger] last@[q] == spec_can_match(ops@, path@, n as int, q),
            decreases m - j,
        {
            last.push(false);
            j += 1;
        }
        last.push(true);
        rows.push(last);
        let mut k: usize = 0;
        while k < n
            invariant
                k <= n,
                n == ops@.len(),
                m == path@.len(),
                rows@.len() == k + 1,
                forall|a: int| 0 <= a <= k ==> (#[trigger] rows@[a])@.len() == m + 1,
                forall|a: int, q: int|
                    0 <= a <= k && 0 <= q <= m ==> #[trigger] rows@[a]@[q] == spec_can_match(ops@, path@, n - a, q),
            decreases n - k,
        {
            let i = n - 1 - k;
            let mut row: Vec<bool> = Vec::new();
            let mut q: usize = 0;
            while q < m
                invariant
                    q <= m,
                    k < n,
                    i == n - 1 - k,
                    n == ops@.len(),
                    m == path@.len(),
                    rows@.len() == k + 1,
                    (rows@[k as int])@.len() == m + 1,
                    forall|b: int| 0 <= b <= m ==> #[trigger] rows@[k as int]@[b] == spec_can_match(ops@, path@, n - k, b),
                    row@.len() == q,
                    forall|b: int| 0 <= b < q ==> #[trigger] row@[b] == spec_can_match(ops@, path@, i as int, b),
                decreases m - q,
            {
                let next = &rows[k];
                let take = accepts(ops[i], path[q]) && next[q + 1];
                let v = take || next[q];
                proof {
                    assert(n - k == i + 1);
                }
                row.push(v);
                q += 1;
            }
            let at_end = rows[k][m];
            proof {
                assert(n - k == i + 1);
            }
            row.push(at_end);
            rows.push(row);
            k += 1;
        }
        if !rows[n][0] {
            return None;
        }
        // Walk the choices from the start.
        let mut matches: Vec<ColorOpMatch> = Vec::new();
        let mut i: usize = 0;
        let mut j: usize = 0;
        while i < n
            invariant
                i <= n,
                n == ops@.len(),
                m == path@.len(),
                j <= m,
                rows@.len() == n + 1,
                forall|a: int| 0 <= a <= n ==> (#[trigger] rows@[a])@.len() == m + 1,
                forall|a: int, q: int|
                    0 <= a <= n && 0 <= q <= m ==> #[trigger] rows@[a]@[q] == spec_can_match(ops@, path@, n - a, q),
                spec_can_match(ops@, path@, i as int, j as int),
                spec_matches_of(self.crtc, spec_walk(ops@, path@, 0, 0, src, dst)) == matches@ + spec_matches_of(
                    self.crtc,
                    spec_walk(ops@, path@, i as int, j as int, src, dst),
                ),
            decreases n - i,
        {
            let next = &rows[n - i - 1];
            let take = j < m && accepts(ops[i], path[j]) && next[j + 1];
            let ghost rest = spec_walk(ops@, path@, i + 1, if take { j + 1 } else { j as int }, src, dst);
            let ty = if take {
                realize(ops[i], path[j], src, dst)
            } else {
                ColorOpMatchType::Bypass { gamma_lut: ops[i].gamma_lut }
            };
            proof {
                assert(n - (n - i - 1) == i + 1);
                assert(spec_choice(ops@, path@, i as int, j as int, src, dst) == Some(ty));
                assert(spec_walk(ops@, path@, i as int, j as int, src, dst) == seq![ty] + rest);
                assert(spec_matches_of(self.crtc, seq![ty] + rest) =~= seq![ColorOpMatch { crtc: self.crtc, ty }]
                    + spec_matches_of(self.crtc, rest));
                assert(matches@.push(ColorOpMatch { crtc: self.crtc, ty }) =~= matches@ + seq![ColorOpMatch { crtc: self.crtc, ty }]);
                if !take {
                    assert(spec_can_match(ops@, path@, i + 1, j as int));
                }
            }
            matches.push(ColorOpMatch { crtc: self.crtc, ty });
            if take {
                j += 1;
            }
            i += 1;
        }
        proof {
            assert(spec_walk(ops@, path@, n as int, j as int, src, dst) =~= Seq::<ColorOpMatchType>::empty());
            assert(matches@ + spec_matches_of(self.crtc, Seq::<ColorOpMatchType>::empty()) =~= matches@);
        }
        Some(matches)
    }
}

impl CrtcColorPipelines {
    pub open spec fn wf(&self) -> bool {
        forall|i: int| 0 <= i < self.pipelines@.len() ==> (#[trigger] self.pipelines@[i]).wf()
    }

    /// Matches the pipelines in order against the path: the first match.
    pub fn find_match(
        &self,
        criteria: Criteria,
        path_idx: usize,
        path: &[CrtcOpKind],
        src: u32,
        dst: u32,
    ) -> (r: Option<CrtcColorPipelineMatch>)
        requires
            self.wf(),
        ensures
            match r {
                Some(m) => exists|k: int|
                    0 <= k < self.pipelines@.len() && spec_pipeline_match(&#[trigger] self.pipelines@[k], criteria, path_idx, path@, src, dst)
                        == Some(m.matches@) && forall|l: int|
                        0 <= l < k ==> spec_pipeline_match(&#[trigger] self.pipelines@[l], criteria, path_idx, path@, src, dst) is None,
                None => forall|k: int|
                    0 <= k < self.pipelines@.len() ==> spec_pipeline_match(&#[trigger] self.pipelines@[k], criteria, path_idx, path@, src, dst) is None,
            },
    {
        let mut k: usize = 0;
        while k < self.pipelines.len()
            invariant
                k <= self.pipelines@.len(),
                self.wf(),
                forall|l: int|
                    0 <= l < k ==> spec_pipeline_match(&#[trigger] self.pipelines@[l], criteria, path_idx, path@, src, dst) is None,
            decreases self.pipelines@.len() - k,
        {
            let p = &self.pipelines[k];
            match p.find_match(criteria, path_idx, path, src, dst) {
                Some(matches) => {
                    proof {
                        assert(spec_pipeline_match(&self.pipelines@[k as int], criteria, path_idx, path@, src, dst)
                            == Some(matches@));
                    }
                    return Some(CrtcColorPipelineMatch { matches });
                },
                None => {},
            }
            k += 1;
        }
        None
    }
}

/// Builds the pipelines of a CRTC from its `GAMMA_LUT` property and its
/// `GAMMA_LUT_SIZE` value (both where present): one pipeline, with one
/// gamma LUT operation where both are present, else with none; its filter
/// is what the CRTC matchers find for it, which is also the CRTC's.
pub fn parse_color_pipelines(
    crtc: u32,
    gamma_lut: Option<u32>,
    gamma_lut_size: Option<usize>,
    matchers: &[MatcherImpl],
) -> (r: CrtcColorPipelines)
    requires
        matchers@.len() == NUM_CRITERIA,
        forall|c: int| 0 <= c < NUM_CRITERIA ==> (#[trigger] matchers@[c]).wf(),
        forall|c: int| 0 <= c < NUM_CRITERIA ==> (#[trigger] matchers@[c]).num_ops > 1,
    ensures
        r.wf(),
        r.pipelines@.len() == 1,
        r.pipelines@[0].crtc == crtc,
        r.pipelines@[0].ops@ == (match (gamma_lut, gamma_lut_size) {
            (Some(g), Some(s)) => seq![CrtcColorOp { size: s, gamma_lut: g }],
            _ => Seq::empty(),
        }),
        forall|c: int, i: int|
            0 <= c < NUM_CRITERIA && 0 <= i < matchers@[c].num_paths() ==> #[trigger] r.pipelines@[0].filter.spec_contains(c, i)
                == matchers@[c].spec_matches(
                i,
                if r.pipelines@[0].ops@.len() == 1 {
                    seq![(1usize, true)]
                } else {
                    Seq::empty()
                },
            ),
        forall|c: int, i: int|
            0 <= c < NUM_CRITERIA && 0 <= i < matchers@[c].num_paths() ==> #[trigger] r.filter.spec_contains(c, i)
                == r.pipelines@[0].filter.spec_contains(c, i),
{
    let mut ops: Vec<CrtcColorOp> = Vec::new();
    match (gamma_lut, gamma_lut_size) {
        (Some(g), Some(s)) => {
            ops.push(CrtcColorOp { size: s, gamma_lut: g });
        },
        _ => {},
    }
    let mut names: Vec<(usize, bool)> = Vec::new();
    if ops.len() == 1 {
        names.push((CrtcOpName::GammaLut.index(), true));
    }
    let mut counts: Vec<usize> = Vec::new();
    let mut c: usize = 0;
    while c < NUM_CRITERIA
        invariant
            c <= NUM_CRITERIA,
            matchers@.len() == NUM_CRITERIA,
            counts@.len() == c,
            forall|k: int| 0 <= k < c ==> #[trigger] counts@[k] == matchers@[k].num_paths(),
        decreases NUM_CRITERIA - c,
    {
        counts.push(matchers[c].len.len());
        c += 1;
    }
    let mut filter = Filter::new(counts.as_slice());
    assert(names@.len() == 1 ==> names@[0].0 == 1);
    let pipeline_filter = create_filter(&mut filter, names.as_slice(), matchers);
    proof {
        assert(names@ =~= (if ops@.len() == 1 {
            seq![(1usize, true)]
        } else {
            Seq::empty()
        }));
        assert forall|c: int, i: int|
            0 <= c < NUM_CRITERIA && 0 <= i < matchers@[c].num_paths() implies #[trigger] filter.spec_contains(c, i)
                == pipeline_filter.spec_contains(c, i) by {
            let w = i / (BITS as int);
            let b = (i % (BITS as int)) as u64;
            assert(0 <= w < spec_words(matchers@[c].num_paths() as int));
            lemma_or_zero_bit(pipeline_filter.filter@[c]@[w], b);
        }
    }
    let pipeline = CrtcColorPipeline { crtc, ops, filter: pipeline_filter };
    CrtcColorPipelines { pipelines: vec![pipeline], filter }
}

proof fn lemma_or_zero_bit(x: u64, b: u64)
    by (bit_vector)
    requires
        b < 64,
    ensures
        ((0u64 | x) >> b) & 1 == (x >> b) & 1,
{
}

/// What a gamma LUT blob is made from; equal keys give equal blobs.
#[derive(Copy, Clone, Debug, Hash)]
pub struct GammaLutKey {
    /// The destination description, where the LUT input is scaled for it.
    pub dst: Option<u64>,
    pub eotf: Option<CurveConfig>,
    pub size: usize,
    pub input_is_scaled_for_dst_lut: bool,
    /// The client's gamma LUT, by its id.
    pub client_gamma_lut: Option<[u8; 32]>,
}

/// What a gamma LUT's contents come from.
#[derive(Copy, Clone, Debug, PartialEq, Eq, Structural)]
pub enum LutSource {
    /// The curve, followed by the client's LUT where there is one.
    Curve(CurveConfig),
    /// The client's LUT as it is, which has the LUT's size.
    ClientRaw,
    /// A LUT of the size: the client's LUT resampled, or the identity.
    Sized(usize),
}

/// How a CRTC operation is programmed.
#[derive(Copy, Clone, Debug)]
pub enum CrtcOpProgramming {
    /// The LUT property is cleared.
    ClearLut { crtc: u32, gamma_lut: u32 },
    /// The LUT property is set to the blob made from the key.
    SetLut { crtc: u32, gamma_lut: u32, key: GammaLutKey, source: LutSource },
}

/// How one use of an operation is programmed, with the destination
/// description and the client's gamma LUT (its id and length), if any.
pub open spec fn spec_op_programming(m: ColorOpMatch, dst: u64, client: Option<([u8; 32], usize)>) -> CrtcOpProgramming {
    match m.ty {
        ColorOpMatchType::Bypass { gamma_lut } => CrtcOpProgramming::ClearLut { crtc: m.crtc, gamma_lut },
        ColorOpMatchType::GammaLut { gamma_lut, eotf, size, input_is_scaled_for_dst_lut } => {
            let key = GammaLutKey {
                dst: if input_is_scaled_for_dst_lut { Some(dst) } else { None },
                eotf,
                size,
                input_is_scaled_for_dst_lut,
                client_gamma_lut: match client {
                    Some(c) => Some(c.0),
                    None => None,
                },
            };
            let source = match eotf {
                Some(c) => LutSource::Curve(c),
                None => match client {
                    Some(c) => if c.1 == size {
                        LutSource::ClientRaw
                    } else {
                        LutSource::Sized(size)
                    },
                    None => LutSource::Sized(size),
                },
            };
            CrtcOpProgramming::SetLut { crtc: m.crtc, gamma_lut, key, source }
        },
    }
}

/// How each use of an operation of a match is programmed, in order.
pub fn crtc_programming_plan(matches: &[ColorOpMatch], dst: u64, client: Option<([u8; 32], usize)>) -> (r: Vec<
    CrtcOpProgramming,
>)
    ensures
        r@.len() == matches@.len(),
        forall|i: int| 0 <= i < matches@.len() ==> #[trigger] r@[i] == spec_op_programming(matches@[i], dst, client),
{
    let mut res: Vec<CrtcOpProgramming> = Vec::new();
    let mut i: usize = 0;
    while i < matches.len()
        invariant
            i <= matches@.len(),
            res@.len() == i,
            forall|k: int| 0 <= k < i ==> #[trigger] res@[k] == spec_op_programming(matches@[k], dst, client),
        decreases matches@.len() - i,
    {
        let m = matches[i];
        let p = match m.ty {
            ColorOpMatchType::Bypass { gamma_lut } => CrtcOpProgramming::ClearLut { crtc: m.crtc, gamma_lut },
            ColorOpMatchType::GammaLut { gamma_lut, eotf, size, input_is_scaled_for_dst_lut } => {
                let key = GammaLutKey {
                    dst: if input_is_scaled_for_dst_lut { Some(dst) } else { None },
                    eotf,
                    size,
                    input_is_scaled_for_dst_lut,
                    client_gamma_lut: match client {
                        Some(c) => Some(c.0),
                        None => None,
                    },
                };
                let source = match eotf {
                    Some(c) => LutSource::Curve(c),
                    None => match client {
                        Some(c) => if c.1 == size {
                            LutSource::ClientRaw
                        } else {
                            LutSource::Sized(size)
                        },
                        None => LutSource::Sized(size),
                    },
                };
                CrtcOpProgramming::SetLut { crtc: m.crtc, gamma_lut, key, source }
            },
        };
        res.push(p);
        i += 1;
    }
    res
}

} // verus!
