//! Choosing what a DRM lease hands out: for each connector asked for, an
//! unused CRTC that can drive it and an unused primary plane of that CRTC,
//! never one object twice.

use vstd::prelude::*;
use super::FrontState;
use super::PlaneType;

verus! {

/// A CRTC of the device, as far as leasing is concerned.
#[derive(Clone, Debug)]
pub struct LeaseCrtc {
    pub id: u32,
    /// Whether a connector of the compositor drives it.
    pub has_connector: bool,
    /// Whether it is part of a lease.
    pub leased: bool,
    /// The planes (by index) that can show on it, in the order they are
    /// tried.
    pub possible_planes: Vec<usize>,
}

/// A plane of the device, as far as leasing is concerned.
#[derive(Copy, Clone, Debug)]
pub struct LeasePlane {
    pub id: u32,
    /// Whether a CRTC of the compositor uses it.
    pub assigned: bool,
    /// Whether it is part of a lease.
    pub leased: bool,
    pub ty: PlaneType,
}

/// Why a lease cannot be created.
#[derive(Copy, Clone, Debug, PartialEq, Eq, Structural)]
pub enum LeaseError {
    /// The connector does not drive a non-desktop display.
    InvalidState(FrontState),
    AlreadyLeased,
    NoUnusedCrtc,
    NoUnusedPlane,
}

/// Whether a connector in the state, with the lease it is part of, may be
/// leased: only a connected non-desktop display may; the lease it is still
/// part of is returned, to be revoked first where that is allowed.
pub fn lease_check(front: FrontState, lease: Option<u64>) -> (r: Result<Option<u64>, LeaseError>)
    ensures
        front == (FrontState::Connected { non_desktop: true }) ==> r == Ok::<Option<u64>, LeaseError>(lease),
        front != (FrontState::Connected { non_desktop: true }) ==> r == Err::<Option<u64>, LeaseError>(
            LeaseError::InvalidState(front),
        ),
{
    match front {
        FrontState::Connected { non_desktop: true } => Ok(lease),
        _ => Err(LeaseError::InvalidState(front)),
    }
}

/// The objects chosen for a lease so far.
#[derive(Clone, Debug)]
pub struct LeasePlan {
    /// The CRTCs (by index), one per connector, in the order the
    /// connectors were added.
    pub crtcs: Vec<usize>,
    /// The planes (by index), one per connector.
    pub planes: Vec<usize>,
    /// The object ids handed to the kernel: for each connector its own id,
    /// then that of its CRTC and of its plane.
    pub ids: Vec<u32>,
}

/// Whether the CRTC is free for a lease.
pub open spec fn spec_crtc_free(c: LeaseCrtc) -> bool {
    !c.has_connector && !c.leased
}

/// Whether the plane is free for a lease and a primary plane.
pub open spec fn spec_plane_free(p: LeasePlane) -> bool {
    !p.assigned && !p.leased && p.ty == PlaneType::Primary
}

impl LeasePlan {
    /// A plan that leases nothing yet.
    pub fn new() -> (r: Self)
        ensures
            r.crtcs@.len() == 0,
            r.planes@.len() == 0,
            r.ids@.len() == 0,
    {
        LeasePlan { crtcs: Vec::new(), planes: Vec::new(), ids: Vec::new() }
    }

    /// Whether the plan takes, for every connector, a free CRTC and a free
    /// primary plane of it, no CRTC and no plane twice, and lists their ids.
    pub open spec fn wf(&self, crtcs: Seq<LeaseCrtc>, planes: Seq<LeasePlane>) -> bool {
        &&& self.planes@.len() == self.crtcs@.len()
        &&& self.ids@.len() == 3 * self.crtcs@.len()
        &&& forall|k: int|
            0 <= k < self.crtcs@.len() ==> {
                let c = #[trigger] self.crtcs@[k];
                let p = self.planes@[k];
                &&& c < crtcs.len()
                &&& p < planes.len()
                &&& spec_crtc_free(crtcs[c as int])
                &&& spec_plane_free(planes[p as int])
                &&& crtcs[c as int].possible_planes@.contains(p)
                &&& self.ids@[3 * k + 1] == crtcs[c as int].id
                &&& self.ids@[3 * k + 2] == planes[p as int].id
            }
        &&& forall|a: int, b: int|
            0 <= a < b < self.crtcs@.len() ==> self.crtcs@[a] != self.crtcs@[b] && self.planes@[a]
                != self.planes@[b]
    }

    /// Whether the CRTC may be taken next.
    pub open spec fn spec_crtc_ok(&self, crtcs: Seq<LeaseCrtc>, c: usize) -> bool {
        c < crtcs.len() && spec_crtc_free(crtcs[c as int]) && !self.crtcs@.contains(c)
    }

    /// Whether the plane may be taken next.
    pub open spec fn spec_plane_ok(&self, planes: Seq<LeasePlane>, p: usize) -> bool {
        p < planes.len() && spec_plane_free(planes[p as int]) && !self.planes@.contains(p)
    }

    fn crtc_ok(&self, crtcs: &[LeaseCrtc], c: usize) -> (r: bool)
        ensures
            r == self.spec_crtc_ok(crtcs@, c),
    {
        if c >= crtcs.len() || crtcs[c].has_connector || crtcs[c].leased {
            return false;
        }
        !contains_index(&self.crtcs, c)
    }

    fn plane_ok(&self, planes: &[LeasePlane], p: usize) -> (r: bool)
        ensures
            r == self.spec_plane_ok(planes@, p),
    {
        if p >= planes.len() || planes[p].assigned || planes[p].leased {
            return false;
        }
        match planes[p].ty {
            PlaneType::Primary => {},
            _ => {
                return false;
            },
        }
        !contains_index(&self.planes, p)
    }

    /// Whether candidate `k` is the first of the candidates that is free
    /// and not taken yet.
    pub open spec fn spec_first_free_crtc_at(&self, crtcs: Seq<LeaseCrtc>, candidates: Seq<usize>, k: int) -> bool {
        &&& 0 <= k < candidates.len()
        &&& self.spec_crtc_ok(crtcs, candidates[k])
        &&& forall|j: int| 0 <= j < k ==> !self.spec_crtc_ok(crtcs, #[trigger] candidates[j])
    }

    /// Adds a connector to the lease: the first of its CRTCs (`candidates`,
    /// by index) that is free and not taken yet, and the first plane of
    /// that CRTC that is free, primary and not taken yet. A connector that
    /// is part of a lease is refused; on an error the plan is unchanged.
    #[verifier::spinoff_prover]
    #[verifier::rlimit(30)]
    pub fn add_connector(
        &mut self,
        connector_id: u32,
        leased: bool,
        candidates: &[usize],
        crtcs: &[LeaseCrtc],
        planes: &[LeasePlane],
    ) -> (r: Result<(), LeaseError>)
        requires
            old(self).wf(crtcs@, planes@),
        ensures
            final(self).wf(crtcs@, planes@),
            leased ==> r == Err::<(), LeaseError>(LeaseError::AlreadyLeased),
            !leased && (forall|j: int| 0 <= j < candidates@.len() ==> !old(self).spec_crtc_ok(crtcs@, #[trigger] candidates@[j]))
                ==> r == Err::<(), LeaseError>(LeaseError::NoUnusedCrtc),
            r == Err::<(), LeaseError>(LeaseError::NoUnusedCrtc) ==> forall|j: int|
                0 <= j < candidates@.len() ==> !old(self).spec_crtc_ok(crtcs@, #[trigger] candidates@[j]),
            r is Err ==> *final(self) == *old(self),
            r is Ok ==> {
                let n = old(self).crtcs@.len();
                let c = final(self).crtcs@[n as int];
                let p = final(self).planes@[n as int];
                &&& !leased
                &&& final(self).crtcs@ == old(self).crtcs@.push(c)
                &&& final(self).planes@ == old(self).planes@.push(p)
                &&& final(self).ids@ == old(self).ids@.push(connector_id).push(crtcs@[c as int].id).push(
                    planes@[p as int].id,
                )
                &&& exists|k: int|
                    0 <= k < candidates@.len() && candidates@[k] == c && (forall|j: int|
                        0 <= j < k ==> !old(self).spec_crtc_ok(crtcs@, #[trigger] candidates@[j]))
                &&& old(self).spec_crtc_ok(crtcs@, c)
                &&& exists|k: int|
                    0 <= k < crtcs@[c as int].possible_planes@.len() && crtcs@[c as int].possible_planes@[k]
                        == p && (forall|j: int|
                        0 <= j < k ==> !old(self).spec_plane_ok(
                            planes@,
                            #[trigger] crtcs@[c as int].possible_planes@[j],
                        ))
                &&& old(self).spec_plane_ok(planes@, p)
            },
            (r == Err::<(), LeaseError>(LeaseError::AlreadyLeased)) == leased,
            (r == Err::<(), LeaseError>(LeaseError::NoUnusedCrtc)) == (!leased && forall|j: int|
                0 <= j < candidates@.len() ==> !old(self).spec_crtc_ok(crtcs@, #[trigger] candidates@[j])),
            (r == Err::<(), LeaseError>(LeaseError::NoUnusedPlane)) == (!leased && exists|k: int|
                old(self).spec_first_free_crtc_at(crtcs@, candidates@, k) && forall|j: int|
                    0 <= j < crtcs@[candidates@[k] as int].possible_planes@.len() ==> !old(self).spec_plane_ok(
                        planes@,
                        #[trigger] crtcs@[candidates@[k] as int].possible_planes@[j],
                    )),
            r is Ok == (!leased && exists|k: int|
                old(self).spec_first_free_crtc_at(crtcs@, candidates@, k) && exists|j: int|
                    0 <= j < crtcs@[candidates@[k] as int].possible_planes@.len() && old(self).spec_plane_ok(
                        planes@,
                        #[trigger] crtcs@[candidates@[k] as int].possible_planes@[j],
                    )),
    {
        if leased {
            return Err(LeaseError::AlreadyLeased);
        }
        let mut k: usize = 0;
        let mut crtc: Option<usize> = None;
        while crtc.is_none() && k < candidates.len()
            invariant
                k <= candidates@.len(),
                forall|j: int| 0 <= j < k ==> !self.spec_crtc_ok(crtcs@, #[trigger] candidates@[j]),
                crtc matches Some(c) ==> k < candidates@.len() && candidates@[k as int] == c && self.spec_crtc_ok(
                    crtcs@,
                    c,
                ),
            decreases candidates@.len() - k + (if crtc is None { 1int } else { 0int }),
        {
            if self.crtc_ok(crtcs, candidates[k]) {
                crtc = Some(candidates[k]);
            } else {
                k += 1;
            }
        }
        let c = match crtc {
            Some(c) => c,
            None => {
                return Err(LeaseError::NoUnusedCrtc);
            },
        };
        assert(candidates@.contains(c)) by {
            assert(candidates@[k as int] == c);
        }
        let pp = &crtcs[c].possible_planes;
        let mut q: usize = 0;
        let mut plane: Option<usize> = None;
        while plane.is_none() && q < pp.len()
            invariant
                q <= pp@.len(),
                forall|j: int| 0 <= j < q ==> !self.spec_plane_ok(planes@, #[trigger] pp@[j]),
                plane matches Some(p) ==> q < pp@.len() && pp@[q as int] == p && self.spec_plane_ok(planes@, p),
            decreases pp@.len() - q + (if plane is None { 1int } else { 0int }),
        {
            if self.plane_ok(planes, pp[q]) {
                plane = Some(pp[q]);
            } else {
                q += 1;
            }
        }
        let p = match plane {
            Some(p) => p,
            None => {
                proof {
                    assert(self.spec_first_free_crtc_at(crtcs@, candidates@, k as int));
                    assert forall|k2: int| self.spec_first_free_crtc_at(crtcs@, candidates@, k2) implies k2 == k by {
                        if k2 < k {
                            assert(!self.spec_crtc_ok(crtcs@, candidates@[k2]));
                        } else if k2 > k {
                            assert(!self.spec_crtc_ok(crtcs@, candidates@[k as int]));
                        }
                    }
                }
                return Err(LeaseError::NoUnusedPlane);
            },
        };
        let ghost before = *self;
        proof {
            assert(self.spec_first_free_crtc_at(crtcs@, candidates@, k as int));
            assert(self.spec_plane_ok(planes@, crtcs@[candidates@[k as int] as int].possible_planes@[q as int]));
            assert forall|k2: int| self.spec_first_free_crtc_at(crtcs@, candidates@, k2) implies k2 == k by {
                if k2 < k {
                    assert(!self.spec_crtc_ok(crtcs@, candidates@[k2]));
                } else if k2 > k {
                    assert(!self.spec_crtc_ok(crtcs@, candidates@[k as int]));
                }
            }
        }
        self.crtcs.push(c);
        self.planes.push(p);
        self.ids.push(connector_id);
        self.ids.push(crtcs[c].id);
        self.ids.push(planes[p].id);
        proof {
            let n = before.crtcs@.len() as int;
            assert(pp@[q as int] == p);
            assert(crtcs@[c as int].possible_planes@.contains(p));
            assert(candidates@[k as int] == c && forall|j: int|
                0 <= j < k ==> !before.spec_crtc_ok(crtcs@, #[trigger] candidates@[j]));
            assert(crtcs@[c as int].possible_planes@[q as int] == p && forall|j: int|
                0 <= j < q ==> !before.spec_plane_ok(planes@, #[trigger] crtcs@[c as int].possible_planes@[j]));
            assert forall|a: int, b: int| 0 <= a < b < self.crtcs@.len() implies self.crtcs@[a]
                != self.crtcs@[b] && self.planes@[a] != self.planes@[b] by {
                if b == n {
                    assert(before.crtcs@[a] == self.crtcs@[a]);
                    assert(before.crtcs@.contains(self.crtcs@[a]));
                    assert(before.planes@.contains(self.planes@[a]));
                } else {
                    assert(before.crtcs@[a] != before.crtcs@[b]);
                    assert(before.planes@[a] != before.planes@[b]);
                }
            }
            assert forall|j: int| 0 <= j < self.crtcs@.len() implies {
                let c2 = #[trigger] self.crtcs@[j];
                let p2 = self.planes@[j];
                &&& c2 < crtcs@.len()
                &&& p2 < planes@.len()
                &&& spec_crtc_free(crtcs@[c2 as int])
                &&& spec_plane_free(planes@[p2 as int])
                &&& crtcs@[c2 as int].possible_planes@.contains(p2)
                &&& self.ids@[3 * j + 1] == crtcs@[c2 as int].id
                &&& self.ids@[3 * j + 2] == planes@[p2 as int].id
            } by {
                if j < n {
                    assert(before.crtcs@[j] == self.crtcs@[j]);
                    assert(before.ids@[3 * j + 1] == self.ids@[3 * j + 1]);
                    assert(before.ids@[3 * j + 2] == self.ids@[3 * j + 2]);
                }
            }
        }
        Ok(())
    }
}

fn contains_index(v: &Vec<usize>, x: usize) -> (r: bool)
    ensures
        r == v@.contains(x),
{
    let mut i: usize = 0;
    while i < v.len()
        invariant
            i <= v@.len(),
            forall|k: int| 0 <= k < i ==> v@[k] != x,
        decreases v@.len() - i,
    {
        if v[i] == x {
            assert(v@[i as int] == x);
            return true;
        }
        i += 1;
    }
    false
}

/// The plan holds only free objects and none twice, after any sequence of
/// connectors was added to it.
pub proof fn lemma_lease_plan_objects_distinct(
    plan: LeasePlan,
    crtcs: Seq<LeaseCrtc>,
    planes: Seq<LeasePlane>,
    a: int,
    b: int,
)
    requires
        plan.wf(crtcs, planes),
        0 <= a < plan.crtcs@.len(),
        0 <= b < plan.crtcs@.len(),
        a != b,
    ensures
        plan.crtcs@[a] != plan.crtcs@[b],
        plan.planes@[a] != plan.planes@[b],
        spec_crtc_free(crtcs[plan.crtcs@[a] as int]),
        spec_plane_free(planes[plan.planes@[a] as int]),
{
    if a > b {
        assert(plan.crtcs@[b] != plan.crtcs@[a]);
    }
}

} // verus!
