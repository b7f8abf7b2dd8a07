//! Bringing a DRM device up: the first modeset uses every connector's
//! desired state; when it fails, features that are likely to be the cause
//! are given up one at a time (direct scanout, then formats other than
//! XRGB8888, then modes other than each display's first) until a modeset
//! succeeds or nothing is left to give up.

use vstd::prelude::*;
use crate::backend::Mode;
use crate::backends::dummy::XRGB8888;

verus! {

/// A feature that may be given up to bring a device up.
#[derive(Copy, Clone, Debug, PartialEq, Eq, Structural)]
pub enum InitQuirk {
    DirectScanout,
    NonDefaultFormat,
    NonDefaultMode,
}

/// What bringing a device up needs to know of a connector.
#[derive(Copy, Clone, Debug, PartialEq, Eq, Structural)]
pub struct ConnectorInit {
    /// The desired mode and the display's first mode.
    pub mode: Mode,
    pub first_mode: Mode,
    /// The desired format.
    pub format: u32,
    pub direct_scanout_active: bool,
}

/// The features present on the device's connectors, in the order they are
/// given up last to first: modes, formats, direct scanout.
pub open spec fn spec_quirks(cs: Seq<ConnectorInit>) -> Seq<InitQuirk> {
    (if exists|i: int| 0 <= i < cs.len() && (#[trigger] cs[i]).mode != cs[i].first_mode {
        seq![InitQuirk::NonDefaultMode]
    } else {
        Seq::empty()
    }) + (if exists|i: int| 0 <= i < cs.len() && (#[trigger] cs[i]).format != XRGB8888 {
        seq![InitQuirk::NonDefaultFormat]
    } else {
        Seq::empty()
    }) + (if exists|i: int| 0 <= i < cs.len() && (#[trigger] cs[i]).direct_scanout_active {
        seq![InitQuirk::DirectScanout]
    } else {
        Seq::empty()
    })
}

/// The attempts at bringing a device up.
pub struct InitFallback {
    /// The features that may still be given up; the last goes first.
    pub quirks: Vec<InitQuirk>,
    pub disable_non_default_mode: bool,
    pub disable_non_default_format: bool,
    pub disable_direct_scanout: bool,
}

/// The state a connector is set to in an attempt, where it differs from
/// the desired one: the first mode once other modes are given up, XRGB8888
/// once other formats are.
pub open spec fn spec_adjusted(f: InitFallback, c: ConnectorInit) -> Option<(Mode, u32)> {
    let mode = if f.disable_non_default_mode { c.first_mode } else { c.mode };
    let format = if f.disable_non_default_format { XRGB8888 } else { c.format };
    if mode != c.mode || format != c.format {
        Some((mode, format))
    } else {
        None
    }
}

impl InitFallback {
    /// The first attempt: nothing is given up; the features present may be.
    pub fn new(connectors: &[ConnectorInit]) -> (r: Self)
        ensures
            r.quirks@ == spec_quirks(connectors@),
            !r.disable_non_default_mode && !r.disable_non_default_format && !r.disable_direct_scanout,
    {
        let mut mode = false;
        let mut format = false;
        let mut direct = false;
        let mut i: usize = 0;
        while i < connectors.len()
            invariant
                i <= connectors@.len(),
                mode == exists|k: int| 0 <= k < i && (#[trigger] connectors@[k]).mode != connectors@[k].first_mode,
                format == exists|k: int| 0 <= k < i && (#[trigger] connectors@[k]).format != XRGB8888,
                direct == exists|k: int| 0 <= k < i && (#[trigger] connectors@[k]).direct_scanout_active,
            decreases connectors@.len() - i,
        {
            let c = connectors[i];
            if c.mode != c.first_mode {
                mode = true;
            }
            if c.format != XRGB8888 {
                format = true;
            }
            if c.direct_scanout_active {
                direct = true;
            }
            i += 1;
        }
        let mut quirks: Vec<InitQuirk> = Vec::new();
        if mode {
            quirks.push(InitQuirk::NonDefaultMode);
        }
        if format {
            quirks.push(InitQuirk::NonDefaultFormat);
        }
        if direct {
            quirks.push(InitQuirk::DirectScanout);
        }
        let r = InitFallback {
            quirks,
            disable_non_default_mode: false,
            disable_non_default_format: false,
            disable_direct_scanout: false,
        };
        assert(r.quirks@ =~= spec_quirks(connectors@));
        r
    }

    /// The state to request of the connector in this attempt, where it
    /// differs from the desired one.
    pub fn adjusted(&self, c: ConnectorInit) -> (r: Option<(Mode, u32)>)
        ensures
            r == spec_adjusted(*self, c),
    {
        let mode = if self.disable_non_default_mode { c.first_mode } else { c.mode };
        let format = if self.disable_non_default_format { XRGB8888 } else { c.format };
        if mode != c.mode || format != c.format {
            Some((mode, format))
        } else {
            None
        }
    }

    /// An attempt failed: the last feature left is given up and another
    /// attempt is made (`true`); with none left the device cannot be
    /// brought up (`false`, nothing changes).
    pub fn after_failure(&mut self) -> (r: bool)
        ensures
            r == (old(self).quirks@.len() > 0),
            !r ==> *final(self) == *old(self),
            r ==> {
                let q = old(self).quirks@.last();
                &&& final(self).quirks@ == old(self).quirks@.drop_last()
                &&& final(self).disable_direct_scanout == (old(self).disable_direct_scanout || q
                    == InitQuirk::DirectScanout)
                &&& final(self).disable_non_default_format == (old(self).disable_non_default_format || q
                    == InitQuirk::NonDefaultFormat)
                &&& final(self).disable_non_default_mode == (old(self).disable_non_default_mode || q
                    == InitQuirk::NonDefaultMode)
            },
    {
        if self.quirks.len() == 0 {
            return false;
        }
        match self.quirks.pop() {
            None => false,
            Some(q) => {
                match q {
                    InitQuirk::DirectScanout => {
                        self.disable_direct_scanout = true;
                    },
                    InitQuirk::NonDefaultFormat => {
                        self.disable_non_default_format = true;
                    },
                    InitQuirk::NonDefaultMode => {
                        self.disable_non_default_mode = true;
                    },
                }
                true
            },
        }
    }
}

/// The features are given up in the order direct scanout, formats, modes,
/// each at most once: the list holds no feature twice. Once formats and
/// modes are given up, every connector asks for its first mode and
/// XRGB8888.
pub proof fn lemma_quirks_given_up_once(cs: Seq<ConnectorInit>, f: InitFallback, c: ConnectorInit)
    requires
        f.disable_non_default_mode,
        f.disable_non_default_format,
    ensures
        forall|a: int, b: int|
            0 <= a < b < spec_quirks(cs).len() ==> spec_quirks(cs)[a] != spec_quirks(cs)[b],
        spec_adjusted(f, c) matches Some((m, fm)) ==> m == c.first_mode && fm == XRGB8888,
        spec_adjusted(f, c) is None ==> c.mode == c.first_mode && c.format == XRGB8888,
{
    let q = spec_quirks(cs);
    assert forall|a: int, b: int| 0 <= a < b < q.len() implies q[a] != q[b] by {
        let m = exists|i: int| 0 <= i < cs.len() && (#[trigger] cs[i]).mode != cs[i].first_mode;
        let fo = exists|i: int| 0 <= i < cs.len() && (#[trigger] cs[i]).format != XRGB8888;
        let d = exists|i: int| 0 <= i < cs.len() && (#[trigger] cs[i]).direct_scanout_active;
        let s1: Seq<InitQuirk> = if m { seq![InitQuirk::NonDefaultMode] } else { Seq::empty() };
        let s2: Seq<InitQuirk> = if fo { seq![InitQuirk::NonDefaultFormat] } else { Seq::empty() };
        let s3: Seq<InitQuirk> = if d { seq![InitQuirk::DirectScanout] } else { Seq::empty() };
        assert(q == s1 + s2 + s3);
        assert(forall|k: int| 0 <= k < s1.len() ==> s1[k] == InitQuirk::NonDefaultMode);
        assert(forall|k: int| 0 <= k < s2.len() ==> s2[k] == InitQuirk::NonDefaultFormat);
        assert(forall|k: int| 0 <= k < s3.len() ==> s3[k] == InitQuirk::DirectScanout);
    }
}

} // verus!
