//! What the compositor is told of a connector: the events it receives and
//! the states they move the connector through, the monitor description sent
//! when a display connects, and the sanitizing of the state a user desired
//! for a display.

use vstd::prelude::*;
use crate::backend::BackendColorSpace;
use crate::backend::BackendConnectorState;
use crate::backend::BackendEotfs;
use crate::backend::Mode;
use super::FrontState;

verus! {

/// The kind of an event sent about a connector.
#[derive(Copy, Clone, Debug, PartialEq, Eq, Structural)]
pub enum ConnectorEventKind {
    /// A display connected; it is a non-desktop display where that is in
    /// effect.
    Connected { non_desktop_effective: bool },
    HardwareCursor,
    State,
    Disconnected,
    Removed,
    Unavailable,
    Available,
    FormatsChanged,
}

/// Whether the connector drives a desktop display.
pub open spec fn spec_is_desktop(s: FrontState) -> bool {
    s == FrontState::Connected { non_desktop: false }
}

/// Whether the event is delivered in the state, and the state afterwards.
/// An event that is not valid in the state is dropped and changes nothing.
pub open spec fn spec_front_transition(s: FrontState, e: ConnectorEventKind) -> (bool, FrontState) {
    match e {
        ConnectorEventKind::Connected { non_desktop_effective } => if s == FrontState::Disconnected {
            (true, FrontState::Connected { non_desktop: non_desktop_effective })
        } else {
            (false, s)
        },
        ConnectorEventKind::HardwareCursor | ConnectorEventKind::State | ConnectorEventKind::FormatsChanged => (
            spec_is_desktop(s),
            s,
        ),
        ConnectorEventKind::Disconnected => if s is Connected || s == FrontState::Unavailable {
            (true, FrontState::Disconnected)
        } else {
            (false, s)
        },
        ConnectorEventKind::Removed => if s == FrontState::Disconnected {
            (true, FrontState::Removed)
        } else {
            (false, s)
        },
        ConnectorEventKind::Unavailable => if s == (FrontState::Connected { non_desktop: true }) {
            (true, FrontState::Unavailable)
        } else {
            (false, s)
        },
        ConnectorEventKind::Available => if s == FrontState::Unavailable {
            (true, FrontState::Connected { non_desktop: true })
        } else {
            (false, s)
        },
    }
}

/// Whether the connector drives a desktop display: only then are its state,
/// its formats and its hardware cursor sent.
pub fn is_desktop(s: FrontState) -> (r: bool)
    ensures
        r == spec_is_desktop(s),
{
    match s {
        FrontState::Connected { non_desktop } => !non_desktop,
        _ => false,
    }
}

/// Sends an event in a state: whether it is delivered, and the state
/// afterwards.
pub fn front_transition(s: FrontState, e: ConnectorEventKind) -> (r: (bool, FrontState))
    ensures
        r == spec_front_transition(s, e),
{
    match e {
        ConnectorEventKind::Connected { non_desktop_effective } => match s {
            FrontState::Disconnected => (true, FrontState::Connected { non_desktop: non_desktop_effective }),
            _ => (false, s),
        },
        ConnectorEventKind::HardwareCursor | ConnectorEventKind::State | ConnectorEventKind::FormatsChanged => (
            is_desktop(s),
            s,
        ),
        ConnectorEventKind::Disconnected => match s {
            FrontState::Connected { .. } | FrontState::Unavailable => (true, FrontState::Disconnected),
            _ => (false, s),
        },
        ConnectorEventKind::Removed => match s {
            FrontState::Disconnected => (true, FrontState::Removed),
            _ => (false, s),
        },
        ConnectorEventKind::Unavailable => match s {
            FrontState::Connected { non_desktop: true } => (true, FrontState::Unavailable),
            _ => (false, s),
        },
        ConnectorEventKind::Available => match s {
            FrontState::Unavailable => (true, FrontState::Connected { non_desktop: true }),
            _ => (false, s),
        },
    }
}

/// The state after a sequence of events.
pub open spec fn spec_front_run(s: FrontState, events: Seq<ConnectorEventKind>) -> FrontState
    decreases events.len(),
{
    if events.len() == 0 {
        s
    } else {
        spec_front_transition(spec_front_run(s, events.drop_last()), events.last()).1
    }
}

/// Proves that a removed connector stays removed and is told nothing more,
/// whatever events follow.
pub proof fn lemma_removed_is_final(events: Seq<ConnectorEventKind>)
    ensures
        spec_front_run(FrontState::Removed, events) == FrontState::Removed,
        forall|e: ConnectorEventKind| !(#[trigger] spec_front_transition(FrontState::Removed, e)).0,
    decreases events.len(),
{
    if events.len() > 0 {
        lemma_removed_is_final(events.drop_last());
    }
}

/// Proves that the compositor learns of a connection only from a
/// disconnected connector, that events for desktops never change the state,
/// and that a delivered disconnect leaves the connector disconnected.
pub proof fn lemma_front_transitions(s: FrontState, e: ConnectorEventKind)
    ensures
        e is Connected && spec_front_transition(s, e).0 ==> s == FrontState::Disconnected,
        (e is HardwareCursor || e is State || e is FormatsChanged) ==> spec_front_transition(s, e).1 == s,
        (e is HardwareCursor || e is State || e is FormatsChanged) && spec_front_transition(s, e).0 ==> spec_is_desktop(
            s,
        ),
        e is Disconnected && spec_front_transition(s, e).0 ==> spec_front_transition(s, e).1 == FrontState::Disconnected,
        !spec_front_transition(s, e).0 ==> spec_front_transition(s, e).1 == s,
{
}

/// A connection is delivered exactly to a disconnected connector, which
/// then drives a display of the kind the event says: a desktop display
/// (told its state, formats and cursor) where non-desktop mode is not in
/// effect, a non-desktop one where it is. A display made available again is
/// a non-desktop one; one made unavailable is unavailable; a removal leaves
/// the connector removed. Each event is delivered exactly in the states
/// where it means something: a disconnect to a connected or unavailable
/// connector, a removal to a disconnected one, unavailability to a
/// non-desktop display, availability to an unavailable one, and state,
/// cursor and format events to a desktop display.
pub proof fn lemma_connection_keeps_display_kind(s: FrontState, non_desktop: bool)
    ensures
        ({
            let r = spec_front_transition(s, (ConnectorEventKind::Connected { non_desktop_effective: non_desktop }));
            &&& r.0 <==> s == FrontState::Disconnected
            &&& r.0 ==> r.1 == (FrontState::Connected { non_desktop })
            &&& r.0 ==> (spec_is_desktop(r.1) <==> !non_desktop)
            &&& r.0 ==> (spec_front_transition(r.1, ConnectorEventKind::State).0 <==> !non_desktop)
        }),
        spec_front_transition(s, ConnectorEventKind::Disconnected).0 <==> (s is Connected || s
            == FrontState::Unavailable),
        spec_front_transition(s, ConnectorEventKind::Removed).0 <==> s == FrontState::Disconnected,
        spec_front_transition(s, ConnectorEventKind::Unavailable).0 <==> s == (FrontState::Connected {
            non_desktop: true,
        }),
        spec_front_transition(s, ConnectorEventKind::Available).0 <==> s == FrontState::Unavailable,
        spec_front_transition(s, ConnectorEventKind::State).0 <==> s == (FrontState::Connected {
            non_desktop: false,
        }),
        spec_front_transition(s, ConnectorEventKind::HardwareCursor).0 <==> s == (FrontState::Connected {
            non_desktop: false,
        }),
        spec_front_transition(s, ConnectorEventKind::FormatsChanged).0 <==> s == (FrontState::Connected {
            non_desktop: false,
        }),
        spec_front_transition(s, ConnectorEventKind::Available).0 ==> spec_front_transition(
            s,
            ConnectorEventKind::Available,
        ).1 == (FrontState::Connected { non_desktop: true }),
        spec_front_transition(s, ConnectorEventKind::Unavailable).0 ==> spec_front_transition(
            s,
            ConnectorEventKind::Unavailable,
        ).1 == FrontState::Unavailable,
        spec_front_transition(s, ConnectorEventKind::Removed).0 ==> spec_front_transition(
            s,
            ConnectorEventKind::Removed,
        ).1 == FrontState::Removed,
{
}

/// The events that tell the compositor that a connector was removed: a
/// disconnect first where it is connected or unavailable.
pub fn removal_events(s: FrontState) -> (r: Vec<ConnectorEventKind>)
    ensures
        r@ == (if s is Connected || s == FrontState::Unavailable {
            seq![ConnectorEventKind::Disconnected, ConnectorEventKind::Removed]
        } else {
            seq![ConnectorEventKind::Removed]
        }),
{
    let mut r: Vec<ConnectorEventKind> = Vec::new();
    match s {
        FrontState::Connected { .. } | FrontState::Unavailable => {
            r.push(ConnectorEventKind::Disconnected);
        },
        _ => {},
    }
    r.push(ConnectorEventKind::Removed);
    r
}

/// Proves that the removal events end with the connector removed, from any
/// state but the removed one.
pub proof fn lemma_removal_events_remove(s: FrontState)
    requires
        s != FrontState::Removed,
    ensures
        spec_front_run(
            s,
            if s is Connected || s == FrontState::Unavailable {
                seq![ConnectorEventKind::Disconnected, ConnectorEventKind::Removed]
            } else {
                seq![ConnectorEventKind::Removed]
            },
        ) == FrontState::Removed,
{
    let e = if s is Connected || s == FrontState::Unavailable {
        seq![ConnectorEventKind::Disconnected, ConnectorEventKind::Removed]
    } else {
        seq![ConnectorEventKind::Removed]
    };
    reveal_with_fuel(spec_front_run, 3);
    if e.len() == 2 {
        assert(e.drop_last() =~= seq![ConnectorEventKind::Disconnected]);
        assert(e.drop_last().drop_last() =~= Seq::<ConnectorEventKind>::empty());
    } else {
        assert(e.drop_last() =~= Seq::<ConnectorEventKind>::empty());
    }
}

/// Whether a connector that the compositor knows as connected or
/// unavailable is disconnected after its display data was read again: it
/// was disabled, or its display switched between desktop and non-desktop
/// (it has a primary plane exactly when it is a desktop); and, unless the
/// connector is leased, when it is no longer connected or another monitor
/// is attached.
pub fn should_disconnect(
    enabled: bool,
    connected: bool,
    has_primary_plane: bool,
    non_desktop_effective: bool,
    leased: bool,
    monitor_changed: bool,
) -> (r: bool)
    ensures
        r == (!enabled || (connected && (!has_primary_plane) != non_desktop_effective) || (!leased && (!connected
            || monitor_changed))),
{
    let mut disconnect = false;
    disconnect = disconnect || !enabled;
    disconnect = disconnect || (connected && (!has_primary_plane != non_desktop_effective));
    if !leased {
        disconnect = disconnect || !connected;
        disconnect = disconnect || monitor_changed;
    }
    disconnect
}

/// The modes sent to the compositor: the connector's modes with runs of
/// equal modes collapsed to one.
pub open spec fn spec_dedup_modes(modes: Seq<Mode>) -> Seq<Mode>
    decreases modes.len(),
{
    if modes.len() == 0 {
        Seq::empty()
    } else {
        let prev = spec_dedup_modes(modes.drop_last());
        if modes.len() >= 2 && modes[modes.len() - 2] == modes.last() {
            prev
        } else {
            prev.push(modes.last())
        }
    }
}

pub fn monitor_modes(modes: &[Mode]) -> (r: Vec<Mode>)
    ensures
        r@ == spec_dedup_modes(modes@),
{
    let mut res: Vec<Mode> = Vec::new();
    let mut prev: Option<Mode> = None;
    let mut i: usize = 0;
    while i < modes.len()
        invariant
            i <= modes@.len(),
            res@ == spec_dedup_modes(modes@.take(i as int)),
            prev == (if i == 0 { None } else { Some(modes@[i - 1]) }),
        decreases modes@.len() - i,
    {
        let m = modes[i];
        proof {
            assert(modes@.take(i + 1).drop_last() =~= modes@.take(i as int));
            assert(modes@.take(i + 1).last() == m);
            if i >= 1 {
                assert(modes@.take(i + 1)[i - 1] == modes@[i - 1]);
            }
        }
        let same = match prev {
            Some(p) => p == m,
            None => false,
        };
        if !same {
            res.push(m);
        }
        prev = Some(m);
        i += 1;
    }
    assert(modes@.take(modes@.len() as int) =~= modes@);
    res
}

/// The EOTFs a display supports besides the default one.
pub fn supported_eotfs(supports_pq: bool) -> (r: Vec<BackendEotfs>)
    ensures
        r@ == (if supports_pq { seq![BackendEotfs::Pq] } else { Seq::empty() }),
{
    let mut r: Vec<BackendEotfs> = Vec::new();
    if supports_pq {
        r.push(BackendEotfs::Pq);
    }
    proof {
        if supports_pq {
            assert(r@ =~= seq![BackendEotfs::Pq]);
        }
    }
    r
}

/// The color spaces a display supports besides the default one.
pub fn supported_color_spaces(supports_bt2020: bool) -> (r: Vec<BackendColorSpace>)
    ensures
        r@ == (if supports_bt2020 { seq![BackendColorSpace::Bt2020] } else { Seq::empty() }),
{
    let mut r: Vec<BackendColorSpace> = Vec::new();
    if supports_bt2020 {
        r.push(BackendColorSpace::Bt2020);
    }
    proof {
        if supports_bt2020 {
            assert(r@ =~= seq![BackendColorSpace::Bt2020]);
        }
    }
    r
}

/// What a display supports, as read from the connector and its EDID.
#[derive(Copy, Clone, Debug, PartialEq, Eq, Structural)]
pub struct DisplayCapabilities {
    pub vrr_capable: bool,
    pub supports_pq: bool,
    pub supports_bt2020: bool,
}

/// The desired state after the display's data was read again: a default
/// mode, or one the display no longer offers, is replaced by its first
/// mode; VRR, the PQ EOTF and the BT.2020 color space are dropped where the
/// display lost them.
pub open spec fn spec_sanitize_state(
    s: BackendConnectorState,
    first_mode: Mode,
    modes: Seq<Mode>,
    caps: DisplayCapabilities,
) -> BackendConnectorState {
    BackendConnectorState {
        mode: if s.mode == (Mode { width: 0, height: 0, refresh_rate_millihz: 0 }) || !modes.contains(s.mode) {
            first_mode
        } else {
            s.mode
        },
        vrr: s.vrr && caps.vrr_capable,
        eotf: if s.eotf == BackendEotfs::Pq && !caps.supports_pq {
            BackendEotfs::Default
        } else {
            s.eotf
        },
        color_space: if s.color_space == BackendColorSpace::Bt2020 && !caps.supports_bt2020 {
            BackendColorSpace::Default
        } else {
            s.color_space
        },
        ..s
    }
}

fn contains_mode(modes: &[Mode], m: Mode) -> (r: bool)
    ensures
        r == modes@.contains(m),
{
    let mut i: usize = 0;
    while i < modes.len()
        invariant
            i <= modes@.len(),
            forall|k: int| 0 <= k < i ==> modes@[k] != m,
        decreases modes@.len() - i,
    {
        if modes[i] == m {
            assert(modes@[i as int] == m);
            return true;
        }
        i += 1;
    }
    false
}

pub fn sanitize_state(
    s: &mut BackendConnectorState,
    first_mode: Mode,
    modes: &[Mode],
    caps: DisplayCapabilities,
)
    ensures
        *final(s) == spec_sanitize_state(*old(s), first_mode, modes@, caps),
{
    let default_mode = Mode { width: 0, height: 0, refresh_rate_millihz: 0 };
    if s.mode == default_mode {
        s.mode = first_mode;
    } else if !contains_mode(modes, s.mode) {
        s.mode = first_mode;
    }
    if !caps.vrr_capable && s.vrr {
        s.vrr = false;
    }
    if s.eotf == BackendEotfs::Pq && !caps.supports_pq {
        s.eotf = BackendEotfs::Default;
    }
    if s.color_space == BackendColorSpace::Bt2020 && !caps.supports_bt2020 {
        s.color_space = BackendColorSpace::Default;
    }
}

/// Sanitizing a desired state twice changes nothing more than once, and
/// leaves a mode the display offers (the default mode where it offers
/// none), when the first mode is the display's first.
pub proof fn lemma_sanitize_state_idempotent(
    s: BackendConnectorState,
    first_mode: Mode,
    modes: Seq<Mode>,
    caps: DisplayCapabilities,
)
    requires
        (modes.len() > 0 && first_mode == modes[0]) || (modes.len() == 0 && first_mode == (Mode {
            width: 0,
            height: 0,
            refresh_rate_millihz: 0,
        })),
    ensures
        ({
            let t = spec_sanitize_state(s, first_mode, modes, caps);
            &&& spec_sanitize_state(t, first_mode, modes, caps) == t
            &&& (modes.len() > 0 ==> modes.contains(t.mode))
        }),
{
    if modes.len() > 0 {
        assert(modes[0] == first_mode);
        assert(modes.contains(first_mode));
    }
}

/// The longest refresh period that VRR may stretch to, in nanoseconds, for
/// the display's lowest refresh rate in hertz; unbounded where it is not
/// known.
pub fn vrr_refresh_max_nsec(min_vrr_hz: u64) -> (r: u64)
    ensures
        r == (if min_vrr_hz > 0 { 1_000_000_000u64 / min_vrr_hz } else { u64::MAX }),
{
    if min_vrr_hz > 0 {
        1_000_000_000 / min_vrr_hz
    } else {
        u64::MAX
    }
}

fn contains_id(v: &[u32], x: u32) -> (r: bool)
    ensures
        r == v@.contains(x),
{
    let mut i: usize = 0;
    while i < v.len()
        invariant
            i <= v@.len(),
            forall|k: int| 0 <= k < i ==> v@[k] != x,
        decreases v@.len() - i,
    {
        if v[i] == x {
            assert(v@[i as int] == x);
            return true;
        }
        i += 1;
    }
    false
}

/// The ids of `a` that are not in `b`, each once, in the order of `a`.
pub fn ids_missing_from(a: &[u32], b: &[u32]) -> (r: Vec<u32>)
    ensures
        forall|x: u32| #[trigger] r@.contains(x) <==> (a@.contains(x) && !b@.contains(x)),
        r@.no_duplicates(),
{
    let mut r: Vec<u32> = Vec::new();
    let mut i: usize = 0;
    while i < a.len()
        invariant
            i <= a@.len(),
            forall|x: u32| #[trigger] r@.contains(x) <==> (a@.take(i as int).contains(x) && !b@.contains(x)),
            r@.no_duplicates(),
        decreases a@.len() - i,
    {
        let x = a[i];
        let ghost before = r@;
        proof {
            assert(a@.take(i + 1) =~= a@.take(i as int).push(x));
        }
        if !contains_id(b, x) && !contains_id(r.as_slice(), x) {
            r.push(x);
            proof {
                assert forall|p: int, q: int| 0 <= p < q < r@.len() implies r@[p] != r@[q] by {
                    if q == r@.len() - 1 {
                        assert(before.contains(r@[p]));
                    }
                }
            }
        }
        proof {
            assert forall|y: u32| #[trigger] r@.contains(y) <==> (a@.take(i + 1).contains(y) && !b@.contains(y)) by {
                let t = a@.take(i as int);
                if r@.contains(y) {
                    let k = choose|k: int| 0 <= k < r@.len() && r@[k] == y;
                    if k < before.len() {
                        assert(before[k] == y);
                        assert(before.contains(y));
                        let q = choose|q: int| 0 <= q < t.len() && t[q] == y;
                        assert(t.push(x)[q] == y);
                    } else {
                        assert(t.push(x)[t.len() as int] == y);
                    }
                }
                if t.push(x).contains(y) && !b@.contains(y) {
                    let q = choose|q: int| 0 <= q < t.push(x).len() && t.push(x)[q] == y;
                    if q < t.len() {
                        assert(t[q] == y);
                        assert(t.contains(y));
                        assert(before.contains(y));
                        let k = choose|k: int| 0 <= k < before.len() && before[k] == y;
                        assert(r@[k] == y);
                    } else {
                        assert(y == x);
                        if !before.contains(y) {
                            assert(r@[r@.len() - 1] == y);
                        } else {
                            let k = choose|k: int| 0 <= k < before.len() && before[k] == y;
                            assert(r@[k] == y);
                        }
                    }
                }
            }
        }
        i += 1;
    }
    assert(a@.take(a@.len() as int) =~= a@);
    r
}

/// The connectors that appeared on a device and those that disappeared:
/// the current ones that are not known, and the known ones that are not
/// current.
pub fn connector_changes(current: &[u32], known: &[u32]) -> (r: (Vec<u32>, Vec<u32>))
    ensures
        forall|x: u32| #[trigger] r.0@.contains(x) <==> (current@.contains(x) && !known@.contains(x)),
        forall|x: u32| #[trigger] r.1@.contains(x) <==> (known@.contains(x) && !current@.contains(x)),
        r.0@.no_duplicates(),
        r.1@.no_duplicates(),
{
    (ids_missing_from(current, known), ids_missing_from(known, current))
}

/// The state after an event, if one is sent.
pub open spec fn spec_after(s: FrontState, e: Option<ConnectorEventKind>) -> FrontState {
    match e {
        Some(e) => spec_front_transition(s, e).1,
        None => s,
    }
}

/// The event a connector is sent when its device is paused: a non-desktop
/// display becomes unavailable, other connectors are told nothing.
pub fn pause_event(s: FrontState) -> (r: Option<ConnectorEventKind>)
    ensures
        r == (if s == (FrontState::Connected { non_desktop: true }) {
            Some(ConnectorEventKind::Unavailable)
        } else {
            None
        }),
{
    match s {
        FrontState::Connected { non_desktop: true } => Some(ConnectorEventKind::Unavailable),
        _ => None,
    }
}

/// The event a connector is sent when its device resumes: an unavailable
/// connector that is not leased becomes available again.
pub fn resume_event(s: FrontState, leased: bool) -> (r: Option<ConnectorEventKind>)
    ensures
        r == (if s == FrontState::Unavailable && !leased {
            Some(ConnectorEventKind::Available)
        } else {
            None
        }),
{
    match s {
        FrontState::Unavailable => if leased {
            None
        } else {
            Some(ConnectorEventKind::Available)
        },
        _ => None,
    }
}

/// Pausing a device and resuming it, with no lease left on the connector,
/// gives every connector the state it had, unless it was unavailable
/// before the pause.
pub proof fn lemma_pause_resume_restores(s: FrontState)
    requires
        s != FrontState::Unavailable,
    ensures
        ({
            let paused = spec_after(s, if s == (FrontState::Connected { non_desktop: true }) {
                Some(ConnectorEventKind::Unavailable)
            } else {
                None
            });
            let resumed = spec_after(paused, if paused == FrontState::Unavailable {
                Some(ConnectorEventKind::Available)
            } else {
                None
            });
            resumed == s
        }),
{
}

} // verus!
