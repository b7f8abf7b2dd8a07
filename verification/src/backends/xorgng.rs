//! The rules of the X11 backend: how X button and key codes become input
//! events, how a device's button map is read, and how the two images of an
//! output window take turns being presented.

use vstd::prelude::*;
use crate::backend::ScrollAxis;

verus! {

/// Linux button codes (`BTN_*`).
pub const BTN_LEFT: u32 = 0x110;
pub const BTN_RIGHT: u32 = 0x111;
pub const BTN_MIDDLE: u32 = 0x112;
pub const BTN_SIDE: u32 = 0x113;

/// The size of a new output window.
pub const OUTPUT_WIDTH: i32 = 800;
pub const OUTPUT_HEIGHT: i32 = 600;

/// The distance of one scroll step of a wheel button.
pub const SCROLL_STEP: i32 = 15;

/// What an X button event becomes.
#[derive(Copy, Clone, Debug, PartialEq, Eq, Structural)]
pub enum XButtonAction {
    /// Nothing is sent.
    Ignore,
    /// A scroll by the distance along the axis.
    Scroll(i32, ScrollAxis),
    /// A press or release of the button with the Linux code.
    Button(u32),
}

/// What an X button event becomes: buttons 4 to 7 are the wheel (up, down,
/// left, right) and scroll when pressed; 1, 2 and 3 are the left, middle
/// and right buttons; from 8 on they are the side buttons; 0 is ignored.
pub open spec fn spec_button_action(detail: u32, pressed: bool) -> XButtonAction {
    if 4 <= detail <= 7 {
        if !pressed {
            XButtonAction::Ignore
        } else if detail == 4 {
            XButtonAction::Scroll((-SCROLL_STEP) as i32, ScrollAxis::Vertical)
        } else if detail == 5 {
            XButtonAction::Scroll(SCROLL_STEP, ScrollAxis::Vertical)
        } else if detail == 6 {
            XButtonAction::Scroll((-SCROLL_STEP) as i32, ScrollAxis::Horizontal)
        } else {
            XButtonAction::Scroll(SCROLL_STEP, ScrollAxis::Horizontal)
        }
    } else if detail == 0 {
        XButtonAction::Ignore
    } else if detail == 1 {
        XButtonAction::Button(BTN_LEFT)
    } else if detail == 2 {
        XButtonAction::Button(BTN_MIDDLE)
    } else if detail == 3 {
        XButtonAction::Button(BTN_RIGHT)
    } else {
        XButtonAction::Button((BTN_SIDE + detail - 8) as u32)
    }
}

/// What the X button event with the detail becomes (see
/// `spec_button_action`); the detail must leave the side button's code in
/// range.
pub fn button_action(detail: u32, pressed: bool) -> (r: XButtonAction)
    requires
        detail + BTN_SIDE <= u32::MAX,
    ensures
        r == spec_button_action(detail, pressed),
{
    if 4 <= detail && detail <= 7 {
        if !pressed {
            return XButtonAction::Ignore;
        }
        match detail {
            4 => XButtonAction::Scroll(-SCROLL_STEP, ScrollAxis::Vertical),
            5 => XButtonAction::Scroll(SCROLL_STEP, ScrollAxis::Vertical),
            6 => XButtonAction::Scroll(-SCROLL_STEP, ScrollAxis::Horizontal),
            _ => XButtonAction::Scroll(SCROLL_STEP, ScrollAxis::Horizontal),
        }
    } else {
        match detail {
            0 => XButtonAction::Ignore,
            1 => XButtonAction::Button(BTN_LEFT),
            2 => XButtonAction::Button(BTN_MIDDLE),
            3 => XButtonAction::Button(BTN_RIGHT),
            n => XButtonAction::Button(BTN_SIDE + n - 8),
        }
    }
}

/// The evdev key code of an X key code, which is 8 more.
pub fn key_code(detail: u32) -> (r: u32)
    requires
        detail >= 8,
    ensures
        r == detail - 8,
{
    detail - 8
}

/// The button map read from the server's reply: button `b` maps to the
/// position (counted from 1) of the first entry `b` of the reply.
pub open spec fn spec_button_map_has(map: Seq<u8>, button: u32, position: u32) -> bool {
    exists|i: int|
        0 <= i < map.len() && map[i] == button && position == i + 1 && forall|j: int|
            0 <= j < i ==> map[j] != button
}

/// Whether a pair of the map has the button.
pub open spec fn spec_has_button(r: Seq<(u32, u32)>, button: u32) -> bool {
    exists|k: int| 0 <= k < r.len() && #[trigger] r[k].0 == button
}

/// The button map of a device from the server's reply, as pairs of a
/// button and its position (counted from 1): one pair per button that
/// occurs, with the position of its first occurrence, in the order of
/// first occurrence.
pub fn button_map(map: &[u8]) -> (r: Vec<(u32, u32)>)
    requires
        map@.len() < u32::MAX,
    ensures
        forall|k: int| 0 <= k < r@.len() ==> spec_button_map_has(map@, #[trigger] r@[k].0, r@[k].1),
        forall|i: int| 0 <= i < map@.len() ==> spec_has_button(r@, (#[trigger] map@[i]) as u32),
        forall|a: int, b: int| 0 <= a < b < r@.len() ==> r@[a].0 != r@[b].0,
{
    let mut res: Vec<(u32, u32)> = Vec::new();
    let mut i: usize = 0;
    while i < map.len()
        invariant
            i <= map@.len(),
            map@.len() < u32::MAX,
            forall|k: int| 0 <= k < res@.len() ==> spec_button_map_has(map@, #[trigger] res@[k].0, res@[k].1),
            forall|q: int| 0 <= q < i ==> spec_has_button(res@, (#[trigger] map@[q]) as u32),
            forall|k: int| 0 <= k < res@.len() ==> exists|q: int| 0 <= q < i && #[trigger] res@[k].0 == map@[q] as u32,
            forall|a: int, b: int| 0 <= a < b < res@.len() ==> res@[a].0 != res@[b].0,
        decreases map@.len() - i,
    {
        let b = map[i] as u32;
        let mut k: usize = 0;
        let mut found = false;
        while !found && k < res.len()
            invariant
                k <= res@.len(),
                found ==> k < res@.len() && res@[k as int].0 == b,
                forall|j: int| 0 <= j < k ==> res@[j].0 != b,
            decreases res@.len() - k + (if found { 0int } else { 1int }),
        {
            if res[k].0 == b {
                found = true;
            } else {
                k += 1;
            }
        }
        if !found {
            let ghost before = res@;
            proof {
                assert forall|j: int| 0 <= j < i implies map@[j] != map@[i as int] by {
                    if map@[j] == map@[i as int] {
                        assert(spec_has_button(before, map@[j] as u32));
                        let kk = choose|kk: int| 0 <= kk < before.len() && #[trigger] before[kk].0 == map@[j] as u32;
                        assert(before[kk].0 == b);
                    }
                }
                assert(spec_button_map_has(map@, b, (i + 1) as u32));
            }
            res.push((b, (i + 1) as u32));
            proof {
                assert forall|q: int| 0 <= q < i + 1 implies spec_has_button(res@, (#[trigger] map@[q]) as u32) by {
                    if q < i {
                        assert(spec_has_button(before, map@[q] as u32));
                        let kk = choose|kk: int| 0 <= kk < before.len() && #[trigger] before[kk].0 == map@[q] as u32;
                        assert(res@[kk] == before[kk]);
                    } else {
                        assert(res@[before.len() as int].0 == map@[q] as u32);
                    }
                }
                assert forall|kk: int| 0 <= kk < res@.len() implies exists|q: int|
                    0 <= q < i + 1 && #[trigger] res@[kk].0 == map@[q] as u32 by {
                    if kk < before.len() {
                        assert(res@[kk] == before[kk]);
                    } else {
                        assert(res@[kk].0 == map@[i as int] as u32);
                    }
                }
                assert forall|kk: int| 0 <= kk < res@.len() implies spec_button_map_has(
                    map@,
                    #[trigger] res@[kk].0,
                    res@[kk].1,
                ) by {
                    if kk < before.len() {
                        assert(res@[kk] == before[kk]);
                    }
                }
            }
        } else {
            proof {
                assert(res@[k as int].0 == map@[i as int] as u32);
            }
        }
        i += 1;
    }
    res
}

/// One of the two images of an output window.
#[derive(Copy, Clone, Debug, PartialEq, Eq, Structural)]
pub struct XorgImage {
    /// Whether the server is done with it.
    pub idle: bool,
    /// Whether a frame is to be presented once it is idle.
    pub render_on_idle: bool,
    /// The serial it was last presented with.
    pub last_serial: u32,
}

/// The presentation state of an output window.
pub struct XorgOutputState {
    pub removed: bool,
    pub width: i32,
    pub height: i32,
    /// The serial of the next present.
    pub serial: u32,
    /// The media stream counter a present targets.
    pub next_msc: u64,
    /// The count of presents so far; the image used next is this count
    /// modulo two.
    pub next_image: usize,
    pub images: Vec<XorgImage>,
}

impl XorgOutputState {
    /// There are two images.
    pub open spec fn wf(&self) -> bool {
        self.images@.len() == 2
    }

    /// The index of the image that the next present uses.
    pub open spec fn spec_current(&self) -> int {
        (self.next_image % 2) as int
    }

    /// A new window: both images idle, nothing presented.
    pub fn new() -> (r: Self)
        ensures
            r.wf(),
            !r.removed,
            r.width == 0 && r.height == 0,
            r.serial == 0 && r.next_msc == 0 && r.next_image == 0,
            forall|i: int| 0 <= i < 2 ==> r.images@[i] == (XorgImage { idle: true, render_on_idle: false, last_serial: 0 }),
    {
        let image = XorgImage { idle: true, render_on_idle: false, last_serial: 0 };
        let mut images: Vec<XorgImage> = Vec::new();
        images.push(image);
        images.push(image);
        XorgOutputState { removed: false, width: 0, height: 0, serial: 0, next_msc: 0, next_image: 0, images }
    }

    /// A present completed at the counter `msc`: the next targets the
    /// following one. Whether to present now: the image used next is idle;
    /// else it is presented once it becomes idle.
    pub fn present_complete(&mut self, msc: u64) -> (r: bool)
        requires
            old(self).wf(),
            msc < u64::MAX,
        ensures
            final(self).wf(),
            final(self).next_msc == msc + 1,
            final(self).next_image == old(self).next_image,
            final(self).serial == old(self).serial,
            final(self).removed == old(self).removed,
            r == old(self).images@[old(self).spec_current()].idle,
            final(self).images@ == spec_complete_images(old(self).images@, old(self).spec_current()),
    {
        self.next_msc = msc + 1;
        let idx = self.next_image % 2;
        let image = self.images[idx];
        if image.idle {
            assert(self.images@ =~= spec_complete_images(old(self).images@, idx as int));
            true
        } else {
            self.images.set(idx, XorgImage { render_on_idle: true, ..image });
            assert(self.images@ =~= spec_complete_images(old(self).images@, idx as int));
            false
        }
    }

    /// The server is done with the images presented with the serial: they
    /// become idle. The count returned is the number of presents to make:
    /// one for each of them that was waiting to be presented.
    pub fn present_idle(&mut self, serial: u32) -> (r: usize)
        requires
            old(self).wf(),
        ensures
            final(self).wf(),
            final(self).next_image == old(self).next_image,
            final(self).serial == old(self).serial,
            final(self).next_msc == old(self).next_msc,
            final(self).removed == old(self).removed,
            final(self).images@ == spec_idle_images(old(self).images@, serial),
            r == spec_idle_count(old(self).images@, serial),
    {
        let mut n: usize = 0;
        let mut i: usize = 0;
        while i < 2
            invariant
                i <= 2,
                self.images@.len() == 2,
                self.next_image == old(self).next_image,
                self.serial == old(self).serial,
                self.next_msc == old(self).next_msc,
                self.removed == old(self).removed,
                old(self).images@.len() == 2,
                forall|j: int|
                    0 <= j < 2 ==> #[trigger] self.images@[j] == (if j < i && old(self).images@[j].last_serial
                        == serial {
                        XorgImage { idle: true, render_on_idle: false, ..old(self).images@[j] }
                    } else {
                        old(self).images@[j]
                    }),
                n == (if i >= 1 { spec_waiting(old(self).images@[0], serial) } else { 0 }) + (if i >= 2 {
                    spec_waiting(old(self).images@[1], serial)
                } else {
                    0
                }),
            decreases 2 - i,
        {
            let image = self.images[i];
            if image.last_serial == serial {
                if image.render_on_idle {
                    n += 1;
                }
                self.images.set(i, XorgImage { idle: true, render_on_idle: false, ..image });
            }
            i += 1;
        }
        assert(self.images@ =~= spec_idle_images(old(self).images@, serial));
        n
    }

    /// Starts a present: the image to present and its serial, and both
    /// counters advance; nothing for a removed window.
    pub fn begin_present(&mut self) -> (r: Option<(usize, u32)>)
        requires
            old(self).wf(),
        ensures
            final(self).wf(),
            final(self).images@ == old(self).images@,
            old(self).removed ==> r is None && final(self).next_image == old(self).next_image && final(self).serial
                == old(self).serial,
            !old(self).removed ==> r == Some((old(self).spec_current() as usize, old(self).serial)),
            !old(self).removed ==> final(self).next_image == (if old(self).next_image == usize::MAX {
                0
            } else {
                old(self).next_image + 1
            }),
            !old(self).removed ==> final(self).serial == (if old(self).serial == u32::MAX {
                0
            } else {
                old(self).serial + 1
            }),
    {
        if self.removed {
            return None;
        }
        let idx = self.next_image % 2;
        let serial = self.serial;
        self.next_image = self.next_image.wrapping_add(1);
        self.serial = self.serial.wrapping_add(1);
        Some((idx, serial))
    }

    /// The present of the image with the serial was sent: the server owns
    /// the image now.
    pub fn presented(&mut self, image: usize, serial: u32)
        requires
            old(self).wf(),
            image < 2,
        ensures
            final(self).wf(),
            final(self).images@ == old(self).images@.update(
                image as int,
                XorgImage { idle: false, last_serial: serial, ..old(self).images@[image as int] },
            ),
            final(self).next_image == old(self).next_image,
            final(self).serial == old(self).serial,
    {
        let old_image = self.images[image];
        self.images.set(image, XorgImage { idle: false, last_serial: serial, ..old_image });
    }

    /// The window was resized: whether its size changed.
    pub fn configure(&mut self, width: i32, height: i32) -> (r: bool)
        ensures
            final(self).width == width && final(self).height == height,
            final(self).images@ == old(self).images@,
            r == (old(self).width != width || old(self).height != height),
    {
        let changed = self.width != width || self.height != height;
        self.width = width;
        self.height = height;
        changed
    }
}

/// One when the image presented with the serial waits to be presented
/// again, else zero.
pub open spec fn spec_waiting(image: XorgImage, serial: u32) -> int {
    if image.last_serial == serial && image.render_on_idle {
        1
    } else {
        0
    }
}

/// The images after a completion: the image used next, where busy, waits
/// to be presented once idle.
pub open spec fn spec_complete_images(images: Seq<XorgImage>, current: int) -> Seq<XorgImage> {
    if images[current].idle {
        images
    } else {
        images.update(current, XorgImage { render_on_idle: true, ..images[current] })
    }
}

/// The images after the server is done with those presented with the
/// serial.
pub open spec fn spec_idle_images(images: Seq<XorgImage>, serial: u32) -> Seq<XorgImage> {
    images.map_values(
        |im: XorgImage|
            if im.last_serial == serial {
                XorgImage { idle: true, render_on_idle: false, ..im }
            } else {
                im
            },
    )
}

/// The number of presents an idle event for the serial asks for.
pub open spec fn spec_idle_count(images: Seq<XorgImage>, serial: u32) -> int {
    spec_waiting(images[0], serial) + spec_waiting(images[1], serial)
}

/// A frame deferred because the image was busy is presented once the image
/// is idle: after a completion finds the next image busy, the idle event of
/// that image asks for a present, and the same idle event again asks for
/// none.
pub proof fn lemma_deferred_frame_presented(images: Seq<XorgImage>, current: int, serial: u32)
    requires
        images.len() == 2,
        0 <= current < 2,
        !images[current].idle,
        images[current].last_serial == serial,
    ensures
        spec_idle_count(spec_complete_images(images, current), serial) >= 1,
        spec_idle_count(spec_idle_images(spec_complete_images(images, current), serial), serial) == 0,
{
    let c = spec_complete_images(images, current);
    assert(c[current].render_on_idle);
    let d = spec_idle_images(c, serial);
    assert(!d[0].render_on_idle || d[0].last_serial != serial);
    assert(!d[1].render_on_idle || d[1].last_serial != serial);
}

/// Consecutive presents use the two images in turn.
pub proof fn lemma_presents_alternate(next_image: usize)
    requires
        next_image < usize::MAX,
    ensures
        ((next_image + 1) % 2) != (next_image % 2),
{
}

} // verus!
