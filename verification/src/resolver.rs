//! The point resolver: maps a screen coordinate to the topmost eligible
//! window beneath it.
//!
//! The windowing system enumerates top-level windows front to back; that
//! order is taken as authoritative. For each window the driver gathers a
//! snapshot of what the system reports — visibility, extended style bits,
//! compositor cloak state, bounding rectangle, and the hit-test probe at the
//! queried point — and the decisions here pick the first window that is
//! eligible, contains the point, and is not click-through at that pixel.

use vstd::prelude::*;
use crate::geometry::ScreenPoint;
use crate::geometry::spec_point_in_rect;
use crate::geometry::ScreenRect;

verus! {

/// Extended style bit that marks a floating tool window; such windows are
/// never hide targets.
pub const WS_EX_TOOLWINDOW: u32 = 0x80;
/// Cloak state: not cloaked at all.
pub const DWM_NOT_CLOAKED: u32 = 0;
/// Cloak state the compositor reports for an ordinary application window
/// that is on screen; treated as not cloaked.
pub const DWM_NORMAL_APP_NOT_CLOAKED: u32 = 8;

/// Hit-test probe result: the probe itself failed.
pub const HTERROR: i32 = -2;
/// Hit-test probe result: no UI element occupies the pixel.
pub const HTNOWHERE: i32 = 0;
/// Hit-test probe result: the pixel is transparent to the pointer.
pub const HTTRANSPARENT: i32 = -1;

/// What the windowing system reports about one top-level window for one
/// resolution query. A query that failed reports nothing for its field, and
/// the window is then ineligible or cannot contain the point.
#[derive(Clone, Copy, Debug)]
pub struct WindowSnapshot {
    /// The window's handle value.
    pub handle: u64,
    /// The window is currently visible.
    pub visible: bool,
    /// Extended style bits, or nothing when the window-info query failed.
    pub ex_style: Option<u32>,
    /// Compositor cloak state, or nothing when the attribute query failed.
    pub cloak_state: Option<u32>,
    /// Bounding rectangle in screen coordinates, or nothing when the rect
    /// query failed.
    pub rect: Option<ScreenRect>,
    /// What the hit-test probe at the queried point reported.
    pub hit_test: i32,
}

/// A window may be a hide target only when it is visible, its style could
/// be read and carries no tool-window bit, and the compositor reports one of
/// the two states treated as "not cloaked".
pub open spec fn spec_is_possible_target(w: WindowSnapshot) -> bool {
    &&& w.visible
    &&& w.ex_style matches Some(s) && s & WS_EX_TOOLWINDOW == 0
    &&& w.cloak_state matches Some(c) && (c == DWM_NOT_CLOAKED || c == DWM_NORMAL_APP_NOT_CLOAKED)
}

/// Eligibility filter applied to each enumerated window before any
/// geometric test.
pub fn is_possible_target_window(w: &WindowSnapshot) -> (b: bool)
    ensures
        b == spec_is_possible_target(*w),
{
    if !w.visible {
        return false;
    }
    let style = match w.ex_style {
        Some(s) => s,
        None => {
            return false;
        },
    };
    if style & WS_EX_TOOLWINDOW != 0 {
        return false;
    }
    match w.cloak_state {
        Some(c) => c == DWM_NOT_CLOAKED || c == DWM_NORMAL_APP_NOT_CLOAKED,
        None => false,
    }
}

/// A probe result that means "no element, transparent, or error": the
/// window is click-through at that pixel and enumeration continues.
pub open spec fn spec_probe_click_through(code: i32) -> bool {
    code == HTERROR || code == HTNOWHERE || code == HTTRANSPARENT
}

/// Whether a hit-test probe result makes the window click-through at the
/// probed pixel.
pub fn probe_is_click_through(code: i32) -> (b: bool)
    ensures
        b == spec_probe_click_through(code),
{
    code == HTERROR || code == HTNOWHERE || code == HTTRANSPARENT
}

/// The point lies in the window's bounding rectangle; a window whose
/// rectangle could not be read contains no point.
pub open spec fn spec_point_in_window_rect(w: WindowSnapshot, p: ScreenPoint) -> bool {
    w.rect matches Some(r) && spec_point_in_rect(r, p)
}

/// The full per-window decision: eligible, bounding rectangle known and
/// containing the point, and not click-through at that pixel.
pub open spec fn spec_matches_point(w: WindowSnapshot, p: ScreenPoint) -> bool {
    &&& spec_is_possible_target(w)
    &&& spec_point_in_window_rect(w, p)
    &&& !spec_probe_click_through(w.hit_test)
}

/// Decides whether one enumerated window is the match at a point; a `true`
/// stops the enumeration.
pub fn matches_point(w: &WindowSnapshot, p: &ScreenPoint) -> (b: bool)
    ensures
        b == spec_matches_point(*w, *p),
{
    if !is_possible_target_window(w) {
        return false;
    }
    let r = match w.rect {
        Some(r) => r,
        None => {
            return false;
        },
    };
    if !crate::geometry::point_in_rect(&r, p) {
        return false;
    }
    !probe_is_click_through(w.hit_test)
}

/// The packed coordinate word the hit-test probe carries: the low half in
/// the low 16 bits, the high half above it.
pub open spec fn spec_make_dword(lo: u16, hi: u16) -> u32 {
    (lo as u32 & 0xffff) | ((hi as u32 & 0xffff) << 16)
}

/// Pack two 16-bit halves into one 32-bit word, low half first.
pub fn make_dword(lo: u16, hi: u16) -> (r: u32)
    ensures
        r == spec_make_dword(lo, hi),
        r == lo as u32 + hi as u32 * 0x10000,
{
    proof {
        let l: u32 = lo as u32;
        let h: u32 = hi as u32;
        assert((l & 0xffff) | ((h & 0xffff) << 16) == l + h * 0x10000) by (bit_vector)
            requires
                l < 0x10000,
                h < 0x10000,
        ;
    }
    ((lo as u32) & 0xffff) | (((hi as u32) & 0xffff) << 16)
}

/// The packed coordinates as the signed message parameter the probe takes;
/// the value is the same word, never negative.
pub fn make_lparam(lo: u16, hi: u16) -> (r: i64)
    ensures
        r == spec_make_dword(lo, hi),
        0 <= r < 0x1_0000_0000,
{
    make_dword(lo, hi) as i64
}

/// The handle of the first window, in front-to-back order, that matches the
/// point; nothing when none does.
pub open spec fn spec_first_match(ws: Seq<WindowSnapshot>, p: ScreenPoint) -> Option<u64>
    decreases ws.len(),
{
    if ws.len() == 0 {
        None
    } else if spec_matches_point(ws[0], p) {
        Some(ws[0].handle)
    } else {
        spec_first_match(ws.drop_first(), p)
    }
}

/// Resolve a screen point against the enumerated windows, given front to
/// back: the first match wins and enumeration stops there; no match is a
/// valid outcome, not an error.
pub fn find_target_window_from_point(windows: &Vec<WindowSnapshot>, pt: &ScreenPoint) -> (r: Option<
    u64,
>)
    ensures
        r == spec_first_match(windows@, *pt),
{
    let mut i: usize = 0;
    proof {
        assert(windows@.skip(0) =~= windows@);
    }
    while i < windows.len()
        invariant
            0 <= i <= windows@.len(),
            spec_first_match(windows@.skip(i as int), *pt) == spec_first_match(windows@, *pt),
        decreases windows@.len() - i,
    {
        proof {
            assert(windows@.skip(i as int)[0] == windows@[i as int]);
            assert(windows@.skip(i as int).drop_first() =~= windows@.skip(i + 1));
        }
        if matches_point(&windows[i], pt) {
            return Some(windows[i].handle);
        }
        i = i + 1;
    }
    proof {
        assert(windows@.skip(windows@.len() as int).len() == 0);
    }
    None
}

/// A point outside every window's bounding rectangle — also counting
/// windows whose rectangle could not be read — resolves to nothing.
pub proof fn lemma_point_outside_all(ws: Seq<WindowSnapshot>, p: ScreenPoint)
    requires
        forall|i: int| 0 <= i < ws.len() ==> !spec_point_in_window_rect(ws[i], p),
    ensures
        spec_first_match(ws, p) is None,
    decreases ws.len(),
{
    if ws.len() > 0 {
        assert(!spec_point_in_window_rect(ws[0], p));
        assert(forall|i: int|
            0 <= i < ws.drop_first().len() ==> ws.drop_first()[i] == ws[i + 1]
                && !spec_point_in_window_rect(ws.drop_first()[i], p));
        lemma_point_outside_all(ws.drop_first(), p);
    }
}

/// Whatever the z-order, the resolver never returns a window with the
/// tool-window style bit set, a cloaked window, or an invisible window: a
/// returned handle belongs to a window that passed the whole filter and
/// contains the point.
pub proof fn lemma_result_is_eligible(ws: Seq<WindowSnapshot>, p: ScreenPoint, h: u64)
    requires
        spec_first_match(ws, p) == Some(h),
    ensures
        exists|i: int|
            {
                &&& 0 <= i < ws.len()
                &&& ws[i].handle == h
                &&& spec_matches_point(ws[i], p)
                &&& ws[i].visible
                &&& ws[i].ex_style matches Some(s) && s & WS_EX_TOOLWINDOW == 0
                &&& ws[i].cloak_state matches Some(c) && (c == DWM_NOT_CLOAKED || c
                    == DWM_NORMAL_APP_NOT_CLOAKED)
            },
    decreases ws.len(),
{
    if spec_matches_point(ws[0], p) {
        assert(0 <= 0 < ws.len() && ws[0].handle == h && spec_matches_point(ws[0], p));
    } else {
        lemma_result_is_eligible(ws.drop_first(), p, h);
        let j = choose|j: int|
            {
                &&& 0 <= j < ws.drop_first().len()
                &&& ws.drop_first()[j].handle == h
                &&& spec_matches_point(ws.drop_first()[j], p)
                &&& ws.drop_first()[j].visible
                &&& ws.drop_first()[j].ex_style matches Some(s) && s & WS_EX_TOOLWINDOW == 0
                &&& ws.drop_first()[j].cloak_state matches Some(c) && (c == DWM_NOT_CLOAKED || c
                    == DWM_NORMAL_APP_NOT_CLOAKED)
            };
        assert(ws[j + 1] == ws.drop_first()[j]);
    }
}

/// Among stacked windows covering the same point, the frontmost one whose
/// probe does not report click-through wins: if every window in front of
/// index `i` fails the decision and the window at `i` passes it, the
/// resolver returns exactly that window's handle.
pub proof fn lemma_frontmost_match_wins(ws: Seq<WindowSnapshot>, p: ScreenPoint, i: int)
    requires
        0 <= i < ws.len(),
        spec_matches_point(ws[i], p),
        forall|j: int| 0 <= j < i ==> !spec_matches_point(ws[j], p),
    ensures
        spec_first_match(ws, p) == Some(ws[i].handle),
    decreases ws.len(),
{
    if i == 0 {
    } else {
        assert(!spec_matches_point(ws[0], p));
        assert(ws.drop_first()[i - 1] == ws[i]);
        assert(forall|j: int|
            0 <= j < i - 1 ==> ws.drop_first()[j] == ws[j + 1] && !spec_matches_point(
                ws.drop_first()[j],
                p,
            ));
        lemma_frontmost_match_wins(ws.drop_first(), p, i - 1);
    }
}

} // verus!
