//! The banner over the board after a multi-line clear: "DOUBLE", "TRIPLE"
//! or "FETRIS", shown for a fixed number of ticks.

use vstd::prelude::*;

verus! {

/// Ticks a banner stays up after it appears.
pub const OVERLAY_LIFETIME: u32 = 45;

/// Which banner is up.
#[derive(Debug, Clone, Copy, PartialEq, Eq, Structural)]
pub enum OverlayKind {
    Double,
    Triple,
    Fetris,
}

/// The banner of a clear of `count` lines: none for a single.
pub open spec fn spec_overlay_for_clear(count: u32) -> Option<OverlayKind> {
    if count == 2 {
        Some(OverlayKind::Double)
    } else if count == 3 {
        Some(OverlayKind::Triple)
    } else if count == 4 {
        Some(OverlayKind::Fetris)
    } else {
        None
    }
}

/// The banner for a clear of `count` lines, if any.
pub fn overlay_for_clear(count: u32) -> (k: Option<OverlayKind>)
    ensures
        k == spec_overlay_for_clear(count),
{
    match count {
        2 => Some(OverlayKind::Double),
        3 => Some(OverlayKind::Triple),
        4 => Some(OverlayKind::Fetris),
        _ => None,
    }
}

/// The banner's text.
pub fn overlay_label(kind: OverlayKind) -> (s: &'static str)
    ensures
        s@ == (match kind {
            OverlayKind::Double => seq!['D', 'O', 'U', 'B', 'L', 'E'],
            OverlayKind::Triple => seq!['T', 'R', 'I', 'P', 'L', 'E'],
            OverlayKind::Fetris => seq!['F', 'E', 'T', 'R', 'I', 'S'],
        }),
{
    proof {
        reveal_strlit("DOUBLE");
        reveal_strlit("TRIPLE");
        reveal_strlit("FETRIS");
    }
    match kind {
        OverlayKind::Double => "DOUBLE",
        OverlayKind::Triple => "TRIPLE",
        OverlayKind::Fetris => "FETRIS",
    }
}

/// The banner's text colour: red for a fetris, white otherwise.
pub fn overlay_text_rgba(kind: OverlayKind) -> (c: (u8, u8, u8, u8))
    ensures
        c == (if kind == OverlayKind::Fetris {
            (255u8, 60u8, 60u8, 255u8)
        } else {
            (255u8, 255u8, 255u8, 255u8)
        }),
{
    match kind {
        OverlayKind::Fetris => (255, 60, 60, 255),
        _ => (255, 255, 255, 255),
    }
}

/// A banner on screen and the ticks it has left.
#[derive(Debug, Clone, Copy, PartialEq, Eq, Structural)]
pub struct LineClearOverlay {
    pub ticks_left: u32,
    pub kind: OverlayKind,
}

impl LineClearOverlay {
    /// The banner that a clear of `count` lines puts up, at full lifetime.
    pub fn for_clear(count: u32) -> (o: Option<LineClearOverlay>)
        ensures
            match spec_overlay_for_clear(count) {
                Some(k) => o == Some(LineClearOverlay { ticks_left: OVERLAY_LIFETIME, kind: k }),
                None => o is None,
            },
    {
        match overlay_for_clear(count) {
            Some(kind) => Some(LineClearOverlay { ticks_left: OVERLAY_LIFETIME, kind }),
            None => None,
        }
    }

    /// One tick: the banner counts down and comes down once it has no
    /// ticks left. Returns whether it stays up.
    pub fn tick(&mut self) -> (stays: bool)
        ensures
            stays == (old(self).ticks_left > 0),
            stays ==> final(self).ticks_left == old(self).ticks_left - 1,
            final(self).kind == old(self).kind,
    {
        if self.ticks_left == 0 {
            false
        } else {
            self.ticks_left = self.ticks_left - 1;
            true
        }
    }
}

} // verus!
