//! Two-axis scroll state for one large rendered block of text.
//!
//! The viewport tracks a vertical and a horizontal offset, each clamped
//! between zero and a bound that is recomputed from the content and the
//! visible area before every draw.

use vstd::prelude::*;

verus! {

/// Scroll offsets and their bounds for a scrollable detail block.
///
/// Well-formed states keep `vertical <= max_vertical` and
/// `horizontal <= max_horizontal`; every operation preserves this.
#[derive(Clone, Copy, Debug, PartialEq, Eq)]
pub struct ViewportState {
    pub vertical: usize,
    pub horizontal: usize,
    pub max_vertical: usize,
    pub max_horizontal: usize,
}

/// The state after one step up: back one line, stopping at the top.
pub open spec fn stepped_up(pre: ViewportState) -> ViewportState {
    ViewportState {
        vertical: if pre.vertical == 0 {
            0usize
        } else {
            (pre.vertical - 1) as usize
        },
        ..pre
    }
}

/// The state after one step down: forward one line, stopping at the bound.
pub open spec fn stepped_down(pre: ViewportState) -> ViewportState {
    ViewportState {
        vertical: if pre.vertical == pre.max_vertical {
            pre.vertical
        } else {
            (pre.vertical + 1) as usize
        },
        ..pre
    }
}

/// The state after one step left: back one column, stopping at the start.
pub open spec fn stepped_left(pre: ViewportState) -> ViewportState {
    ViewportState {
        horizontal: if pre.horizontal == 0 {
            0usize
        } else {
            (pre.horizontal - 1) as usize
        },
        ..pre
    }
}

/// The state after one step right: forward one column, stopping at the
/// bound.
pub open spec fn stepped_right(pre: ViewportState) -> ViewportState {
    ViewportState {
        horizontal: if pre.horizontal == pre.max_horizontal {
            pre.horizontal
        } else {
            (pre.horizontal + 1) as usize
        },
        ..pre
    }
}

impl ViewportState {
    /// Both offsets lie inside their bounds.
    pub open spec fn wf(&self) -> bool {
        self.vertical <= self.max_vertical && self.horizontal <= self.max_horizontal
    }

    /// A fresh viewport scrolled to the origin with empty bounds.
    pub fn new() -> (r: ViewportState)
        ensures
            r.vertical == 0,
            r.horizontal == 0,
            r.max_vertical == 0,
            r.max_horizontal == 0,
            r.wf(),
    {
        ViewportState { vertical: 0, horizontal: 0, max_vertical: 0, max_horizontal: 0 }
    }

    /// Move one line up, stopping at the top.
    pub fn scroll_up(&mut self)
        requires
            old(self).wf(),
        ensures
            *final(self) == stepped_up(*old(self)),
            final(self).wf(),
    {
        if self.vertical != 0 {
            self.vertical = self.vertical - 1;
        }
    }

    /// Move one line down, stopping at the bottom bound.
    pub fn scroll_down(&mut self)
        requires
            old(self).wf(),
        ensures
            *final(self) == stepped_down(*old(self)),
            final(self).wf(),
    {
        if self.vertical != self.max_vertical {
            self.vertical = self.vertical + 1;
        }
    }

    /// Move one column left, stopping at the start.
    pub fn scroll_left(&mut self)
        requires
            old(self).wf(),
        ensures
            *final(self) == stepped_left(*old(self)),
            final(self).wf(),
    {
        if self.horizontal != 0 {
            self.horizontal = self.horizontal - 1;
        }
    }

    /// Move one column right, stopping at the right bound.
    pub fn scroll_right(&mut self)
        requires
            old(self).wf(),
        ensures
            *final(self) == stepped_right(*old(self)),
            final(self).wf(),
    {
        if self.horizontal != self.max_horizontal {
            self.horizontal = self.horizontal + 1;
        }
    }

    /// Jump to the leftmost column.
    pub fn scroll_to_start(&mut self)
        ensures
            *final(self) == (ViewportState { horizontal: 0, ..*old(self) }),
    {
        self.horizontal = 0;
    }

    /// Jump to the rightmost column.
    pub fn scroll_to_end(&mut self)
        ensures
            *final(self) == (ViewportState { horizontal: old(self).max_horizontal, ..*old(self) }),
    {
        self.horizontal = self.max_horizontal;
    }

    /// Jump to the first line.
    pub fn scroll_to_top(&mut self)
        ensures
            *final(self) == (ViewportState { vertical: 0, ..*old(self) }),
    {
        self.vertical = 0;
    }

    /// Jump to the last line.
    pub fn scroll_to_bottom(&mut self)
        ensures
            *final(self) == (ViewportState { vertical: old(self).max_vertical, ..*old(self) }),
    {
        self.vertical = self.max_vertical;
    }

    /// Recompute both bounds from the current content and visible area,
    /// then clamp both offsets into the new bounds.
    ///
    /// The vertical bound is the number of content lines that do not fit in
    /// the viewport height; the horizontal bound is the number of columns of
    /// the longest line that do not fit in the viewport width. Clamping keeps
    /// the state well-formed even when the content shrank since the offsets
    /// were set.
    pub fn recompute_bounds(
        &mut self,
        content_lines: usize,
        longest_line: usize,
        viewport_height: usize,
        viewport_width: usize,
    )
        ensures
            final(self).max_vertical == if content_lines >= viewport_height {
                content_lines - viewport_height
            } else {
                0int
            },
            final(self).max_horizontal == if longest_line >= viewport_width {
                longest_line - viewport_width
            } else {
                0int
            },
            final(self).vertical == if old(self).vertical <= final(self).max_vertical {
                old(self).vertical as int
            } else {
                final(self).max_vertical as int
            },
            final(self).horizontal == if old(self).horizontal <= final(self).max_horizontal {
                old(self).horizontal as int
            } else {
                final(self).max_horizontal as int
            },
            final(self).wf(),
    {
        self.max_vertical = if content_lines >= viewport_height {
            content_lines - viewport_height
        } else {
            0
        };
        self.max_horizontal = if longest_line >= viewport_width {
            longest_line - viewport_width
        } else {
            0
        };
        if self.vertical > self.max_vertical {
            self.vertical = self.max_vertical;
        }
        if self.horizontal > self.max_horizontal {
            self.horizontal = self.max_horizontal;
        }
    }
}

} // verus!
