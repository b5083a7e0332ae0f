//! The horizontal viewport of a single-line field: how far the text is
//! scrolled to keep the caret in sight.
//!
//! All lengths are whole numbers of one layout unit, whatever the host's
//! layout measures in; the rule compares and adds lengths and nothing else.

use vstd::prelude::*;

verus! {

/// The offset that follows from one layout pass.
///
/// Four cases, tried in this order:
/// the content is narrower than the viewport less the padding, and nothing
/// is scrolled; the caret lies past the right edge, and the offset grows to
/// bring the caret a padding's width inside it; the caret lies before the
/// left edge, and the offset becomes the caret's position; otherwise the
/// offset stays.
pub open spec fn scroll_offset(
    caret_x: int,
    viewport_width: int,
    content_width: int,
    current_offset: int,
    padding: int,
) -> int {
    if content_width < viewport_width - padding {
        0
    } else if caret_x > viewport_width + current_offset - padding {
        caret_x - viewport_width + padding
    } else if caret_x < current_offset {
        caret_x
    } else {
        current_offset
    }
}

/// The scroll offset never becomes negative, whatever the layout reports.
pub proof fn lemma_scroll_offset_nonnegative(
    caret_x: int,
    viewport_width: int,
    content_width: int,
    current_offset: int,
    padding: int,
)
    requires
        0 <= caret_x,
        0 <= current_offset,
    ensures
        0 <= scroll_offset(caret_x, viewport_width, content_width, current_offset, padding),
{
}

/// Content that fits in the viewport is never scrolled, wherever the caret
/// is and whatever the offset was.
pub proof fn lemma_scroll_offset_fits(
    caret_x: int,
    viewport_width: int,
    content_width: int,
    current_offset: int,
    padding: int,
)
    requires
        content_width < viewport_width - padding,
    ensures
        scroll_offset(caret_x, viewport_width, content_width, current_offset, padding) == 0,
{
}

/// Once the offset has been computed for a caret, computing it again for the
/// same layout changes nothing.
pub proof fn lemma_scroll_offset_settles(
    caret_x: int,
    viewport_width: int,
    content_width: int,
    current_offset: int,
    padding: int,
)
    requires
        0 <= padding <= viewport_width,
    ensures
        ({
            let once = scroll_offset(
                caret_x,
                viewport_width,
                content_width,
                current_offset,
                padding,
            );
            scroll_offset(caret_x, viewport_width, content_width, once, padding) == once
        }),
{
}

/// After the offset has been computed, the caret lies inside the viewport:
/// not before its left edge, and not past its right edge less the padding.
pub proof fn lemma_scroll_offset_shows_caret(
    caret_x: int,
    viewport_width: int,
    content_width: int,
    current_offset: int,
    padding: int,
)
    requires
        0 <= padding <= viewport_width,
        0 <= caret_x <= content_width,
        content_width >= viewport_width - padding,
    ensures
        ({
            let offset = scroll_offset(
                caret_x,
                viewport_width,
                content_width,
                current_offset,
                padding,
            );
            offset <= caret_x <= viewport_width + offset - padding
        }),
{
}

/// The horizontal scroll state of a field: one offset, carried from one
/// layout pass into the next.
#[derive(Clone, Copy, Debug, PartialEq, Eq, Structural)]
pub struct ScrollPort {
    offset: u64,
}

impl ScrollPort {
    /// The current offset.
    pub closed spec fn view(&self) -> int {
        self.offset as int
    }

    /// A viewport that is not scrolled.
    pub fn new() -> (port: ScrollPort)
        ensures
            port@ == 0,
    {
        ScrollPort { offset: 0 }
    }

    /// The current offset.
    pub fn offset(&self) -> (offset: u64)
        ensures
            offset == self@,
    {
        self.offset
    }

    /// The offset for a layout, given the offset before it.
    pub fn compute(
        caret_x: u32,
        viewport_width: u32,
        content_width: u32,
        current_offset: u64,
        padding: u32,
    ) -> (new_offset: u64)
        ensures
            new_offset == scroll_offset(
                caret_x as int,
                viewport_width as int,
                content_width as int,
                current_offset as int,
                padding as int,
            ),
    {
        let caret: u64 = caret_x as u64;
        let viewport: u64 = viewport_width as u64;
        let content: u64 = content_width as u64;
        let pad: u64 = padding as u64;
        if content + pad < viewport {
            0
        } else if current_offset <= caret + pad && caret + pad - current_offset > viewport {
            caret + pad - viewport
        } else if caret < current_offset {
            caret
        } else {
            current_offset
        }
    }

    /// Brings the offset up to date with a layout.
    pub fn update(&mut self, caret_x: u32, viewport_width: u32, content_width: u32, padding: u32)
        ensures
            final(self)@ == scroll_offset(
                caret_x as int,
                viewport_width as int,
                content_width as int,
                old(self)@,
                padding as int,
            ),
    {
        self.offset = ScrollPort::compute(
            caret_x,
            viewport_width,
            content_width,
            self.offset,
            padding,
        );
    }
}

} // verus!
