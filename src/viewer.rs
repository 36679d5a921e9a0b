//! Scrolling in the content viewer: where the first shown line moves on a key.
use vstd::prelude::*;

verus! {

/// The keys that scroll the content pane.
#[derive(Debug, Clone, Copy, PartialEq, Eq, Structural)]
pub enum ScrollKey {
    Up,
    Down,
    PageUp,
    PageDown,
}

/// How many lines a page key moves.
pub const PAGE_LINES: u16 = 5;

/// The last line that may be shown first: one before the content height, or 0.
pub open spec fn last_offset(content_height: u16) -> int {
    if content_height == 0 {
        0
    } else {
        content_height - 1
    }
}

/// The offset after `key`: one line or a page up (never above the top), one
/// line or a page down (never past the last line). A single-line move down
/// from beyond the last line stays where it is.
pub open spec fn scrolled(offset: u16, content_height: u16, key: ScrollKey) -> int {
    match key {
        ScrollKey::Up => if offset > 0 {
            offset - 1
        } else {
            0
        },
        ScrollKey::Down => if offset < last_offset(content_height) {
            offset + 1
        } else {
            offset as int
        },
        ScrollKey::PageUp => if offset >= PAGE_LINES {
            offset - PAGE_LINES
        } else {
            0
        },
        ScrollKey::PageDown => if offset + PAGE_LINES <= last_offset(content_height) {
            offset + PAGE_LINES
        } else {
            last_offset(content_height)
        },
    }
}

/// The scroll offset after `key`, for content of `content_height` lines.
pub fn scroll_offset_after(offset: u16, content_height: u16, key: ScrollKey) -> (r: u16)
    ensures
        r == scrolled(offset, content_height, key),
{
    let last = content_height.saturating_sub(1);
    match key {
        ScrollKey::Up => offset.saturating_sub(1),
        ScrollKey::Down => if offset < last {
            offset + 1
        } else {
            offset
        },
        ScrollKey::PageUp => offset.saturating_sub(PAGE_LINES),
        ScrollKey::PageDown => if offset < last && last - offset >= PAGE_LINES {
            offset + PAGE_LINES
        } else {
            last
        },
    }
}

} // verus!
