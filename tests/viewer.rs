use simptui::viewer::{scroll_offset_after, ScrollKey};

#[test]
fn scroll_up_stops_at_top() {
    assert_eq!(scroll_offset_after(3, 10, ScrollKey::Up), 2);
    assert_eq!(scroll_offset_after(0, 10, ScrollKey::Up), 0);
}

#[test]
fn scroll_down_stops_at_last_line() {
    assert_eq!(scroll_offset_after(3, 10, ScrollKey::Down), 4);
    assert_eq!(scroll_offset_after(9, 10, ScrollKey::Down), 9);
    assert_eq!(scroll_offset_after(0, 0, ScrollKey::Down), 0);
}

#[test]
fn page_keys_move_five_lines_within_bounds() {
    assert_eq!(scroll_offset_after(7, 20, ScrollKey::PageUp), 2);
    assert_eq!(scroll_offset_after(3, 20, ScrollKey::PageUp), 0);
    assert_eq!(scroll_offset_after(2, 20, ScrollKey::PageDown), 7);
    assert_eq!(scroll_offset_after(16, 20, ScrollKey::PageDown), 19);
    assert_eq!(scroll_offset_after(30, 20, ScrollKey::PageDown), 19);
    assert_eq!(scroll_offset_after(u16::MAX, u16::MAX, ScrollKey::PageDown), u16::MAX - 1);
}
