use dialkey::search::{
    begin_launch, close_if_open, is_open, item_from_point, list_line, on_destroyed, open,
    pack_point, resolve_selection, search_command, search_layout, select_down, select_up,
    set_window, ChildRect, EditKey, OpenWorkdirTap, SearchCommand, SearchOpen, SearchRuntime,
    VK_DOWN, VK_ESCAPE, VK_RETURN, VK_UP,
};

fn ids(v: &[&str]) -> Vec<String> {
    v.iter().map(|s| s.to_string()).collect()
}

#[test]
fn open_focuses_existing_window() {
    let mut rt = SearchRuntime::new();
    assert!(!is_open(&rt));
    assert_eq!(open(&mut rt), SearchOpen::Create);
    set_window(&mut rt, 500);
    assert!(is_open(&rt));
    assert_eq!(open(&mut rt), SearchOpen::FocusExisting(500));
    assert_eq!(close_if_open(&rt), Some(500));
    on_destroyed(&mut rt);
    assert_eq!(close_if_open(&rt), None);
    assert_eq!(rt.window(), 0);
}

#[test]
fn one_launch_per_window() {
    let mut rt = SearchRuntime::new();
    assert_eq!(open(&mut rt), SearchOpen::Create);
    assert!(begin_launch(&mut rt));
    assert!(!begin_launch(&mut rt));
    // Opening another window allows one more launch.
    assert_eq!(open(&mut rt), SearchOpen::Create);
    assert!(begin_launch(&mut rt));
}

#[test]
fn edit_keys() {
    let mut tap = OpenWorkdirTap::new(0x11);
    assert_eq!(tap.key_down(VK_UP), EditKey::SelectUp);
    assert_eq!(tap.key_down(VK_DOWN), EditKey::SelectDown);
    assert_eq!(tap.key_down(VK_RETURN), EditKey::Launch);
    assert_eq!(tap.key_down(VK_ESCAPE), EditKey::Close);
    assert_eq!(tap.key_down(0x41), EditKey::PassThrough);
}

#[test]
fn open_workdir_tap_alone_fires_once() {
    let mut tap = OpenWorkdirTap::new(0x11);
    assert_eq!(tap.key_down(0x11), EditKey::PassThrough);
    assert!(tap.key_up(0x11));
    assert!(!tap.key_up(0x11));
}

#[test]
fn open_workdir_used_as_modifier_does_not_fire() {
    let mut tap = OpenWorkdirTap::new(0x11);
    tap.key_down(0x11);
    tap.key_down(0x41); // Ctrl+A
    assert!(!tap.key_up(0x41));
    assert!(!tap.key_up(0x11));
}

#[test]
fn selection_moves() {
    assert_eq!(select_up(3), Some(2));
    assert_eq!(select_up(0), None);
    assert_eq!(select_up(-1), None);
    assert_eq!(select_down(-1, 4), Some(0));
    assert_eq!(select_down(2, 4), Some(3));
    assert_eq!(select_down(3, 4), None);
    assert_eq!(select_down(-1, 0), None);
}

#[test]
fn resolve_prefers_exact_query_id() {
    let registered = ids(&["10", "11", "12"]);
    let visible = ids(&["11", "12"]);
    assert_eq!(resolve_selection(" 10 ", &visible, 1, &registered), Some("10".to_string()));
    assert_eq!(resolve_selection("foo", &visible, 1, &registered), Some("12".to_string()));
    assert_eq!(resolve_selection("foo", &visible, -1, &registered), None);
    assert_eq!(resolve_selection("foo", &visible, 5, &registered), None);
    let stale = ids(&["99"]);
    assert_eq!(resolve_selection("foo", &stale, 0, &registered), None);
}

#[test]
fn list_lines() {
    assert_eq!(list_line("12", "Editor", ""), "12  Editor");
    assert_eq!(list_line("12", "Editor", "notes"), "12  Editor — notes");
}

#[test]
fn hit_testing() {
    assert_eq!(pack_point(5, 7), (7u32 << 16) | 5);
    assert_eq!(pack_point(-1, 2), (2u32 << 16) | 0xFFFF);
    assert_eq!(item_from_point(3), Some(3));
    assert_eq!(item_from_point(0x0001_0003), None);
}

#[test]
fn commands() {
    assert_eq!(search_command((0x0300 << 16) | 100), SearchCommand::Refresh);
    assert_eq!(search_command((2 << 16) | 101), SearchCommand::Launch);
    assert_eq!(search_command((2 << 16) | 100), SearchCommand::Ignore);
    assert_eq!(search_command(101), SearchCommand::Ignore);
}

#[test]
fn layout_for_default_client() {
    let l = search_layout(464, 381);
    assert_eq!(l.edit, ChildRect { x: 12, y: 12, w: 440, h: 26 });
    assert_eq!(l.list, ChildRect { x: 12, y: 48, w: 440, h: 297 });
    assert_eq!(l.hint, ChildRect { x: 12, y: 351, w: 440, h: 18 });
}

#[test]
fn layout_keeps_minimum_sizes() {
    let l = search_layout(10, 10);
    assert_eq!(l.edit.w, 40);
    assert_eq!(l.list.h, 40);
    assert_eq!(l.hint.y, 48 + 40 + 6);
}
