use win_context_menu::menu::{
    build_menu_items, classify_selection, clipboard_insertions, command_menu_item,
    command_verb_offset, forwards_menu_message, is_separator_type, owner_window, menu_verb_offset,
    query_flags, selected_command, selected_paste, MenuInsertion, RawMenuEntry, Selection,
    ID_PASTE_INJECTED,
};
use win_context_menu::menu_items::{CommandInvocation, InvokeVerb, Invoker};
use win_context_menu::{InvokeParams, MenuItem, SelectedItem};

fn wide(s: &str) -> Vec<u16> {
    s.encode_utf16().collect()
}

fn verb_buf(s: &str) -> Vec<u8> {
    let mut b = vec![0u8; 256];
    b[..s.len()].copy_from_slice(s.as_bytes());
    b
}

fn entry(id: u32, label: &str, verb: Option<&str>) -> RawMenuEntry {
    RawMenuEntry {
        item_type: 0,
        state: 0,
        id,
        label: wide(label),
        verb: verb.map(verb_buf),
        submenu: None,
    }
}

#[test]
fn query_flags_values() {
    assert_eq!(query_flags(false, false), 4);
    assert_eq!(query_flags(false, true), 0x104);
    assert_eq!(query_flags(true, false), 0);
    assert_eq!(query_flags(true, true), 0x100);
}

#[test]
fn verb_offsets() {
    assert_eq!(menu_verb_offset(0), None);
    assert_eq!(menu_verb_offset(1), Some(0));
    assert_eq!(menu_verb_offset(0x7FFF), Some(0x7FFE));
    assert_eq!(menu_verb_offset(0x8000), None);
    assert_eq!(command_verb_offset(0), None);
    assert_eq!(command_verb_offset(0x9000), Some(0x8FFF));
}

#[test]
fn separator_item_fields() {
    let s = MenuItem::separator();
    assert_eq!(s.id, 0);
    assert_eq!(s.label, "");
    assert!(s.is_separator && !s.is_disabled && !s.is_checked && !s.is_default);
    assert!(s.command_string.is_none() && s.submenu.is_none());
    assert!(is_separator_type(0x800));
    assert!(is_separator_type(0x900));
    assert!(!is_separator_type(0));
}

#[test]
fn build_menu_items_walks_entries() {
    let mut sep = entry(42, "ignored", Some("ignored"));
    sep.item_type = 0x800;
    let mut open = entry(5, "&Open", Some("open"));
    open.state = 0x1000;
    let mut disabled = entry(6, "Cu&t", None);
    disabled.state = 0x3 | 0x8;
    let outside = entry(0x9000, "Paste", Some("paste"));
    let mut parent = entry(7, "Send &to", None);
    parent.submenu = Some(vec![entry(8, "&Desktop", Some("desktop")), sep_entry()]);
    let raws = vec![open, sep, disabled, outside, parent];

    let items = build_menu_items(&raws);
    assert_eq!(items.len(), 5);

    assert_eq!(items[0].id, 5);
    assert_eq!(items[0].label, "Open");
    assert_eq!(items[0].command_string.as_deref(), Some("open"));
    assert!(items[0].is_default && !items[0].is_disabled && !items[0].is_checked);

    assert_eq!(items[1], MenuItem::separator());

    assert_eq!(items[2].label, "Cut");
    assert!(items[2].is_disabled && items[2].is_checked && !items[2].is_default);
    assert_eq!(items[2].command_string, None);

    // Ids outside the handler range never get a verb.
    assert_eq!(items[3].command_string, None);

    let sub = items[4].submenu.as_ref().unwrap();
    assert_eq!(sub.len(), 2);
    assert_eq!(sub[0].label, "Desktop");
    assert_eq!(sub[0].command_string.as_deref(), Some("desktop"));
    assert!(sub[1].is_separator);
    assert_eq!(items[4].label, "Send to");
}

fn sep_entry() -> RawMenuEntry {
    let mut e = entry(0, "", None);
    e.item_type = 0x800;
    e
}

#[test]
fn build_menu_items_empty_verb_is_none() {
    let items = build_menu_items(&vec![entry(3, "X", Some(""))]);
    assert_eq!(items[0].command_string, None);
}

#[test]
fn build_menu_items_empty_menu() {
    assert!(build_menu_items(&vec![]).is_empty());
}

#[test]
fn disabled_needs_both_bits() {
    let mut e = entry(3, "X", None);
    e.state = 0x1;
    let items = build_menu_items(&vec![e]);
    assert!(!items[0].is_disabled);
}

#[test]
fn classify_selection_cases() {
    assert_eq!(classify_selection(0), Selection::Dismissed);
    assert_eq!(classify_selection(0x8000), Selection::Paste);
    assert_eq!(classify_selection(17), Selection::Command(17));
    assert_eq!(classify_selection(-1), Selection::Command(u32::MAX));
}

#[test]
fn paste_selection() {
    let sel = selected_paste(1234);
    assert_eq!(sel.command_id(), ID_PASTE_INJECTED);
    let item = sel.menu_item();
    assert_eq!(item.id, 0x8000);
    assert_eq!(item.label, "Paste");
    assert_eq!(item.command_string.as_deref(), Some("paste"));
    let inv = sel.execute().unwrap();
    assert_eq!(inv.hwnd, 1234);
    assert_eq!(inv.show_cmd, 1);
    assert_eq!(inv.directory, None);
    assert_eq!(inv.mask, 0x4000);
    assert_eq!(
        inv.verb,
        InvokeVerb::Named { ansi: b"paste\0".to_vec(), wide: to_w("paste") }
    );
}

fn to_w(s: &str) -> Vec<u16> {
    let mut v = wide(s);
    v.push(0);
    v
}

#[test]
fn paste_selection_ignores_params() {
    let params = InvokeParams { directory: Some("C:\\Temp".to_string()), show_cmd: Some(0) };
    let inv = selected_paste(9).execute_with(params).unwrap();
    assert_eq!(inv.show_cmd, 1);
    assert_eq!(inv.directory, None);
}

#[test]
fn command_selection_invokes_by_offset() {
    let item = command_menu_item(12, 0x8, &wide("&Delete"), &Some(verb_buf("delete")));
    assert_eq!(item.label, "Delete");
    assert_eq!(item.command_string.as_deref(), Some("delete"));
    assert!(item.is_checked);
    let sel = selected_command(item, 12, 77);
    assert_eq!(sel.command_id(), 12);
    assert_eq!(sel.menu_item().id, 12);
    let inv = sel.execute().unwrap();
    assert_eq!(
        inv,
        CommandInvocation { mask: 0x4000, hwnd: 77, verb: InvokeVerb::Offset(11), show_cmd: 1, directory: None }
    );
}

#[test]
fn command_selection_with_params() {
    let item = command_menu_item(3, 0, &wide("Open"), &None);
    assert_eq!(item.command_string, None);
    let sel = selected_command(item, 3, 5);
    let params = InvokeParams { directory: Some("C:\\Temp".to_string()), show_cmd: Some(0) };
    let inv = sel.execute_with(params).unwrap();
    assert_eq!(inv.verb, InvokeVerb::Offset(2));
    assert_eq!(inv.show_cmd, 0);
    assert_eq!(inv.directory, Some(to_w("C:\\Temp")));
}

#[test]
fn execute_equals_execute_with_defaults() {
    let a = selected_command(command_menu_item(9, 0, &wide("A"), &None), 9, 1).execute();
    let b = selected_command(command_menu_item(9, 0, &wide("A"), &None), 9, 1)
        .execute_with(InvokeParams::default());
    assert_eq!(a, b);
}

#[test]
fn selection_without_command_invokes_nothing() {
    let item = command_menu_item(4, 0, &wide("Four"), &None);
    let sel = SelectedItem::new(item.clone(), 4, None);
    assert_eq!(sel.menu_item().id, sel.command_id());
    assert!(sel.execute().is_none());
    let sel = SelectedItem::new(item.clone(), 4, None);
    assert!(sel.execute_with(InvokeParams::default()).is_none());
    let sel = SelectedItem::new(item, 4, Some(Invoker::ByOffset { offset: 3, hwnd: 0 }));
    assert_eq!(sel.execute().unwrap().verb, InvokeVerb::Offset(3));
}

#[test]
fn clipboard_insertion_entries() {
    assert!(clipboard_insertions(true, false).is_empty());
    assert!(clipboard_insertions(false, true).is_empty());
    assert!(clipboard_insertions(false, false).is_empty());
    let ins = clipboard_insertions(true, true);
    assert_eq!(ins.len(), 2);
    assert_eq!(
        ins[0],
        MenuInsertion::Command { position: 0, id: 0x8000, label: to_w("貼り付け(V)") }
    );
    assert_eq!(ins[1], MenuInsertion::Separator { position: 1 });
}

#[test]
fn owner_window_choice() {
    assert_eq!(owner_window(Some(7), 3), 7);
    assert_eq!(owner_window(None, 3), 3);
}

#[test]
fn forwarded_messages() {
    assert!(forwards_menu_message(0x117));
    assert!(forwards_menu_message(0x2B));
    assert!(forwards_menu_message(0x2C));
    assert!(!forwards_menu_message(0x0F));
}

#[test]
fn display_text_of_items() {
    assert_eq!(MenuItem::separator().display_text(), "---separator---");
    let item = command_menu_item(3, 0, &wide("Open"), &Some(verb_buf("open")));
    assert_eq!(item.display_text(), "Open [open]");
    let item = command_menu_item(3, 0, &wide("Open"), &None);
    assert_eq!(item.display_text(), "Open");
}

#[test]
fn cloned_menu_tree_is_equal() {
    let mut parent = entry(7, "Send &to", None);
    parent.submenu = Some(vec![entry(8, "&Desktop", Some("desktop")), sep_entry()]);
    let items = build_menu_items(&vec![parent, entry(2, "Copy", Some("copy"))]);
    let copy: Vec<MenuItem> = items.iter().map(|m| m.clone()).collect();
    assert_eq!(copy, items);
}

#[test]
fn listed_item_equals_selected_item() {
    let mut raw = entry(21, "&Rename", Some("rename"));
    raw.state = 0x1000;
    let listed = build_menu_items(&vec![entry(21, "&Rename", Some("rename"))]);
    let selected = command_menu_item(21, 0, &wide("&Rename"), &Some(verb_buf("rename")));
    assert_eq!(listed[0], selected);
    let listed = build_menu_items(&vec![raw]);
    let selected = command_menu_item(21, 0x1000, &wide("&Rename"), &Some(verb_buf("rename")));
    assert_eq!(listed[0], selected);
}

#[test]
fn menu_ids_come_back_as_their_selection() {
    assert_eq!(classify_selection(1), Selection::Command(1));
    assert_eq!(classify_selection(0x7FFF), Selection::Command(0x7FFF));
    assert_eq!(classify_selection(ID_PASTE_INJECTED as i32), Selection::Paste);
    assert_eq!(command_verb_offset(0x7FFF), Some(0x7FFE));
}

#[test]
fn negative_menu_count_has_no_entries() {
    assert_eq!(win_context_menu::menu::entry_count(-1), 0);
    assert_eq!(win_context_menu::menu::entry_count(0), 0);
    assert_eq!(win_context_menu::menu::entry_count(12), 12);
}
