//! The decisions of a shown or enumerated shell context menu: query flags,
//! command-id ranges, how raw menu entries become [`MenuItem`]s, how a popup
//! selection is classified, the injected "Paste" entry, and which window
//! messages are forwarded to the shell handlers.

use vstd::prelude::*;
use crate::menu_items::{is_separator_item, Invoker, MenuItem, SelectedItem};
use crate::text::{
    clean_label, lemma_clean_label_drops_only_markers, menu_label, no_nul_char, other_than,
    ACCELERATOR_MARKER, opt_bytes_view, opt_string_view, verb_from_answer, verb_text,
};
use crate::wide::{decode_utf16_lossy, encode_utf16, to_wide_nul};

verus! {

/// First command ID passed to `QueryContextMenu`. IDs in the range
/// `[ID_FIRST, ID_LAST]` belong to our menu.
pub const ID_FIRST: u32 = 1;

/// Last command ID.
pub const ID_LAST: u32 = 0x7FFF;

/// Command ID of the injected "Paste" item on background menus.
pub const ID_PASTE_INJECTED: u32 = 0x8000;

/// `CMF_NORMAL`.
pub const CMF_NORMAL: u32 = 0;

/// `CMF_EXPLORE`: the menu is shown for items of an Explorer view.
pub const CMF_EXPLORE: u32 = 4;

/// `CMF_EXTENDEDVERBS`: include the verbs normally shown with Shift held.
pub const CMF_EXTENDEDVERBS: u32 = 0x100;

/// `MFT_SEPARATOR` bit of a menu item type.
pub const MFT_SEPARATOR: u32 = 0x800;

/// `MFS_DISABLED` bits of a menu item state.
pub const MFS_DISABLED: u32 = 0x3;

/// `MFS_CHECKED` bit of a menu item state.
pub const MFS_CHECKED: u32 = 0x8;

/// `MFS_DEFAULT` bit of a menu item state.
pub const MFS_DEFAULT: u32 = 0x1000;

/// `WM_DRAWITEM`.
pub const WM_DRAWITEM: u32 = 0x2B;

/// `WM_MEASUREITEM`.
pub const WM_MEASUREITEM: u32 = 0x2C;

/// `WM_INITMENUPOPUP`.
pub const WM_INITMENUPOPUP: u32 = 0x117;

/// The `QueryContextMenu` flags of a menu: explore mode for item menus,
/// extended verbs on request.
pub open spec fn spec_query_flags(is_background: bool, extended: bool) -> u32 {
    ((if is_background {
        CMF_NORMAL
    } else {
        CMF_EXPLORE
    }) + (if extended {
        CMF_EXTENDEDVERBS
    } else {
        0
    })) as u32
}

/// The flags passed to `IContextMenu::QueryContextMenu`.
pub fn query_flags(is_background: bool, extended: bool) -> (res: u32)
    ensures
        res == spec_query_flags(is_background, extended),
{
    let mut flags = CMF_NORMAL;
    if !is_background {
        flags = flags | CMF_EXPLORE;
    }
    if extended {
        flags = flags | CMF_EXTENDEDVERBS;
    }
    assert(0u32 | 4u32 == 4u32 && 0u32 | 0x100u32 == 0x100u32 && 4u32 | 0x100u32 == 0x104u32)
        by (bit_vector);
    flags
}

/// True when every bit of `flag` is set in `bits` (the `contains` test of the
/// Win32 flag types).
pub open spec fn has_flags(bits: u32, flag: u32) -> bool {
    bits & flag == flag
}

/// Tests whether every bit of `flag` is set in `bits`.
pub fn flags_contain(bits: u32, flag: u32) -> (res: bool)
    ensures
        res == has_flags(bits, flag),
{
    bits & flag == flag
}

/// True when a menu item of this type is a separator.
pub fn is_separator_type(item_type: u32) -> (res: bool)
    ensures
        res == has_flags(item_type, MFT_SEPARATOR),
{
    flags_contain(item_type, MFT_SEPARATOR)
}

/// The verb offset of an enumerated menu entry: entries whose id lies in
/// `[ID_FIRST, ID_LAST]` belong to the shell handler and may have a verb.
pub open spec fn spec_menu_verb_offset(id: u32) -> Option<u32> {
    if ID_FIRST <= id <= ID_LAST {
        Some((id - ID_FIRST) as u32)
    } else {
        None
    }
}

/// The offset to ask `GetCommandString` about for an enumerated entry, if
/// its id belongs to the handler's range.
pub fn menu_verb_offset(id: u32) -> (res: Option<u32>)
    ensures
        res == spec_menu_verb_offset(id),
        res matches Some(off) ==> off + ID_FIRST == id,
{
    if ID_FIRST <= id && id <= ID_LAST {
        Some(id - ID_FIRST)
    } else {
        None
    }
}

/// The verb offset of a selected command: any id from `ID_FIRST` on.
pub open spec fn spec_command_verb_offset(command_id: u32) -> Option<u32> {
    if command_id >= ID_FIRST {
        Some((command_id - ID_FIRST) as u32)
    } else {
        None
    }
}

/// The offset to ask `GetCommandString` about for a selected command.
pub fn command_verb_offset(command_id: u32) -> (res: Option<u32>)
    ensures
        res == spec_command_verb_offset(command_id),
        res matches Some(off) ==> off + ID_FIRST == command_id,
{
    if command_id >= ID_FIRST {
        Some(command_id - ID_FIRST)
    } else {
        None
    }
}

/// The number of entries to read from a menu, given what
/// `GetMenuItemCount` returned: a negative count reports an invalid menu,
/// which has no entries.
pub fn entry_count(count: i32) -> (res: u32)
    ensures
        res == (if count < 0 {
            0
        } else {
            count as int
        }),
{
    if count < 0 {
        0
    } else {
        count as u32
    }
}

/// One entry of a shell menu as `GetMenuItemInfoW` and
/// `IContextMenu::GetCommandString` report it.
pub struct RawMenuEntry {
    /// `fType`.
    pub item_type: u32,
    /// `fState`.
    pub state: u32,
    /// `wID`.
    pub id: u32,
    /// The label's UTF-16 units (`cch` of them).
    pub label: Vec<u16>,
    /// The `GCS_VERBA` buffer when `GetCommandString` was asked about the
    /// entry and succeeded, else `None`.
    pub verb: Option<Vec<u8>>,
    /// The entries of its submenu, when it has one.
    pub submenu: Option<Vec<RawMenuEntry>>,
}

/// The flag fields, id, label and verb of a non-separator item built from
/// `raw`.
pub open spec fn item_fields_from(raw: RawMenuEntry, item: MenuItem) -> bool {
    &&& item.id == raw.id
    &&& item.label@ == clean_label(raw.label@)
    &&& (forall|i: int| 0 <= i < item.label@.len() ==> item.label@[i] != ACCELERATOR_MARKER)
    &&& opt_string_view(item.command_string) == (if spec_menu_verb_offset(raw.id) is Some {
        verb_text(opt_bytes_view(raw.verb))
    } else {
        None
    })
    &&& (item.command_string matches Some(c) ==> c@.len() > 0 && no_nul_char(c@))
    &&& !item.is_separator
    &&& item.is_disabled == has_flags(raw.state, MFS_DISABLED)
    &&& item.is_checked == has_flags(raw.state, MFS_CHECKED)
    &&& item.is_default == has_flags(raw.state, MFS_DEFAULT)
}

/// `item` is what the menu walk makes of `raw`: a plain separator, or an
/// item with the entry's id, cleaned label, verb (for handler ids), state
/// flags and recursively built submenu.
pub open spec fn built_from(raw: RawMenuEntry, item: MenuItem) -> bool
    decreases raw,
{
    if has_flags(raw.item_type, MFT_SEPARATOR) {
        is_separator_item(item)
    } else {
        &&& item_fields_from(raw, item)
        &&& match raw.submenu {
            None => item.submenu is None,
            Some(raws) => match item.submenu {
                None => false,
                Some(items) => items@.len() == raws@.len() && forall|i: int|
                    0 <= i < raws@.len() ==> built_from(
                        #[trigger] raws@[i],
                        items@[i],
                    ),
            },
        }
    }
}

/// Walks the entries of a menu (and of its submenus) and builds the list
/// of [`MenuItem`]s, one per entry, in the same order.
pub fn build_menu_items(raws: &Vec<RawMenuEntry>) -> (res: Vec<MenuItem>)
    ensures
        res@.len() == raws@.len(),
        forall|i: int| 0 <= i < raws@.len() ==> built_from(#[trigger] raws@[i], res@[i]),
        forall|i: int|
            0 <= i < raws@.len() && raws@[i].item_type & MFT_SEPARATOR != MFT_SEPARATOR && ID_FIRST
                <= #[trigger] raws@[i].id <= ID_LAST ==> opt_string_view(res@[i].command_string)
                == verb_text(opt_bytes_view(raws@[i].verb)),
        forall|i: int|
            0 <= i < raws@.len() && raws@[i].item_type & MFT_SEPARATOR != MFT_SEPARATOR
                ==> #[trigger] res@[i].label@ == decode_utf16_lossy(raws@[i].label@).filter(
                other_than(ACCELERATOR_MARKER),
            ),
    decreases raws,
{
    let mut items: Vec<MenuItem> = Vec::new();
    let n = raws.len();
    let mut i: usize = 0;
    while i < n
        invariant
            n == raws@.len(),
            i <= n,
            items@.len() == i,
            forall|j: int| 0 <= j < i ==> built_from(#[trigger] raws@[j], items@[j]),
        decreases n - i,
    {
        let raw = &raws[i];
        if is_separator_type(raw.item_type) {
            items.push(MenuItem::separator());
        } else {
            let label = menu_label(raw.label.as_slice());
            let command_string = match menu_verb_offset(raw.id) {
                Some(_) => verb_from_answer(&raw.verb),
                None => None,
            };
            let submenu = match &raw.submenu {
                Some(sub) => {
                    assert(decreases_to!(raws => raws@[i as int]));
                    Some(build_menu_items(sub))
                },
                None => None,
            };
            items.push(
                MenuItem {
                    id: raw.id,
                    label,
                    command_string,
                    is_separator: false,
                    is_disabled: flags_contain(raw.state, MFS_DISABLED),
                    is_checked: flags_contain(raw.state, MFS_CHECKED),
                    is_default: flags_contain(raw.state, MFS_DEFAULT),
                    submenu,
                },
            );
        }
        i = i + 1;
    }
    proof {
        assert forall|j: int|
            0 <= j < raws@.len() && raws@[j].item_type & MFT_SEPARATOR != MFT_SEPARATOR implies {
            &&& (ID_FIRST <= raws@[j].id <= ID_LAST ==> opt_string_view(items@[j].command_string)
                == verb_text(opt_bytes_view(raws@[j].verb)))
            &&& items@[j].label@ == decode_utf16_lossy(raws@[j].label@).filter(
                other_than(ACCELERATOR_MARKER),
            )
        } by {
            lemma_listed_item_meaning(raws@[j], items@[j]);
        }
    }
    items
}

/// What the user did with a shown popup menu.
#[derive(Debug, PartialEq, Eq)]
pub enum Selection {
    /// The menu was dismissed without a selection.
    Dismissed,
    /// The injected "Paste" entry was chosen.
    Paste,
    /// The entry with this (non-zero) command id was chosen.
    Command(u32),
}

/// The selection that the return value of
/// `TrackPopupMenu(TPM_RETURNCMD)` stands for.
pub open spec fn spec_selection(cmd: i32) -> Selection {
    if cmd == 0 {
        Selection::Dismissed
    } else if cmd as u32 == ID_PASTE_INJECTED {
        Selection::Paste
    } else {
        Selection::Command(cmd as u32)
    }
}

/// Classifies the command id returned by `TrackPopupMenu`: zero means the
/// menu was dismissed, [`ID_PASTE_INJECTED`] the injected "Paste" entry.
pub fn classify_selection(cmd: i32) -> (res: Selection)
    ensures
        res == spec_selection(cmd),
        res matches Selection::Command(id) ==> id != 0 && id != ID_PASTE_INJECTED,
{
    if cmd == 0 {
        Selection::Dismissed
    } else {
        let command_id = #[verifier::truncate] (cmd as u32);
        assert(cmd != 0 ==> cmd as u32 != 0) by (bit_vector);
        if command_id == ID_PASTE_INJECTED {
            Selection::Paste
        } else {
            Selection::Command(command_id)
        }
    }
}

/// The verb of the injected "Paste" entry.
pub open spec fn paste_verb() -> Seq<char> {
    "paste"@
}

/// The metadata of the injected "Paste" entry.
pub open spec fn is_paste_item(m: MenuItem) -> bool {
    &&& m.id == ID_PASTE_INJECTED
    &&& m.label@ == "Paste"@
    &&& opt_string_view(m.command_string) == Some(paste_verb())
    &&& !m.is_separator
    &&& !m.is_disabled
    &&& !m.is_checked
    &&& !m.is_default
    &&& m.submenu is None
}

/// The selection of the injected "Paste" entry: it is run through the
/// `paste` verb, owned by `hwnd`.
pub fn selected_paste(hwnd: isize) -> (res: SelectedItem)
    ensures
        is_paste_item(res.spec_menu_item()),
        res.spec_command_id() == ID_PASTE_INJECTED,
        res.spec_invoker() matches Some(Invoker::ByVerb { verb, hwnd: h }) && verb@ == paste_verb()
            && h == hwnd,
{
    let item = MenuItem {
        id: ID_PASTE_INJECTED,
        label: String::from_str("Paste"),
        command_string: Some(String::from_str("paste")),
        is_separator: false,
        is_disabled: false,
        is_checked: false,
        is_default: false,
        submenu: None,
    };
    SelectedItem::new(
        item,
        ID_PASTE_INJECTED,
        Some(Invoker::ByVerb { verb: String::from_str("paste"), hwnd }),
    )
}

/// The metadata of a selected command, from the state and label that
/// `GetMenuItemInfoW` reported for its id and the `GetCommandString` answer
/// for its offset.
pub open spec fn is_command_item(
    m: MenuItem,
    command_id: u32,
    state: u32,
    label: Seq<u16>,
    verb: Option<Seq<u8>>,
) -> bool {
    &&& m.id == command_id
    &&& m.label@ == clean_label(label)
    &&& (forall|i: int| 0 <= i < m.label@.len() ==> m.label@[i] != ACCELERATOR_MARKER)
    &&& opt_string_view(m.command_string) == (if spec_command_verb_offset(command_id) is Some {
        verb_text(verb)
    } else {
        None
    })
    &&& (m.command_string matches Some(c) ==> c@.len() > 0 && no_nul_char(c@))
    &&& !m.is_separator
    &&& m.is_disabled == has_flags(state, MFS_DISABLED)
    &&& m.is_checked == has_flags(state, MFS_CHECKED)
    &&& m.is_default == has_flags(state, MFS_DEFAULT)
    &&& m.submenu is None
}

/// Builds the [`MenuItem`] of a selected command id.
pub fn command_menu_item(command_id: u32, state: u32, label: &[u16], verb: &Option<Vec<u8>>) -> (res:
    MenuItem)
    ensures
        is_command_item(res, command_id, state, label@, opt_bytes_view(*verb)),
        res.id == command_id,
        res.label@ == decode_utf16_lossy(label@).filter(other_than(ACCELERATOR_MARKER)),
        command_id >= ID_FIRST ==> opt_string_view(res.command_string) == verb_text(
            opt_bytes_view(*verb),
        ),
{
    let command_string = match command_verb_offset(command_id) {
        Some(_) => verb_from_answer(verb),
        None => None,
    };
    let label = menu_label(label);
    MenuItem {
        id: command_id,
        label,
        command_string,
        is_separator: false,
        is_disabled: flags_contain(state, MFS_DISABLED),
        is_checked: flags_contain(state, MFS_CHECKED),
        is_default: flags_contain(state, MFS_DEFAULT),
        submenu: None,
    }
}

/// The selection of a shell command: it is run by its offset from
/// [`ID_FIRST`], owned by `hwnd`.
pub fn selected_command(item: MenuItem, command_id: u32, hwnd: isize) -> (res: SelectedItem)
    requires
        command_id >= ID_FIRST,
        item.id == command_id,
    ensures
        res.spec_menu_item() == item,
        res.spec_command_id() == command_id,
        res.spec_invoker() == Some(
            Invoker::ByOffset { offset: (command_id - ID_FIRST) as u32, hwnd },
        ),
{
    SelectedItem::new(
        item,
        command_id,
        Some(Invoker::ByOffset { offset: command_id - ID_FIRST, hwnd }),
    )
}

/// An entry inserted into a shell menu.
#[derive(Debug, PartialEq, Eq)]
pub enum MenuInsertion {
    /// A string command entry with the given id and NUL-terminated label.
    Command {
        position: u32,
        id: u32,
        label: Vec<u16>,
    },
    /// A separator line.
    Separator {
        position: u32,
    },
}

/// The label of the injected paste entry.
pub const INJECTED_PASTE_LABEL: &'static str = "\u{8cbc}\u{308a}\u{4ed8}\u{3051}(V)";

/// The entries injected at the top of a menu: on a folder-background menu
/// whose clipboard holds files, a "Paste" command at position 0 and a
/// separator after it; nothing otherwise.
pub fn clipboard_insertions(is_background: bool, clipboard_has_files: bool) -> (res: Vec<
    MenuInsertion,
>)
    ensures
        !(is_background && clipboard_has_files) ==> res@.len() == 0,
        is_background && clipboard_has_files ==> res@.len() == 2 && (res@[0] matches MenuInsertion::Command {
            position,
            id,
            label,
        } && position == 0 && id == ID_PASTE_INJECTED && label@ == encode_utf16(
            INJECTED_PASTE_LABEL@,
        ).push(0u16)) && res@[1] == (MenuInsertion::Separator { position: 1 }),
{
    let mut out: Vec<MenuInsertion> = Vec::new();
    if is_background && clipboard_has_files {
        let label = to_wide_nul(INJECTED_PASTE_LABEL);
        out.push(MenuInsertion::Command { position: 0, id: ID_PASTE_INJECTED, label });
        out.push(MenuInsertion::Separator { position: 1 });
    }
    out
}

/// The window that owns the menu and its commands: the caller's window when
/// one was given, else the hidden helper window.
pub fn owner_window(owner: Option<isize>, hidden: isize) -> (res: isize)
    ensures
        res == (match owner {
            Some(h) => h,
            None => hidden,
        }),
{
    match owner {
        Some(h) => h,
        None => hidden,
    }
}

/// True for the window messages that owner-drawn shell submenus need
/// forwarded to `IContextMenu2` / `IContextMenu3`.
pub open spec fn is_menu_message(msg: u32) -> bool {
    msg == WM_INITMENUPOPUP || msg == WM_DRAWITEM || msg == WM_MEASUREITEM
}

/// Tells whether the hidden owner window forwards `msg` to the shell's
/// menu handlers (`IContextMenu3` first, then `IContextMenu2`).
pub fn forwards_menu_message(msg: u32) -> (res: bool)
    ensures
        res == is_menu_message(msg),
{
    msg == WM_INITMENUPOPUP || msg == WM_DRAWITEM || msg == WM_MEASUREITEM
}

/// An entry listed by the menu walk and the same entry chosen in the popup
/// are described alike: for a non-separator entry without submenu whose id
/// lies in the handler's range, the item built by [`build_menu_items`] is
/// exactly the item [`command_menu_item`] builds for that id.
pub proof fn lemma_listed_item_is_selected_item(raw: RawMenuEntry, item: MenuItem)
    requires
        !has_flags(raw.item_type, MFT_SEPARATOR),
        raw.submenu is None,
        ID_FIRST <= raw.id <= ID_LAST,
    ensures
        built_from(raw, item) <==> is_command_item(
            item,
            raw.id,
            raw.state,
            raw.label@,
            opt_bytes_view(raw.verb),
        ),
{
}

/// Every command id that `QueryContextMenu` may hand out comes back from the
/// popup as a command selection of itself, and the injected paste id comes
/// back as the paste selection.
pub proof fn lemma_selection_of_menu_ids(id: u32)
    requires
        ID_FIRST <= id <= ID_LAST,
    ensures
        spec_selection(id as i32) == Selection::Command(id),
        spec_selection(ID_PASTE_INJECTED as i32) == Selection::Paste,
{
    assert(1 <= id <= 0x7FFF ==> (id as i32) as u32 == id && id as i32 != 0) by (bit_vector);
    assert((0x8000u32 as i32) as u32 == 0x8000u32 && 0x8000u32 as i32 != 0) by (bit_vector);
}

/// What an item listed by [`build_menu_items`] holds, for a non-separator
/// entry at any depth: the entry's id; its decoded text with exactly the
/// `&` markers dropped; for every id in `[ID_FIRST, ID_LAST]` the verb text
/// of the entry's `GetCommandString` answer, whether or not the entry opens
/// a submenu, and no verb for other ids; the state bits as flags; and a
/// submenu exactly when the entry has one, built entry by entry.
pub proof fn lemma_listed_item_meaning(raw: RawMenuEntry, item: MenuItem)
    requires
        built_from(raw, item),
        raw.item_type & MFT_SEPARATOR != MFT_SEPARATOR,
    ensures
        item.id == raw.id,
        !item.is_separator,
        item.label@ == decode_utf16_lossy(raw.label@).filter(other_than(ACCELERATOR_MARKER)),
        ID_FIRST <= raw.id <= ID_LAST ==> opt_string_view(item.command_string) == verb_text(
            opt_bytes_view(raw.verb),
        ),
        !(ID_FIRST <= raw.id <= ID_LAST) ==> item.command_string is None,
        item.is_disabled == (raw.state & 0x3 == 0x3),
        item.is_checked == (raw.state & 0x8 == 0x8),
        item.is_default == (raw.state & 0x1000 == 0x1000),
        raw.submenu is None <==> item.submenu is None,
        raw.submenu matches Some(rs) ==> (item.submenu matches Some(is) && is@.len() == rs@.len()
            && forall|i: int| 0 <= i < rs@.len() ==> built_from(#[trigger] rs@[i], is@[i])),
{
    lemma_clean_label_drops_only_markers(raw.label@);
}

/// A listed separator entry becomes the plain separator item, whatever its
/// id, text, verb or submenu.
pub proof fn lemma_listed_separator(raw: RawMenuEntry, item: MenuItem)
    requires
        built_from(raw, item),
        raw.item_type & MFT_SEPARATOR == MFT_SEPARATOR,
    ensures
        item.is_separator,
        item.id == 0,
        item.label@.len() == 0,
        item.command_string is None,
        !item.is_disabled && !item.is_checked && !item.is_default,
        item.submenu is None,
{
}

/// What the item of a selected command holds: the command id; the menu
/// text with exactly the `&` markers dropped; for every id from
/// `ID_FIRST` on the verb text of the `GetCommandString` answer; the state
/// bits as flags; no submenu.
pub proof fn lemma_selected_item_meaning(
    m: MenuItem,
    command_id: u32,
    state: u32,
    label: Seq<u16>,
    verb: Option<Seq<u8>>,
)
    requires
        is_command_item(m, command_id, state, label, verb),
    ensures
        m.id == command_id,
        !m.is_separator,
        m.label@ == decode_utf16_lossy(label).filter(other_than(ACCELERATOR_MARKER)),
        command_id >= ID_FIRST ==> opt_string_view(m.command_string) == verb_text(verb),
        command_id < ID_FIRST ==> m.command_string is None,
        m.is_disabled == (state & 0x3 == 0x3),
        m.is_checked == (state & 0x8 == 0x8),
        m.is_default == (state & 0x1000 == 0x1000),
        m.submenu is None,
{
    lemma_clean_label_drops_only_markers(label);
}

} // verus!
