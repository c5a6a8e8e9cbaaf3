//! Data types representing context menu items, user selections and the
//! command invocations they lead to.

use vstd::prelude::*;
use crate::text::{opt_string_view, to_bytes_nul};
use crate::wide::{decode_utf16_lossy, encode_utf16, lemma_wide_round_trip, to_wide_nul};

verus! {

/// A single item from a context menu.
///
/// Built from the entries of a shell menu by
/// [`build_menu_items`](crate::menu::build_menu_items) or as part of a
/// [`SelectedItem`].
#[derive(Debug, PartialEq, Eq)]
pub struct MenuItem {
    /// The raw command ID assigned by the shell handler.
    pub id: u32,
    /// Display label with accelerator characters (`&`) stripped.
    pub label: String,
    /// The verb/command string if available (e.g. `"open"`, `"delete"`,
    /// `"properties"`). Not all items expose a verb.
    pub command_string: Option<String>,
    /// `true` if this item is a visual separator line.
    pub is_separator: bool,
    /// `true` if this item is disabled / grayed out.
    pub is_disabled: bool,
    /// `true` if this item has a check mark.
    pub is_checked: bool,
    /// `true` if this is the default (bold) item.
    pub is_default: bool,
    /// Sub-menu items, if this item opens a submenu.
    pub submenu: Option<Vec<MenuItem>>,
}

/// The text shown for a separator.
pub open spec fn separator_text() -> Seq<char> {
    "---separator---"@
}

/// The one-line text of a menu item: the separator marker, or the label
/// followed by the verb in brackets when there is one.
pub open spec fn menu_item_text(m: MenuItem) -> Seq<char> {
    if m.is_separator {
        separator_text()
    } else {
        match m.command_string {
            None => m.label@,
            Some(c) => m.label@ + " ["@ + c@ + "]"@,
        }
    }
}

/// The fields of a separator entry.
pub open spec fn is_separator_item(m: MenuItem) -> bool {
    &&& m.id == 0
    &&& m.label@ == Seq::<char>::empty()
    &&& m.command_string is None
    &&& m.is_separator
    &&& !m.is_disabled
    &&& !m.is_checked
    &&& !m.is_default
    &&& m.submenu is None
}

impl MenuItem {
    /// A separator line.
    pub fn separator() -> (res: Self)
        ensures
            is_separator_item(res),
    {
        Self {
            id: 0,
            label: String::new(),
            command_string: None,
            is_separator: true,
            is_disabled: false,
            is_checked: false,
            is_default: false,
            submenu: None,
        }
    }

    /// The text that `Display` shows for this item: `---separator---` for
    /// a separator, else the label, followed by ` [verb]` when the item
    /// has a verb.
    pub fn display_text(&self) -> (res: String)
        ensures
            res@ == menu_item_text(*self),
            self.is_separator ==> res@ == "---separator---"@,
            !self.is_separator && self.command_string is None ==> res@ == self.label@,
            self.command_string matches Some(v) ==> (!self.is_separator ==> res@ == self.label@
                + " ["@ + v@ + "]"@),
    {
        if self.is_separator {
            String::from_str("---separator---")
        } else {
            let mut s = String::from_str(self.label.as_str());
            match &self.command_string {
                Some(cmd) => {
                    s.append(" [");
                    s.append(cmd.as_str());
                    s.append("]");
                },
                None => {},
            }
            s
        }
    }
}

/// `a` and `b` describe the same item: equal fields, equal texts and
/// item-by-item equal submenus.
pub open spec fn same_item(a: MenuItem, b: MenuItem) -> bool
    decreases a,
{
    &&& a.id == b.id
    &&& a.label@ == b.label@
    &&& opt_string_view(a.command_string) == opt_string_view(b.command_string)
    &&& a.is_separator == b.is_separator
    &&& a.is_disabled == b.is_disabled
    &&& a.is_checked == b.is_checked
    &&& a.is_default == b.is_default
    &&& match a.submenu {
        None => b.submenu is None,
        Some(x) => match b.submenu {
            None => false,
            Some(y) => x@.len() == y@.len() && forall|i: int|
                0 <= i < x@.len() ==> same_item(#[trigger] x@[i], y@[i]),
        },
    }
}

impl Clone for MenuItem {
    fn clone(&self) -> (res: Self)
        ensures
            same_item(*self, res),
        decreases self,
    {
        let command_string = match &self.command_string {
            Some(c) => Some(c.clone()),
            None => None,
        };
        let submenu = match &self.submenu {
            Some(items) => {
                let mut out: Vec<MenuItem> = Vec::new();
                let n = items.len();
                let mut i: usize = 0;
                while i < n
                    invariant
                        n == items@.len(),
                        self.submenu == Some(*items),
                        i <= n,
                        out@.len() == i,
                        forall|j: int| 0 <= j < i ==> same_item(#[trigger] items@[j], out@[j]),
                    decreases n - i,
                {
                    proof {
                        let sub = self.submenu;
                        assert(decreases_to!(*self => sub));
                        assert(sub->0 == *items);
                        assert(decreases_to!(sub => sub->0));
                        assert(decreases_to!(*items => items[i as int]));
                        assert(decreases_to!(*self => items[i as int]));
                    }
                    out.push(items[i].clone());
                    i = i + 1;
                }
                Some(out)
            },
            None => None,
        };
        MenuItem {
            id: self.id,
            label: self.label.clone(),
            command_string,
            is_separator: self.is_separator,
            is_disabled: self.is_disabled,
            is_checked: self.is_checked,
            is_default: self.is_default,
            submenu,
        }
    }
}

/// Parameters for customizing command invocation.
///
/// Pass to [`SelectedItem::execute_with`] to override defaults.
#[derive(Debug, Clone)]
pub struct InvokeParams {
    /// Working directory for the command. Defaults to the item's parent folder.
    pub directory: Option<String>,
    /// Window show command (`SW_SHOW`, `SW_HIDE`, etc.). Defaults to
    /// `SW_SHOWNORMAL`.
    pub show_cmd: Option<i32>,
}

impl Default for InvokeParams {
    fn default() -> (res: Self)
        ensures
            res.directory is None,
            res.show_cmd is None,
    {
        InvokeParams { directory: None, show_cmd: None }
    }
}

/// `SW_SHOWNORMAL`, the window show command used when none is given.
pub const SW_SHOWNORMAL: i32 = 1;

/// `CMIC_MASK_UNICODE`: the shell is to prefer the wide-string fields of
/// `CMINVOKECOMMANDINFOEX`.
pub const CMIC_MASK_UNICODE: u32 = 0x4000;

/// How the command of a selection is to be run.
#[derive(Debug, PartialEq, Eq)]
pub enum Invoker {
    /// By its zero-based offset from the first command id.
    ByOffset {
        offset: u32,
        hwnd: isize,
    },
    /// By its verb string (such as `"paste"`).
    ByVerb {
        verb: String,
        hwnd: isize,
    },
}

/// The `lpVerb` / `lpVerbW` fields of a command invocation.
#[derive(Debug, PartialEq, Eq)]
pub enum InvokeVerb {
    /// A command offset, passed `MAKEINTRESOURCE`-style in both fields.
    Offset(u32),
    /// A verb string: its NUL-terminated UTF-8 bytes for `lpVerb` and its
    /// NUL-terminated UTF-16 units for `lpVerbW`.
    Named {
        ansi: Vec<u8>,
        wide: Vec<u16>,
    },
}

/// The content of the `CMINVOKECOMMANDINFOEX` that
/// `IContextMenu::InvokeCommand` receives.
#[derive(Debug, PartialEq, Eq)]
pub struct CommandInvocation {
    /// `fMask`.
    pub mask: u32,
    /// `hwnd`: the owner window.
    pub hwnd: isize,
    /// `lpVerb` / `lpVerbW`.
    pub verb: InvokeVerb,
    /// `nShow`.
    pub show_cmd: i32,
    /// `lpDirectoryW`, NUL-terminated, when a working directory is given.
    pub directory: Option<Vec<u16>>,
}

/// The window show command of an invocation with the given parameters.
pub open spec fn show_cmd_for(params: Option<InvokeParams>) -> i32 {
    match params {
        Some(p) => match p.show_cmd {
            Some(c) => c,
            None => SW_SHOWNORMAL,
        },
        None => SW_SHOWNORMAL,
    }
}

/// The working directory (as UTF-16 with a NUL) of an invocation with the
/// given parameters.
pub open spec fn directory_for(params: Option<InvokeParams>) -> Option<Seq<u16>> {
    match params {
        Some(p) => match p.directory {
            Some(d) => Some(encode_utf16(d@).push(0u16)),
            None => None,
        },
        None => None,
    }
}

/// The view of an optional wide string.
pub open spec fn opt_wide_view(d: Option<Vec<u16>>) -> Option<Seq<u16>> {
    match d {
        None => None,
        Some(v) => Some(v@),
    }
}

/// `inv` runs the command at `offset` from the first command id, owned by
/// `hwnd`, with the given parameters.
pub open spec fn is_offset_invocation(
    inv: CommandInvocation,
    offset: u32,
    hwnd: isize,
    params: Option<InvokeParams>,
) -> bool {
    &&& inv.mask == CMIC_MASK_UNICODE
    &&& inv.hwnd == hwnd
    &&& inv.verb == InvokeVerb::Offset(offset)
    &&& inv.show_cmd == show_cmd_for(params)
    &&& opt_wide_view(inv.directory) == directory_for(params)
}

/// `inv` runs the verb `verb`, owned by `hwnd`, shown normally and without
/// a working directory.
pub open spec fn is_verb_invocation(inv: CommandInvocation, verb: Seq<char>, hwnd: isize) -> bool {
    &&& inv.mask == CMIC_MASK_UNICODE
    &&& inv.hwnd == hwnd
    &&& inv.verb matches InvokeVerb::Named { ansi, wide } && ansi@ == vstd::utf8::encode_utf8(
        verb,
    ).push(0u8) && wide@ == encode_utf16(verb).push(0u16)
    &&& inv.show_cmd == SW_SHOWNORMAL
    &&& inv.directory is None
}

/// Describes the invocation of a context menu command by its zero-based
/// offset from the first command id.
///
/// The offset goes into both `lpVerb` and `lpVerbW` (`MAKEINTRESOURCE`
/// style); the parameters choose the show command (default
/// `SW_SHOWNORMAL`) and the working directory.
pub fn invoke_command(command_offset: u32, hwnd: isize, params: Option<InvokeParams>) -> (res:
    CommandInvocation)
    ensures
        is_offset_invocation(res, command_offset, hwnd, params),
        res.verb == InvokeVerb::Offset(command_offset),
        res.hwnd == hwnd,
        params matches Some(p) ==> (p.show_cmd matches Some(c) ==> res.show_cmd == c),
        !(params matches Some(p) && p.show_cmd is Some) ==> res.show_cmd == SW_SHOWNORMAL,
        params matches Some(p) ==> (p.directory matches Some(d) ==> (res.directory matches Some(
            w,
        ) && w@ == encode_utf16(d@).push(0u16))),
        !(params matches Some(p) && p.directory is Some) ==> res.directory is None,
{
    let (show_cmd, directory) = match &params {
        Some(p) => {
            let show = match p.show_cmd {
                Some(c) => c,
                None => SW_SHOWNORMAL,
            };
            let dir = match &p.directory {
                Some(d) => Some(to_wide_nul(d.as_str())),
                None => None,
            };
            (show, dir)
        },
        None => (SW_SHOWNORMAL, None),
    };
    CommandInvocation {
        mask: CMIC_MASK_UNICODE,
        hwnd,
        verb: InvokeVerb::Offset(command_offset),
        show_cmd,
        directory,
    }
}

/// Describes the invocation of a context menu command by its verb string
/// (e.g. `"paste"`, `"delete"`).
pub fn invoke_command_by_verb(verb: &str, hwnd: isize) -> (res: CommandInvocation)
    ensures
        is_verb_invocation(res, verb@, hwnd),
        res.verb matches InvokeVerb::Named { ansi, wide } && ansi@ == vstd::utf8::encode_utf8(verb@).push(0u8)
            && wide@ == encode_utf16(verb@).push(0u16),
        res.show_cmd == SW_SHOWNORMAL,
        res.directory is None,
{
    let ansi = to_bytes_nul(verb);
    let wide = to_wide_nul(verb);
    CommandInvocation {
        mask: CMIC_MASK_UNICODE,
        hwnd,
        verb: InvokeVerb::Named { ansi, wide },
        show_cmd: SW_SHOWNORMAL,
        directory: None,
    }
}

/// `inv` is what `invoker` runs with the given parameters. A command run by
/// verb ignores the parameters.
pub open spec fn invocation_of(
    inv: CommandInvocation,
    invoker: Invoker,
    params: Option<InvokeParams>,
) -> bool {
    match invoker {
        Invoker::ByOffset { offset, hwnd } => is_offset_invocation(inv, offset, hwnd, params),
        Invoker::ByVerb { verb, hwnd } => is_verb_invocation(inv, verb@, hwnd),
    }
}

/// A menu item that was selected by the user in a shown context menu.
///
/// Call [`execute`](SelectedItem::execute) to obtain the invocation of the
/// associated shell command, or inspect
/// [`menu_item`](SelectedItem::menu_item) to decide first.
pub struct SelectedItem {
    menu_item: MenuItem,
    command_id: u32,
    invoker: Option<Invoker>,
}

impl SelectedItem {
    /// The item's metadata.
    pub closed spec fn spec_menu_item(&self) -> MenuItem {
        self.menu_item
    }

    /// The command id the popup returned.
    pub closed spec fn spec_command_id(&self) -> u32 {
        self.command_id
    }

    /// How the command is run, if at all.
    pub closed spec fn spec_invoker(&self) -> Option<Invoker> {
        self.invoker
    }

    /// A selection describes the item that carries the selected command id.
    #[verifier::type_invariant]
    spec fn inv(&self) -> bool {
        self.menu_item.id == self.command_id
    }

    /// A selection with the given parts; the item must carry the command id.
    pub fn new(menu_item: MenuItem, command_id: u32, invoker: Option<Invoker>) -> (res: Self)
        requires
            menu_item.id == command_id,
        ensures
            res.spec_menu_item() == menu_item,
            res.spec_command_id() == command_id,
            res.spec_invoker() == invoker,
    {
        SelectedItem { menu_item, command_id, invoker }
    }

    /// Get the menu item metadata (label, verb, flags, etc.).
    pub fn menu_item(&self) -> (res: &MenuItem)
        ensures
            *res == self.spec_menu_item(),
            res.id == self.spec_command_id(),
    {
        proof {
            use_type_invariant(self);
        }
        &self.menu_item
    }

    /// Get the raw command ID that was returned by `TrackPopupMenu`.
    pub fn command_id(&self) -> (res: u32)
        ensures
            res == self.spec_command_id(),
            res == self.spec_menu_item().id,
    {
        proof {
            use_type_invariant(self);
        }
        self.command_id
    }

    /// The invocation of the selected command with default parameters:
    /// `None` when the selection carries no command.
    ///
    /// This is equivalent to the user clicking the menu item in Explorer.
    /// Consumes `self` because a command can only be invoked once.
    pub fn execute(self) -> (res: Option<CommandInvocation>)
        ensures
            self.spec_invoker() is None <==> res is None,
            res matches Some(inv) ==> invocation_of(inv, self.spec_invoker()->0, None),
    {
        match self.invoker {
            None => None,
            Some(Invoker::ByOffset { offset, hwnd }) => Some(invoke_command(offset, hwnd, None)),
            Some(Invoker::ByVerb { verb, hwnd }) => Some(
                invoke_command_by_verb(verb.as_str(), hwnd),
            ),
        }
    }

    /// The invocation of the selected command with custom parameters (the
    /// working directory or window show state).
    pub fn execute_with(self, params: InvokeParams) -> (res: Option<CommandInvocation>)
        ensures
            self.spec_invoker() is None <==> res is None,
            res matches Some(inv) ==> invocation_of(inv, self.spec_invoker()->0, Some(params)),
    {
        match self.invoker {
            None => None,
            Some(Invoker::ByOffset { offset, hwnd }) => Some(
                invoke_command(offset, hwnd, Some(params)),
            ),
            Some(Invoker::ByVerb { verb, hwnd }) => Some(
                invoke_command_by_verb(verb.as_str(), hwnd),
            ),
        }
    }
}

/// Running a selection with default parameters is the same as running it
/// with no parameters: `execute` and `execute_with(InvokeParams::default())`
/// describe the same invocation.
pub proof fn lemma_execute_is_execute_with_defaults(
    inv: CommandInvocation,
    invoker: Invoker,
    defaults: InvokeParams,
)
    requires
        defaults.directory is None,
        defaults.show_cmd is None,
    ensures
        invocation_of(inv, invoker, None) <==> invocation_of(inv, invoker, Some(defaults)),
{
}

/// Each parameter of an invocation by offset overrides its own default, on
/// its own: the show command is the given one when there is one (else
/// `SW_SHOWNORMAL`), and the working directory is the UTF-16 text of the
/// given one with a NUL when there is one (else none).
pub proof fn lemma_offset_invocation_fields(
    inv: CommandInvocation,
    offset: u32,
    hwnd: isize,
    params: Option<InvokeParams>,
)
    requires
        is_offset_invocation(inv, offset, hwnd, params),
    ensures
        inv.mask == CMIC_MASK_UNICODE,
        inv.hwnd == hwnd,
        inv.verb == InvokeVerb::Offset(offset),
        params matches Some(p) ==> (p.show_cmd matches Some(c) ==> inv.show_cmd == c),
        !(params matches Some(p) && p.show_cmd is Some) ==> inv.show_cmd == SW_SHOWNORMAL,
        params matches Some(p) ==> (p.directory matches Some(d) ==> (inv.directory matches Some(
            w,
        ) && w@ == encode_utf16(d@).push(0u16))),
        !(params matches Some(p) && p.directory is Some) ==> inv.directory is None,
{
}

/// An invocation by verb carries the whole verb: its ANSI field is the
/// verb's UTF-8 bytes and a NUL, one byte longer than the encoding, and
/// decodes back to the verb; its wide field is the verb's UTF-16 units and a
/// NUL, and decodes back to the verb.
pub proof fn lemma_verb_invocation_fields(inv: CommandInvocation, verb: Seq<char>, hwnd: isize)
    requires
        is_verb_invocation(inv, verb, hwnd),
    ensures
        inv.verb matches InvokeVerb::Named { ansi, wide } && ansi@.len() == vstd::utf8::encode_utf8(
            verb,
        ).len() + 1 && ansi@.last() == 0 && vstd::utf8::decode_utf8(ansi@.drop_last()) == verb
            && wide@.last() == 0 && decode_utf16_lossy(wide@.drop_last()) == verb,
        inv.show_cmd == SW_SHOWNORMAL,
        inv.directory is None,
{
    broadcast use vstd::utf8::encode_utf8_decode_utf8;

    match inv.verb {
        InvokeVerb::Named { ansi, wide } => {
            assert(ansi@.drop_last() =~= vstd::utf8::encode_utf8(verb));
            assert(wide@.drop_last() =~= encode_utf16(verb));
            lemma_wide_round_trip(verb);
        },
        InvokeVerb::Offset(_) => {},
    }
}

/// The one-line text of an item depends only on whether it is a separator,
/// its label and its verb: `label [verb]` when it has a verb, the label
/// otherwise, whatever its flags.
pub proof fn lemma_display_text_shape(m: MenuItem)
    ensures
        m.is_separator ==> menu_item_text(m) == "---separator---"@,
        !m.is_separator && m.command_string is None ==> menu_item_text(m) == m.label@,
        m.command_string matches Some(v) ==> (!m.is_separator ==> menu_item_text(m) == m.label@
            + " ["@ + v@ + "]"@),
{
}

} // verus!
