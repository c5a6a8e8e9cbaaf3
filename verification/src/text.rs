//! Text handed to and received from the shell: NUL-terminated ANSI buffers,
//! menu labels with accelerator markers, and extended-length path prefixes.

use vstd::prelude::*;
use crate::wide::{decode_utf16_lossy, decode_wide_lossy, push_char};

verus! {

/// The text that `String::from_utf8_lossy` makes of a byte sequence.
pub uninterp spec fn utf8_lossy(bytes: Seq<u8>) -> Seq<char>;

/// `c` is the replacement character, or its UTF-8 encoding occurs in
/// `bytes`.
pub open spec fn char_from_input(bytes: Seq<u8>, c: char) -> bool {
    ||| c == crate::wide::REPLACEMENT_CHARACTER
    ||| exists|k: int|
        0 <= k && k + vstd::utf8::encode_scalar(c as u32).len() <= bytes.len() && #[trigger] bytes.subrange(
            k,
            k + vstd::utf8::encode_scalar(c as u32).len(),
        ) == vstd::utf8::encode_scalar(c as u32)
}

/// True when the text holds no NUL character.
pub open spec fn no_nul_char(s: Seq<char>) -> bool {
    forall|j: int| 0 <= j < s.len() ==> s[j] != '\0'
}

/// Converts bytes to text, replacing invalid UTF-8 with U+FFFD.
///
/// Calls `String::from_utf8_lossy`. Its result is named by [`utf8_lossy`], a
/// function of the bytes alone. std documents that valid UTF-8 is converted
/// to exactly the text it encodes and that invalid sequences are replaced
/// with U+FFFD: so every character of the result is U+FFFD or a character
/// whose encoding occurs in the input. How many replacement characters an
/// invalid stretch gives is left unsaid.
#[verifier::external_body]
fn from_utf8_lossy(bytes: &[u8]) -> (res: String)
    ensures
        res@ == utf8_lossy(bytes@),
        vstd::utf8::valid_utf8(bytes@) ==> res@ == vstd::utf8::decode_utf8(bytes@),
        forall|j: int| 0 <= j < res@.len() ==> char_from_input(bytes@, #[trigger] res@[j]),
{
    String::from_utf8_lossy(bytes).into_owned()
}

/// Text that comes from bytes without a 0 byte holds no NUL character: the
/// only encoding of U+0000 is the byte 0.
pub proof fn lemma_no_nul_from_input(bytes: Seq<u8>, c: char)
    requires
        forall|i: int| 0 <= i < bytes.len() ==> bytes[i] != 0,
        char_from_input(bytes, c),
    ensures
        c != '\0',
{
    if c == '\0' {
        assert(0u32 & 0x7F == 0) by (bit_vector);
        assert(vstd::utf8::encode_scalar(0u32) == seq![0u8]);
        assert(('\0' as u32) == 0u32);
        let k = choose|k: int|
            0 <= k && k + vstd::utf8::encode_scalar(c as u32).len() <= bytes.len() && #[trigger] bytes.subrange(
                k,
                k + vstd::utf8::encode_scalar(c as u32).len(),
            ) == vstd::utf8::encode_scalar(c as u32);
        assert(bytes.subrange(k, k + 1)[0] == bytes[k]);
    }
}

/// The index of the first NUL byte, or the length when there is none.
pub open spec fn nul_position(b: Seq<u8>) -> int
    decreases b.len(),
{
    if b.len() == 0 {
        0
    } else if b[0] == 0 {
        0
    } else {
        1 + nul_position(b.skip(1))
    }
}

/// The bytes of a NUL-terminated buffer up to (not including) the first NUL.
pub open spec fn until_nul(b: Seq<u8>) -> Seq<u8> {
    b.take(nul_position(b))
}

/// The text of a NUL-terminated ANSI buffer.
pub open spec fn ansi_text(b: Seq<u8>) -> Seq<char> {
    utf8_lossy(until_nul(b))
}

/// `e` is the first NUL position exactly when no NUL precedes it and it is
/// either the end or a NUL.
pub proof fn lemma_nul_position(b: Seq<u8>, e: int)
    requires
        0 <= e <= b.len(),
        forall|j: int| 0 <= j < e ==> b[j] != 0,
        e == b.len() || b[e] == 0,
    ensures
        nul_position(b) == e,
    decreases b.len(),
{
    if b.len() > 0 && e > 0 {
        lemma_nul_position(b.skip(1), e - 1);
    }
}

/// Whatever follows the first NUL of a buffer does not change its text.
pub proof fn lemma_ansi_text_ignores_tail(head: Seq<u8>, tail: Seq<u8>)
    requires
        forall|j: int| 0 <= j < head.len() ==> head[j] != 0,
    ensures
        ansi_text(head + seq![0u8] + tail) == ansi_text(head),
{
    let b = head + seq![0u8] + tail;
    lemma_nul_position(b, head.len() as int);
    lemma_nul_position(head, head.len() as int);
    assert(b.take(head.len() as int) =~= head);
    assert(head.take(head.len() as int) =~= head);
}

/// Converts a NUL-terminated `&[u8]` (ANSI) buffer to a `String`, stopping at
/// the first NUL byte.
pub fn ansi_buf_to_string(buf: &[u8]) -> (res: String)
    ensures
        res@ == ansi_text(buf@),
        vstd::utf8::valid_utf8(until_nul(buf@)) ==> res@ == vstd::utf8::decode_utf8(
            until_nul(buf@),
        ),
        no_nul_char(res@),
{
    let n = buf.len();
    let mut end: usize = 0;
    while end < n && buf[end] != 0
        invariant
            n == buf@.len(),
            end <= n,
            forall|j: int| 0 <= j < end ==> buf@[j] != 0,
        decreases n - end,
    {
        end = end + 1;
    }
    proof {
        lemma_nul_position(buf@, end as int);
    }
    let mut head: Vec<u8> = Vec::new();
    let mut i: usize = 0;
    while i < end
        invariant
            n == buf@.len(),
            i <= end <= n,
            head@ == buf@.take(i as int),
        decreases end - i,
    {
        head.push(buf[i]);
        assert(buf@.take(i + 1) =~= buf@.take(i as int).push(buf@[i as int]));
        i = i + 1;
    }
    assert(head@ == until_nul(buf@));
    let text = from_utf8_lossy(head.as_slice());
    assert forall|j: int| 0 <= j < text@.len() implies text@[j] != '\0' by {
        lemma_no_nul_from_input(head@, text@[j]);
    }
    text
}

/// The verb text of a `GetCommandString` answer: `None` when the call failed
/// or the verb is empty, the text before the first NUL otherwise.
pub open spec fn verb_text(answer: Option<Seq<u8>>) -> Option<Seq<char>> {
    match answer {
        None => None,
        Some(b) => if ansi_text(b).len() == 0 {
            None
        } else {
            Some(ansi_text(b))
        },
    }
}

/// The view of an optional string.
pub open spec fn opt_string_view(s: Option<String>) -> Option<Seq<char>> {
    match s {
        None => None,
        Some(t) => Some(t@),
    }
}

/// The view of an optional byte buffer.
pub open spec fn opt_bytes_view(b: Option<Vec<u8>>) -> Option<Seq<u8>> {
    match b {
        None => None,
        Some(v) => Some(v@),
    }
}

/// The verb named by the decoded text of a `GetCommandString` buffer: none
/// when the text is empty.
pub fn verb_from_text(text: String) -> (res: Option<String>)
    ensures
        res is None <==> text@.len() == 0,
        res matches Some(v) ==> v@ == text@ && v@.len() > 0,
{
    if text.as_str().is_empty() {
        None
    } else {
        Some(text)
    }
}

/// Turns the answer of `GetCommandString(GCS_VERBA)` into a verb: `None`
/// when the handler reported an error (`answer` is `None`) or wrote an empty
/// string.
pub fn verb_from_answer(answer: &Option<Vec<u8>>) -> (res: Option<String>)
    ensures
        opt_string_view(res) == verb_text(opt_bytes_view(*answer)),
        res matches Some(v) ==> v@.len() > 0 && no_nul_char(v@),
{
    match answer {
        None => None,
        Some(buf) => verb_from_text(ansi_buf_to_string(buf.as_slice())),
    }
}

/// The sequence with every occurrence of `c` removed.
pub open spec fn remove_char(s: Seq<char>, c: char) -> Seq<char>
    decreases s.len(),
{
    if s.len() == 0 {
        seq![]
    } else if s.last() == c {
        remove_char(s.drop_last(), c)
    } else {
        remove_char(s.drop_last(), c).push(s.last())
    }
}

/// The accelerator marker of menu labels.
pub const ACCELERATOR_MARKER: char = '&';

/// The display label of a menu entry: its UTF-16 text with every accelerator
/// marker removed.
pub open spec fn clean_label(units: Seq<u16>) -> Seq<char> {
    remove_char(decode_utf16_lossy(units), ACCELERATOR_MARKER)
}

/// No removed character is left.
pub proof fn lemma_remove_char_absent(s: Seq<char>, c: char)
    ensures
        forall|i: int| 0 <= i < remove_char(s, c).len() ==> remove_char(s, c)[i] != c,
    decreases s.len(),
{
    if s.len() > 0 {
        lemma_remove_char_absent(s.drop_last(), c);
        let r = remove_char(s.drop_last(), c);
        if s.last() != c {
            assert forall|i: int| 0 <= i < r.push(s.last()).len() implies r.push(s.last())[i]
                != c by {
                if i < r.len() {
                    assert(r.push(s.last())[i] == r[i]);
                }
            }
        }
    }
}

/// Removing a character that does not occur changes nothing.
pub proof fn lemma_remove_char_noop(s: Seq<char>, c: char)
    requires
        forall|i: int| 0 <= i < s.len() ==> s[i] != c,
    ensures
        remove_char(s, c) == s,
    decreases s.len(),
{
    if s.len() > 0 {
        lemma_remove_char_noop(s.drop_last(), c);
        assert(s.drop_last().push(s.last()) =~= s);
    }
}

/// Cleaning a label twice is cleaning it once, and a cleaned label holds no
/// accelerator marker.
pub proof fn lemma_label_clean_idempotent(s: Seq<char>)
    ensures
        remove_char(remove_char(s, ACCELERATOR_MARKER), ACCELERATOR_MARKER) == remove_char(
            s,
            ACCELERATOR_MARKER,
        ),
        forall|i: int|
            0 <= i < remove_char(s, ACCELERATOR_MARKER).len() ==> remove_char(
                s,
                ACCELERATOR_MARKER,
            )[i] != ACCELERATOR_MARKER,
{
    lemma_remove_char_absent(s, ACCELERATOR_MARKER);
    lemma_remove_char_noop(remove_char(s, ACCELERATOR_MARKER), ACCELERATOR_MARKER);
}

/// The predicate "is not `c`".
pub open spec fn other_than(c: char) -> spec_fn(char) -> bool {
    |x: char| x != c
}

/// Removing a character keeps every other character, in order, and
/// nothing else: it is the filter that drops that character.
pub proof fn lemma_remove_char_is_filter(s: Seq<char>, c: char)
    ensures
        remove_char(s, c) == s.filter(other_than(c)),
    decreases s.len(),
{
    reveal_with_fuel(Seq::<char>::filter, 1);
    if s.len() == 0 {
        assert(remove_char(s, c) =~= s);
    } else {
        lemma_remove_char_is_filter(s.drop_last(), c);
        assert(other_than(c)(s.last()) == (s.last() != c));
    }
}

/// A menu label is the decoded menu text with exactly the accelerator
/// markers dropped: every other character is kept, in order.
pub proof fn lemma_clean_label_drops_only_markers(units: Seq<u16>)
    ensures
        clean_label(units) == decode_utf16_lossy(units).filter(other_than(ACCELERATOR_MARKER)),
{
    lemma_remove_char_is_filter(decode_utf16_lossy(units), ACCELERATOR_MARKER);
}

/// Decodes a menu label read with `GetMenuItemInfoW` and strips the `&`
/// accelerator markers from it.
pub fn menu_label(units: &[u16]) -> (res: String)
    ensures
        res@ == clean_label(units@),
        res@ == decode_utf16_lossy(units@).filter(other_than(ACCELERATOR_MARKER)),
        forall|i: int| 0 <= i < res@.len() ==> res@[i] != ACCELERATOR_MARKER,
{
    let decoded = decode_wide_lossy(units);
    let text = decoded.as_str();
    let n = text.unicode_len();
    let mut out = String::new();
    let mut i: usize = 0;
    while i < n
        invariant
            n == text@.len(),
            text@ == decode_utf16_lossy(units@),
            i <= n,
            out@ == remove_char(text@.take(i as int), ACCELERATOR_MARKER),
        decreases n - i,
    {
        let c = text.get_char(i);
        assert(text@.take(i + 1).drop_last() =~= text@.take(i as int));
        if c != ACCELERATOR_MARKER {
            push_char(&mut out, c);
        }
        i = i + 1;
    }
    assert(text@.take(n as int) =~= text@);
    proof {
        lemma_remove_char_absent(text@, ACCELERATOR_MARKER);
        lemma_clean_label_drops_only_markers(units@);
    }
    out
}

/// The `\\?\` prefix that `std::fs::canonicalize` puts before Windows paths.
pub open spec fn extended_prefix() -> Seq<char> {
    seq!['\\', '\\', '?', '\\']
}

/// True when the text starts with the extended-length prefix.
pub open spec fn starts_with_extended_prefix(s: Seq<char>) -> bool {
    s.len() >= 4 && s.take(4) == extended_prefix()
}

/// Tells whether a path starts with the `\\?\` extended-length prefix.
pub fn has_extended_prefix(path: &str) -> (res: bool)
    ensures
        res == starts_with_extended_prefix(path@),
{
    let n = path.unicode_len();
    if n < 4 {
        return false;
    }
    let r = path.get_char(0) == '\\' && path.get_char(1) == '\\' && path.get_char(2) == '?'
        && path.get_char(3) == '\\';
    assert(r ==> path@.take(4) =~= extended_prefix());
    assert(path@.take(4) == extended_prefix() ==> path@.take(4)[2] == '?');
    r
}

/// Strips the `\\?\` extended-length prefix that `std::fs::canonicalize`
/// adds on Windows; `SHParseDisplayName` does not accept it. A path without
/// the prefix is returned unchanged.
pub fn strip_extended_prefix(path: &str) -> (res: String)
    ensures
        res@ == (if starts_with_extended_prefix(path@) {
            path@.skip(4)
        } else {
            path@
        }),
{
    if has_extended_prefix(path) {
        let n = path.unicode_len();
        let rest = path.substring_char(4, n);
        assert(path@.subrange(4, n as int) =~= path@.skip(4));
        String::from_str(rest)
    } else {
        String::from_str(path)
    }
}

/// Stripping the prefix from a prefixed path gives the path back.
pub proof fn lemma_strip_prefixed(p: Seq<char>)
    ensures
        starts_with_extended_prefix(extended_prefix() + p),
        (extended_prefix() + p).skip(4) == p,
{
    assert((extended_prefix() + p).take(4) =~= extended_prefix());
    assert((extended_prefix() + p).skip(4) =~= p);
}

/// The UTF-8 bytes of `s` followed by a NUL byte, the form of the ANSI verb
/// field of `CMINVOKECOMMANDINFOEX`.
pub fn to_bytes_nul(s: &str) -> (res: Vec<u8>)
    ensures
        res@ == vstd::utf8::encode_utf8(s@).push(0u8),
{
    let mut out = vstd::slice::slice_to_vec(s.as_bytes());
    out.push(0u8);
    out
}

} // verus!
