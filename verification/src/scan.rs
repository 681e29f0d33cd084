//! The structural scan of an inbound payload.
//!
//! Two shapes carry nearly all traffic: the reply to a request, which opens
//! with its numeric `id`, and the notification, which opens with its
//! `channel_name`. Both are recognised from the leading bytes alone, without
//! decoding the payload.

use vstd::prelude::*;
use vstd::slice::slice_subrange;
use vstd::string::*;
use vstd::utf8::*;

verus! {

broadcast use {
    vstd::seq::group_seq_axioms,
    vstd::slice::group_slice_axioms,
    vstd::utf8::encode_utf8_valid_utf8,
    vstd::utf8::encode_utf8_decode_utf8,
};

/// What the leading bytes of a payload say it is.
pub enum Shape {
    /// A reply that carries this request id.
    Reply(u64),
    /// A reply whose id is `null`: an answer that no request waits for.
    ControlReply,
    /// A notification on the channel with this name.
    Notification(Seq<char>),
    /// Neither of the shapes above.
    Unhandled,
}

/// What a reply says of the request that it answers.
#[derive(PartialEq, Eq, Structural, Clone, Copy, Debug)]
pub enum ReplyKind {
    /// The reply carries a `result`: the request was carried out.
    Success,
    /// The reply carries an `error` object: the request was refused.
    Failure,
    /// The payload is no reply, or carries neither.
    Other,
}

/// The result of scanning a payload; the channel name borrows from it.
#[derive(Debug, PartialEq, Eq, Clone, Copy)]
pub enum Frame<'a> {
    Reply(u64),
    ControlReply,
    Notification(&'a str),
    Unhandled,
}

impl<'a> View for Frame<'a> {
    type V = Shape;

    open spec fn view(&self) -> Shape {
        match *self {
            Frame::Reply(id) => Shape::Reply(id),
            Frame::ControlReply => Shape::ControlReply,
            Frame::Notification(name) => Shape::Notification(name@),
            Frame::Unhandled => Shape::Unhandled,
        }
    }
}

/// The bytes that open a reply: `{"id":`.
pub open spec fn id_key() -> Seq<u8> {
    "{\"id\":".spec_bytes()
}

/// The bytes that open a notification: `{"channel_name":"`.
pub open spec fn channel_key() -> Seq<u8> {
    "{\"channel_name\":\"".spec_bytes()
}

/// The bytes of the word `null`.
pub open spec fn null_word() -> Seq<u8> {
    "null".spec_bytes()
}

/// An ASCII decimal digit.
pub open spec fn is_digit(b: u8) -> bool {
    0x30 <= b <= 0x39
}

/// A byte that may stand inside a channel name as it is: anything but the
/// closing quote, the escape character and the control characters.
pub open spec fn is_name_byte(b: u8) -> bool {
    b != 0x22 && b != 0x5c && b >= 0x20
}

/// The byte that may follow a value inside an object: `,` or `}`.
pub open spec fn ends_value(b: u8) -> bool {
    b == 0x2c || b == 0x7d
}

/// How many leading bytes of `s` are decimal digits.
pub open spec fn digit_run(s: Seq<u8>) -> nat
    decreases s.len(),
{
    if s.len() > 0 && is_digit(s[0]) {
        1 + digit_run(s.skip(1))
    } else {
        0
    }
}

/// How many leading bytes of `s` may stand in a channel name.
pub open spec fn name_run(s: Seq<u8>) -> nat
    decreases s.len(),
{
    if s.len() > 0 && is_name_byte(s[0]) {
        1 + name_run(s.skip(1))
    } else {
        0
    }
}

/// The number that a sequence of decimal digits writes.
pub open spec fn decimal_value(digits: Seq<u8>) -> nat
    decreases digits.len(),
{
    if digits.len() == 0 {
        0
    } else {
        10 * decimal_value(digits.drop_last()) + (digits.last() - 0x30) as nat
    }
}

/// The shape of what follows `{"id":`. A run of digits that a `,` or `}`
/// ends and that fits 64 bits is a request id; the word `null`, ended the
/// same way, is the id of a control reply.
pub open spec fn id_shape(rest: Seq<u8>) -> Shape {
    let n = digit_run(rest) as int;
    if n > 0 {
        if n < rest.len() && ends_value(rest[n]) && decimal_value(rest.take(n)) <= u64::MAX {
            Shape::Reply(decimal_value(rest.take(n)) as u64)
        } else {
            Shape::Unhandled
        }
    } else if null_word().is_prefix_of(rest) && 4 < rest.len() && ends_value(rest[4]) {
        Shape::ControlReply
    } else {
        Shape::Unhandled
    }
}

/// The shape of what follows `{"channel_name":"`. The name runs up to the
/// closing quote; a name with an escape or a control character in it is not
/// read here.
pub open spec fn channel_shape(rest: Seq<u8>) -> Shape {
    let n = name_run(rest) as int;
    if n < rest.len() && rest[n] == 0x22 {
        Shape::Notification(decode_utf8(rest.take(n)))
    } else {
        Shape::Unhandled
    }
}

/// The bytes that open the second field of a refused request: `,"error":`.
pub open spec fn error_field() -> Seq<u8> {
    ",\"error\":".spec_bytes()
}

/// The bytes that open the second field of a request carried out:
/// `,"result":`.
pub open spec fn result_field() -> Seq<u8> {
    ",\"result\":".spec_bytes()
}

/// How many bytes the id takes in what follows `{"id":`: those of a run of
/// digits, or of the word `null`; nothing where neither stands there.
pub open spec fn id_width(rest: Seq<u8>) -> Option<int> {
    if digit_run(rest) > 0 {
        Some(digit_run(rest) as int)
    } else if null_word().is_prefix_of(rest) {
        Some(null_word().len() as int)
    } else {
        None
    }
}

/// What a payload says of the request it answers. A reply opens with its
/// id; the field that follows the id says whether the request was carried
/// out or refused.
pub open spec fn reply_kind_of(payload: Seq<u8>) -> ReplyKind {
    if !id_key().is_prefix_of(payload) {
        ReplyKind::Other
    } else {
        match id_width(payload.skip(id_key().len() as int)) {
            None => ReplyKind::Other,
            Some(width) => {
                let field = payload.skip(id_key().len() + width);
                if error_field().is_prefix_of(field) {
                    ReplyKind::Failure
                } else if result_field().is_prefix_of(field) {
                    ReplyKind::Success
                } else {
                    ReplyKind::Other
                }
            },
        }
    }
}

/// The shape of a payload. The reply is looked for first, the notification
/// second.
pub open spec fn shape_of(payload: Seq<u8>) -> Shape {
    if id_key().is_prefix_of(payload) {
        id_shape(payload.skip(id_key().len() as int))
    } else if channel_key().is_prefix_of(payload) {
        channel_shape(payload.skip(channel_key().len() as int))
    } else {
        Shape::Unhandled
    }
}

/// The three keys, byte by byte.
pub proof fn lemma_keys()
    ensures
        id_key() =~= seq![0x7bu8, 0x22u8, 0x69u8, 0x64u8, 0x22u8, 0x3au8],
        channel_key().len() == 17,
        channel_key()[16] == 0x22u8,
        forall|i: int| 0 <= i < 17 ==> #[trigger] channel_key()[i] < 0x80u8,
        null_word() =~= seq![0x6eu8, 0x75u8, 0x6cu8, 0x6cu8],
{
    reveal_strlit("{\"id\":");
    reveal_strlit("{\"channel_name\":\"");
    reveal_strlit("null");
    is_ascii_spec_bytes("{\"id\":");
    is_ascii_spec_bytes("{\"channel_name\":\"");
    is_ascii_spec_bytes("null");
}

/// A run is the length of the longest prefix made of digits.
pub proof fn lemma_digit_run(s: Seq<u8>, n: int)
    requires
        0 <= n <= s.len(),
        forall|k: int| 0 <= k < n ==> is_digit(#[trigger] s[k]),
        n == s.len() || !is_digit(s[n]),
    ensures
        digit_run(s) == n,
    decreases n,
{
    if n > 0 {
        lemma_digit_run(s.skip(1), n - 1);
    }
}

/// A run is the length of the longest prefix made of name bytes.
pub proof fn lemma_name_run(s: Seq<u8>, n: int)
    requires
        0 <= n <= s.len(),
        forall|k: int| 0 <= k < n ==> is_name_byte(#[trigger] s[k]),
        n == s.len() || !is_name_byte(s[n]),
    ensures
        name_run(s) == n,
    decreases n,
{
    if n > 0 {
        lemma_name_run(s.skip(1), n - 1);
    }
}

/// One more digit multiplies the value by ten and adds the digit.
pub proof fn lemma_decimal_value_step(s: Seq<u8>, n: int)
    requires
        0 <= n < s.len(),
    ensures
        decimal_value(s.take(n + 1)) == 10 * decimal_value(s.take(n)) + (s[n] - 0x30) as nat,
{
    assert(s.take(n + 1).drop_last() =~= s.take(n));
}

/// In valid UTF-8 the position behind an ASCII byte that starts a character
/// starts a character too, or ends the text.
pub proof fn lemma_boundary_after_ascii(bytes: Seq<u8>, i: int)
    requires
        valid_utf8(bytes),
        0 <= i < bytes.len(),
        is_char_boundary(bytes, i),
        bytes[i] < 0x80,
    ensures
        is_char_boundary(bytes, i + 1),
    decreases bytes.len(),
{
    reveal_with_fuel(is_char_boundary, 2);
    reveal_with_fuel(valid_utf8, 2);
    if i == 0 {
        assert(length_of_first_scalar(bytes) == 1);
    } else {
        let width = length_of_first_scalar(bytes);
        let tail = pop_first_scalar(bytes);
        if i < width {
            is_char_boundary_iff_not_is_continuation_byte(bytes, i);
            assert(false);
        }
        assert(tail[i - width] == bytes[i]);
        lemma_boundary_after_ascii(tail, i - width);
    }
}

/// Behind a prefix of ASCII bytes a character starts, or the text ends.
pub proof fn lemma_boundary_after_ascii_prefix(bytes: Seq<u8>, n: int)
    requires
        valid_utf8(bytes),
        0 <= n <= bytes.len(),
        forall|k: int| 0 <= k < n ==> #[trigger] bytes[k] < 0x80,
    ensures
        is_char_boundary(bytes, n),
    decreases n,
{
    if n > 0 {
        lemma_boundary_after_ascii_prefix(bytes, n - 1);
        lemma_boundary_after_ascii(bytes, n - 1);
    }
}

/// Whether `bytes` opens with `key`.
pub fn has_prefix(bytes: &[u8], key: &[u8]) -> (found: bool)
    ensures
        found == key@.is_prefix_of(bytes@),
{
    if key.len() > bytes.len() {
        return false;
    }
    let mut i: usize = 0;
    while i < key.len()
        invariant
            i <= key.len() <= bytes.len(),
            forall|k: int| 0 <= k < i ==> key@[k] == bytes@[k],
        decreases key.len() - i,
    {
        if key[i] != bytes[i] {
            assert(bytes@.subrange(0, key@.len() as int)[i as int] != key@[i as int]);
            return false;
        }
        i += 1;
    }
    assert(bytes@.subrange(0, key@.len() as int) =~= key@);
    true
}

/// Whether two texts are the same, character by character.
pub fn same_text(left: &str, right: &str) -> (same: bool)
    ensures
        same == (left@ == right@),
{
    let left_bytes = left.as_bytes();
    let right_bytes = right.as_bytes();
    let same = left_bytes.len() == right_bytes.len() && has_prefix(left_bytes, right_bytes);
    proof {
        if same {
            assert(left.spec_bytes().subrange(0, right.spec_bytes().len() as int)
                =~= left.spec_bytes());
            assert(decode_utf8(left.spec_bytes()) == decode_utf8(right.spec_bytes()));
        }
        if left@ == right@ {
            assert(right.spec_bytes().subrange(0, right.spec_bytes().len() as int)
                =~= right.spec_bytes());
        }
    }
    same
}

/// Tells a reply that carries a result from one that carries an error, by
/// the field that follows its id.
pub fn reply_kind(text: &str) -> (kind: ReplyKind)
    ensures
        kind == reply_kind_of(text.spec_bytes()),
{
    let bytes = text.as_bytes();
    proof {
        lemma_keys();
    }
    if !has_prefix(bytes, "{\"id\":".as_bytes()) {
        return ReplyKind::Other;
    }
    let ghost rest = bytes@.skip(6);
    let mut end: usize = 6;
    while end < bytes.len() && bytes[end] >= 0x30 && bytes[end] <= 0x39
        invariant
            6 <= end <= bytes.len(),
            rest == bytes@.skip(6),
            forall|k: int| 0 <= k < end - 6 ==> is_digit(#[trigger] rest[k]),
        decreases bytes.len() - end,
    {
        end += 1;
    }
    proof {
        lemma_digit_run(rest, end - 6);
    }
    if end == 6 {
        let tail = slice_subrange(bytes, 6, bytes.len());
        assert(tail@ =~= rest);
        if has_prefix(tail, "null".as_bytes()) {
            end = 10;
        } else {
            return ReplyKind::Other;
        }
    }
    let field = slice_subrange(bytes, end, bytes.len());
    assert(field@ =~= bytes@.skip(end as int));
    if has_prefix(field, ",\"error\":".as_bytes()) {
        ReplyKind::Failure
    } else if has_prefix(field, ",\"result\":".as_bytes()) {
        ReplyKind::Success
    } else {
        ReplyKind::Other
    }
}

/// Reads what follows the key of a reply: `bytes` from `start` on.
fn scan_id(bytes: &[u8], start: usize) -> (frame: Frame<'static>)
    requires
        start <= bytes.len(),
    ensures
        frame@ == id_shape(bytes@.skip(start as int)),
{
    let ghost rest = bytes@.skip(start as int);
    let mut i: usize = start;
    let mut value: u64 = 0;
    let mut fits: bool = true;
    while i < bytes.len() && bytes[i] >= 0x30 && bytes[i] <= 0x39
        invariant
            start <= i <= bytes.len(),
            rest == bytes@.skip(start as int),
            forall|k: int| 0 <= k < i - start ==> is_digit(#[trigger] rest[k]),
            fits ==> value == decimal_value(rest.take(i - start)),
            !fits ==> decimal_value(rest.take(i - start)) > u64::MAX,
        decreases bytes.len() - i,
    {
        let digit: u64 = (bytes[i] - 0x30) as u64;
        proof {
            lemma_decimal_value_step(rest, i - start);
        }
        if fits {
            match value.checked_mul(10) {
                Some(tenfold) => match tenfold.checked_add(digit) {
                    Some(next) => {
                        value = next;
                    },
                    None => {
                        fits = false;
                    },
                },
                None => {
                    fits = false;
                },
            }
        }
        i += 1;
    }
    let n: usize = i - start;
    proof {
        lemma_digit_run(rest, n as int);
    }
    if n > 0 {
        if fits && i < bytes.len() && (bytes[i] == 0x2c || bytes[i] == 0x7d) {
            Frame::Reply(value)
        } else {
            Frame::Unhandled
        }
    } else {
        proof {
            lemma_keys();
        }
        let tail = slice_subrange(bytes, start, bytes.len());
        assert(tail@ =~= rest);
        let word: [u8; 4] = [0x6e, 0x75, 0x6c, 0x6c];
        assert(word@ =~= null_word());
        if has_prefix(tail, word.as_slice()) && tail.len() > 4 && (tail[4] == 0x2c || tail[4]
            == 0x7d) {
            Frame::ControlReply
        } else {
            Frame::Unhandled
        }
    }
}

/// Classifies a payload by its leading bytes.
///
/// The result is `Reply` with the id for a payload that opens with
/// `{"id":<digits>`, `ControlReply` for one that opens with `{"id":null`,
/// `Notification` with the channel name for one that opens with
/// `{"channel_name":"<name>"`, and `Unhandled` for everything else.
pub fn classify<'a>(text: &'a str) -> (frame: Frame<'a>)
    ensures
        frame@ == shape_of(text.spec_bytes()),
{
    let bytes = text.as_bytes();
    proof {
        lemma_keys();
    }
    let id_key_bytes = "{\"id\":".as_bytes();
    let channel_key_bytes = "{\"channel_name\":\"".as_bytes();
    if has_prefix(bytes, id_key_bytes) {
        scan_id(bytes, 6)
    } else if has_prefix(bytes, channel_key_bytes) {
        let ghost rest = bytes@.skip(17);
        let mut i: usize = 17;
        while i < bytes.len() && bytes[i] != 0x22 && bytes[i] != 0x5c && bytes[i] >= 0x20
            invariant
                17 <= i <= bytes.len(),
                rest == bytes@.skip(17),
                forall|k: int| 0 <= k < i - 17 ==> is_name_byte(#[trigger] rest[k]),
            decreases bytes.len() - i,
        {
            i += 1;
        }
        proof {
            lemma_name_run(rest, i - 17);
        }
        if i < bytes.len() && bytes[i] == 0x22 {
            proof {
                assert(bytes@.subrange(0, 17) =~= channel_key());
                assert forall|k: int| 0 <= k < 17 implies #[trigger] bytes@[k] < 0x80 by {
                    assert(bytes@[k] == channel_key()[k]);
                }
                lemma_boundary_after_ascii_prefix(bytes@, 17);
                is_char_boundary_iff_not_is_continuation_byte(bytes@, i as int);
            }
            let (head, _) = text.split_at(i);
            proof {
                assert(head.spec_bytes().subrange(0, 17) =~= channel_key());
                assert forall|k: int| 0 <= k < 17 implies #[trigger] head.spec_bytes()[k]
                    < 0x80 by {
                    assert(head.spec_bytes()[k] == channel_key()[k]);
                }
                lemma_boundary_after_ascii_prefix(head.spec_bytes(), 17);
            }
            let (_, name) = head.split_at(17);
            proof {
                assert(name.spec_bytes() =~= rest.take(i - 17));
            }
            Frame::Notification(name)
        } else {
            Frame::Unhandled
        }
    } else {
        Frame::Unhandled
    }
}

} // verus!
