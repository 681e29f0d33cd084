//! What the scan reads is what was written: a reply that repeats the id of
//! a request is recognised as the reply to that request, and a notification
//! that names a channel is recognised under that name.

use vstd::prelude::*;
use vstd::string::*;
use vstd::utf8::*;
use crate::envelope::{decimal, digit_char};
use crate::scan::{channel_key, channel_shape, decimal_value, ends_value, id_key, id_shape, is_digit, is_name_byte, lemma_digit_run, lemma_name_run, shape_of, Shape};

verus! {

/// Encoding goes through concatenation.
pub proof fn lemma_encode_concat(front: Seq<char>, back: Seq<char>)
    ensures
        encode_utf8(front + back) == encode_utf8(front) + encode_utf8(back),
    decreases front.len(),
{
    if front.len() == 0 {
        assert(front + back =~= back);
        assert(encode_utf8(front) + encode_utf8(back) =~= encode_utf8(back));
    } else {
        lemma_encode_concat(front.drop_first(), back);
        assert((front + back).drop_first() =~= front.drop_first() + back);
        assert((front + back)[0] == front[0]);
        assert(encode_utf8(front + back) =~= encode_utf8(front) + encode_utf8(back));
    }
}

/// A number in decimal is one byte per digit, and the digits write the
/// number.
pub proof fn lemma_decimal_bytes(n: nat)
    ensures
        is_ascii_chars(decimal(n)),
        encode_utf8(decimal(n)).len() == decimal(n).len(),
        decimal(n).len() > 0,
        forall|i: int|
            0 <= i < decimal(n).len() ==> is_digit(#[trigger] encode_utf8(decimal(n))[i]),
        decimal_value(encode_utf8(decimal(n))) == n,
    decreases n,
{
    let text = decimal(n);
    if n < 10 {
        assert(text =~= seq![digit_char(n)]);
        assert(is_ascii_chars(text));
        is_ascii_chars_encode_utf8(text);
        let bytes = encode_utf8(text);
        assert(bytes[0] == text[0] as u8);
        assert(bytes.drop_last() =~= Seq::<u8>::empty());
        assert(decimal_value(bytes.drop_last()) == 0);
        assert(decimal_value(bytes) == n);
    } else {
        let front = decimal(n / 10);
        let last = digit_char(n % 10);
        lemma_decimal_bytes(n / 10);
        assert(text =~= front.push(last));
        assert(is_ascii_chars(text)) by {
            assert forall|i: int| 0 <= i < text.len() implies '\0' <= #[trigger] text[i]
                <= '\u{7f}' by {
                if i < front.len() {
                    assert(text[i] == front[i]);
                }
            }
        }
        is_ascii_chars_encode_utf8(text);
        is_ascii_chars_encode_utf8(front);
        let bytes = encode_utf8(text);
        let front_bytes = encode_utf8(front);
        assert(bytes.drop_last() =~= front_bytes) by {
            assert forall|i: int| 0 <= i < front_bytes.len() implies bytes.drop_last()[i]
                == front_bytes[i] by {
                assert(bytes[i] == text[i] as u8);
                assert(front_bytes[i] == front[i] as u8);
            }
        }
        assert(bytes.last() == last as u8) by {
            assert(bytes[text.len() - 1] == text[text.len() - 1] as u8);
        }
        assert forall|i: int| 0 <= i < text.len() implies is_digit(#[trigger] bytes[i]) by {
            if i < front.len() {
                assert(bytes[i] == bytes.drop_last()[i]);
            }
        }
        assert(decimal_value(bytes) == 10 * decimal_value(front_bytes) + (n % 10));
    }
}

/// The id written is the id read back. A payload that opens with `{"id":`,
/// goes on with a 64-bit number in decimal and then with a `,` or a `}`, is
/// the reply to the request with that number, whatever follows.
pub proof fn lemma_reply_echoes_id(id: u64, rest: Seq<char>)
    requires
        rest.len() > 0,
        rest[0] == ',' || rest[0] == '}',
    ensures
        shape_of(encode_utf8("{\"id\":"@ + decimal(id as nat) + rest)) == Shape::Reply(id),
{
    let key = "{\"id\":"@;
    let number = decimal(id as nat);
    let payload = encode_utf8(key + number + rest);
    lemma_encode_concat(key + number, rest);
    lemma_encode_concat(key, number);
    lemma_decimal_bytes(id as nat);
    let digits = encode_utf8(number);
    let tail = encode_utf8(rest);
    assert(payload == id_key() + digits + tail);
    assert(tail.len() > 0 && ends_value(tail[0])) by {
        let first = seq![rest[0]];
        assert(rest =~= first + rest.drop_first());
        lemma_encode_concat(first, rest.drop_first());
        assert(is_ascii_chars(first));
        is_ascii_chars_encode_utf8(first);
        assert(encode_utf8(first)[0] == first[0] as u8);
        assert(tail[0] == encode_utf8(first)[0]);
    }
    let after_key = payload.skip(id_key().len() as int);
    assert(after_key =~= digits + tail);
    assert(payload.subrange(0, id_key().len() as int) =~= id_key());
    assert(id_key().is_prefix_of(payload));
    let n = digits.len() as int;
    assert forall|k: int| 0 <= k < n implies is_digit(#[trigger] after_key[k]) by {
        assert(after_key[k] == digits[k]);
    }
    assert(after_key[n] == tail[0]);
    lemma_digit_run(after_key, n);
    assert(after_key.take(n) =~= digits);
    assert(id_shape(after_key) == Shape::Reply(id));
}

/// A character that may stand in a channel name as it is: anything but the
/// quote, the backslash and the control characters.
pub open spec fn is_name_char(c: char) -> bool {
    c != '"' && c != '\\' && c >= ' '
}

/// The one byte of a character below 128 is the character itself.
proof fn lemma_single_byte(scalar: u32)
    by (bit_vector)
    requires
        scalar <= 0x7F,
    ensures
        (scalar & 0x7F) as u8 == scalar,
{
}

/// A byte with its top bit set is at least 128.
proof fn lemma_high_bytes(bits: u8)
    by (bit_vector)
    ensures
        0x80u8 | bits >= 0x80u8,
        0xC0u8 | bits >= 0x80u8,
        0xE0u8 | bits >= 0x80u8,
        0xF0u8 | bits >= 0x80u8,
{
}

/// Every byte that encodes a name character is a name byte.
pub proof fn lemma_name_char_bytes(c: char)
    requires
        is_name_char(c),
    ensures
        forall|k: int|
            0 <= k < encode_scalar(c as u32).len() ==> is_name_byte(
                #[trigger] encode_scalar(c as u32)[k],
            ),
{
    let scalar = c as u32;
    if has_width_1_encoding(scalar) {
        lemma_single_byte(scalar);
    } else {
        lemma_high_bytes(((scalar >> 6) & 0x1F) as u8);
        lemma_high_bytes(((scalar >> 12) & 0x0F) as u8);
        lemma_high_bytes(((scalar >> 18) & 0x7) as u8);
        lemma_high_bytes((scalar & 0x3F) as u8);
        lemma_high_bytes(((scalar >> 6) & 0x3F) as u8);
        lemma_high_bytes(((scalar >> 12) & 0x3F) as u8);
    }
}

/// Every byte of a name made of name characters is a name byte.
pub proof fn lemma_name_bytes(name: Seq<char>)
    requires
        forall|i: int| 0 <= i < name.len() ==> is_name_char(#[trigger] name[i]),
    ensures
        forall|k: int|
            0 <= k < encode_utf8(name).len() ==> is_name_byte(#[trigger] encode_utf8(name)[k]),
    decreases name.len(),
{
    if name.len() > 0 {
        let head = encode_scalar(name[0] as u32);
        let tail = name.drop_first();
        assert forall|i: int| 0 <= i < tail.len() implies is_name_char(#[trigger] tail[i]) by {
            assert(tail[i] == name[i + 1]);
        }
        lemma_name_bytes(tail);
        assert(is_name_char(name[0]));
        lemma_name_char_bytes(name[0]);
        assert forall|k: int| 0 <= k < encode_utf8(name).len() implies is_name_byte(
            #[trigger] encode_utf8(name)[k],
        ) by {
            if k >= head.len() {
                assert(encode_utf8(name)[k] == encode_utf8(tail)[k - head.len()]);
            } else {
                assert(encode_utf8(name)[k] == head[k]);
            }
        }
    }
}

/// The name written is the name read back. A payload that opens with
/// `{"channel_name":"`, goes on with a name made of name characters and then
/// with the closing quote, is a notification on the channel of that name,
/// whatever follows.
pub proof fn lemma_notification_names_channel(name: Seq<char>, rest: Seq<char>)
    requires
        forall|i: int| 0 <= i < name.len() ==> is_name_char(#[trigger] name[i]),
    ensures
        shape_of(encode_utf8("{\"channel_name\":\""@ + name + "\""@ + rest))
            == Shape::Notification(name),
{
    let key = "{\"channel_name\":\""@;
    let quote = "\""@;
    let payload = encode_utf8(key + name + quote + rest);
    lemma_encode_concat(key + name + quote, rest);
    lemma_encode_concat(key + name, quote);
    lemma_encode_concat(key, name);
    lemma_name_bytes(name);
    crate::scan::lemma_keys();
    let name_bytes = encode_utf8(name);
    let tail = encode_utf8(quote) + encode_utf8(rest);
    assert(encode_utf8(quote)[0] == 0x22u8 && encode_utf8(quote).len() == 1) by {
        reveal_strlit("\"");
        assert(is_ascii_chars(quote));
        is_ascii_chars_encode_utf8(quote);
        assert(encode_utf8(quote)[0] == quote[0] as u8);
    }
    assert(payload =~= channel_key() + name_bytes + tail);
    assert(payload.subrange(0, channel_key().len() as int) =~= channel_key());
    assert(channel_key().is_prefix_of(payload));
    assert(!id_key().is_prefix_of(payload)) by {
        if id_key().is_prefix_of(payload) {
            reveal_strlit("{\"channel_name\":\"");
            is_ascii_spec_bytes("{\"channel_name\":\"");
            assert(payload.subrange(0, 6)[2] == id_key()[2]);
            assert(payload[2] == channel_key()[2]);
            assert(false);
        }
    }
    let after_key = payload.skip(channel_key().len() as int);
    assert(after_key =~= name_bytes + tail);
    let n = name_bytes.len() as int;
    assert forall|k: int| 0 <= k < n implies is_name_byte(#[trigger] after_key[k]) by {
        assert(after_key[k] == name_bytes[k]);
    }
    assert(after_key[n] == 0x22u8);
    lemma_name_run(after_key, n);
    assert(after_key.take(n) =~= name_bytes);
    encode_utf8_decode_utf8(name);
    assert(channel_shape(after_key) == Shape::Notification(name));
}

} // verus!
