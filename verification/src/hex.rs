//! A short hexadecimal rendering of byte strings, for messages.

use vstd::prelude::*;

verus! {

/// The lower-case hexadecimal digit for a value below sixteen.
pub open spec fn hex_digit(nibble: u8) -> char
    recommends
        nibble < 16,
{
    if nibble < 10 {
        (48 + nibble) as char
    } else {
        (87 + nibble) as char
    }
}

/// Two digits for each byte, the high half first.
pub open spec fn hex_text(bytes: Seq<u8>) -> Seq<char> {
    Seq::new(
        2 * bytes.len(),
        |i: int|
            if i % 2 == 0 {
                hex_digit(bytes[i / 2] / 16)
            } else {
                hex_digit(bytes[i / 2] % 16)
            },
    )
}

/// The rendering of `data` that `hex_encode_8` gives: the digits of the first
/// eight bytes, and three dots where more bytes follow.
pub open spec fn short_hex(data: Seq<u8>) -> Seq<char> {
    if data.len() > 8 {
        hex_text(data.take(8)) + seq!['.', '.', '.']
    } else {
        hex_text(data)
    }
}

/// Calls `String::push`. Believed, not proved: the character is appended at
/// the end and the rest of the text stays as it was.
#[verifier::external_body]
fn push_char(text: &mut String, c: char)
    ensures
        final(text)@ == old(text)@.push(c),
{
    text.push(c);
}

fn digit_for(nibble: u8) -> (c: char)
    requires
        nibble < 16,
    ensures
        c == hex_digit(nibble),
{
    if nibble < 10 {
        (48 + nibble) as char
    } else {
        (87 + nibble) as char
    }
}

/// Renders at most the first eight bytes of `data` in hexadecimal, and marks
/// with three dots that `data` goes on.
pub fn hex_encode_8(data: &[u8]) -> (text: String)
    ensures
        text@ == short_hex(data@),
{
    let shown: usize = if data.len() > 8 {
        8
    } else {
        data.len()
    };
    let mut text = String::new();
    let mut i: usize = 0;
    while i < shown
        invariant
            i <= shown <= data@.len(),
            text@ == hex_text(data@.take(i as int)),
        decreases shown - i,
    {
        let byte: u8 = data[i];
        push_char(&mut text, digit_for(byte / 16));
        push_char(&mut text, digit_for(byte % 16));
        assert(text@ =~= hex_text(data@.take(i + 1)));
        i += 1;
    }
    if data.len() > 8 {
        push_char(&mut text, '.');
        push_char(&mut text, '.');
        push_char(&mut text, '.');
        assert(text@ =~= short_hex(data@));
    } else {
        assert(data@.take(shown as int) == data@);
    }
    text
}

} // verus!
