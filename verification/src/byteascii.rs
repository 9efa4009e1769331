//! Bytes printed in a mostly ASCII form.
//!
//! The printable ASCII characters stand for themselves, but for the
//! backslash, which is doubled. The bytes 0, 9, 10 and 13 are printed as `\0`,
//! `\t`, `\n` and `\r`. Every other byte is printed as `\x` and its two
//! lower-case hexadecimal digits.

use vstd::prelude::*;

verus! {

/// Appending a character to a string appends it to its text.
pub assume_specification[ String::push ](text: &mut String, c: char)
    ensures
        final(text)@ == old(text)@.push(c),
;

/// The lower-case hexadecimal digit for a number below 16.
pub open spec fn hex_digit(n: u8) -> char {
    if n < 10 {
        (0x30 + n) as char
    } else {
        (0x61 + (n - 10)) as char
    }
}

/// The printed form of one byte.
pub open spec fn printed_byte(b: u8) -> Seq<char> {
    if b == 0 {
        seq!['\\', '0']
    } else if b == 9 {
        seq!['\\', 't']
    } else if b == 10 {
        seq!['\\', 'n']
    } else if b == 13 {
        seq!['\\', 'r']
    } else if b == 0x5c {
        seq!['\\', '\\']
    } else if 0x20 <= b <= 0x7e {
        seq![b as char]
    } else {
        seq!['\\', 'x', hex_digit(b / 16), hex_digit(b % 16)]
    }
}

/// The printed form of a sequence of bytes: the printed forms of its bytes,
/// one after the other.
pub open spec fn printed(bytes: Seq<u8>) -> Seq<char> {
    bytes.map_values(|b: u8| printed_byte(b)).flatten()
}

/// The lower-case hexadecimal digit for a number below 16.
fn hex_char(n: u8) -> (c: char)
    requires
        n < 16,
    ensures
        c == hex_digit(n),
{
    if n < 10 {
        (0x30 + n) as char
    } else {
        (0x61 + (n - 10)) as char
    }
}

/// Appends the printed form of one byte to `text`.
fn push_printed(text: &mut String, b: u8)
    ensures
        final(text)@ == old(text)@ + printed_byte(b),
{
    if b == 0 {
        text.push('\\');
        text.push('0');
    } else if b == 9 {
        text.push('\\');
        text.push('t');
    } else if b == 10 {
        text.push('\\');
        text.push('n');
    } else if b == 13 {
        text.push('\\');
        text.push('r');
    } else if b == 0x5c {
        text.push('\\');
        text.push('\\');
    } else if 0x20 <= b && b <= 0x7e {
        text.push(b as char);
    } else {
        text.push('\\');
        text.push('x');
        text.push(hex_char(b / 16));
        text.push(hex_char(b % 16));
    }
    assert(text@ =~= old(text)@ + printed_byte(b));
}

/// Prints a byte sequence as an ASCII string.
pub fn byteascii(bytes: &[u8]) -> (r: String)
    ensures
        r@ == printed(bytes@),
{
    let mut text = String::new();
    let ghost forms = bytes@.map_values(|b: u8| printed_byte(b));
    let mut i: usize = 0;
    assert(forms.take(0) =~= Seq::empty());
    while i < bytes.len()
        invariant
            i <= bytes.len(),
            forms == bytes@.map_values(|b: u8| printed_byte(b)),
            text@ == forms.take(i as int).flatten(),
        decreases bytes.len() - i,
    {
        push_printed(&mut text, bytes[i]);
        proof {
            forms.take(i as int).lemma_flatten_push(forms[i as int]);
            assert(forms.take(i + 1) =~= forms.take(i as int).push(forms[i as int]));
        }
        i = i + 1;
    }
    assert(forms.take(i as int) =~= forms);
    text
}

/// Bytes that are printed as [`byteascii`] prints them.
pub struct ByteAscii<B>(pub B);

impl ByteAscii<Vec<u8>> {
    /// The printed form of the bytes.
    pub fn to_string(&self) -> (r: String)
        ensures
            r@ == printed(self.0@),
    {
        byteascii(self.0.as_slice())
    }
}

impl<'a> ByteAscii<&'a [u8]> {
    /// The printed form of the bytes.
    pub fn to_string(&self) -> (r: String)
        ensures
            r@ == printed(self.0@),
    {
        byteascii(self.0)
    }
}

} // verus!
