//! The JSON text of claims: strings, numbers, arrays and the members of an object.

use vstd::prelude::*;
use vstd::utf8::encode_utf8;

verus! {

/// The bytes that stand for `byte` inside a JSON string: a quotation mark, a reverse solidus
/// and the control characters are escaped, every other byte stands for itself.
pub open spec fn escape_byte(byte: u8) -> Seq<u8> {
    if byte == 0x22 {
        seq![0x5cu8, 0x22u8]
    } else if byte == 0x5c {
        seq![0x5cu8, 0x5cu8]
    } else if byte == 0x08 {
        seq![0x5cu8, 0x62u8]
    } else if byte == 0x09 {
        seq![0x5cu8, 0x74u8]
    } else if byte == 0x0a {
        seq![0x5cu8, 0x6eu8]
    } else if byte == 0x0c {
        seq![0x5cu8, 0x66u8]
    } else if byte == 0x0d {
        seq![0x5cu8, 0x72u8]
    } else if byte < 0x20 {
        seq![0x5cu8, 0x75u8, 0x30u8, 0x30u8, hex_digit(byte / 16), hex_digit(byte % 16)]
    } else {
        seq![byte]
    }
}

/// The lower-case hexadecimal digit of a value below 16.
pub open spec fn hex_digit(value: u8) -> u8 {
    if value < 10 {
        (0x30 + value) as u8
    } else {
        (0x57 + value) as u8
    }
}

/// `bytes` with every byte escaped for a JSON string.
pub open spec fn escaped(bytes: Seq<u8>) -> Seq<u8>
    decreases bytes.len(),
{
    if bytes.len() == 0 {
        Seq::empty()
    } else {
        escaped(bytes.drop_last()) + escape_byte(bytes.last())
    }
}

/// `text` as a JSON string, between quotation marks.
pub open spec fn json_text(text: Seq<char>) -> Seq<u8> {
    seq![0x22u8] + escaped(encode_utf8(text)) + seq![0x22u8]
}

/// `n` in decimal digits, without leading zeros.
pub open spec fn decimal(n: nat) -> Seq<u8>
    decreases n,
{
    if n < 10 {
        seq![(0x30 + n) as u8]
    } else {
        decimal(n / 10).push((0x30 + n % 10) as u8)
    }
}

/// `items` with a comma between each two of them.
pub open spec fn comma_separated(items: Seq<Seq<u8>>) -> Seq<u8>
    decreases items.len(),
{
    if items.len() == 0 {
        Seq::empty()
    } else if items.len() == 1 {
        items[0]
    } else {
        comma_separated(items.drop_last()) + seq![0x2cu8] + items.last()
    }
}

/// `items` as a JSON array.
pub open spec fn json_list(items: Seq<Seq<u8>>) -> Seq<u8> {
    seq![0x5bu8] + comma_separated(items) + seq![0x5du8]
}

/// A member of a JSON object: the name, which needs no escaping, a colon and the value.
pub open spec fn member(name: Seq<char>, value: Seq<u8>) -> Seq<u8> {
    seq![0x22u8] + encode_utf8(name) + seq![0x22u8, 0x3au8] + value
}

/// Appends `bytes` to `out`.
pub fn write_bytes(out: &mut Vec<u8>, bytes: &[u8])
    ensures
        final(out)@ == old(out)@ + bytes@,
{
    let mut i: usize = 0;
    while i < bytes.len()
        invariant
            i <= bytes@.len(),
            out@ == old(out)@ + bytes@.take(i as int),
        decreases bytes@.len() - i,
    {
        out.push(bytes[i]);
        assert(bytes@.take(i + 1) == bytes@.take(i as int).push(bytes@[i as int]));
        i = i + 1;
    }
    assert(bytes@.take(i as int) == bytes@);
}

fn write_hex_digit(out: &mut Vec<u8>, value: u8)
    requires
        value < 16,
    ensures
        final(out)@ == old(out)@.push(hex_digit(value)),
{
    if value < 10 {
        out.push(0x30 + value);
    } else {
        out.push(0x57 + value);
    }
}

fn write_escaped_byte(out: &mut Vec<u8>, byte: u8)
    ensures
        final(out)@ == old(out)@ + escape_byte(byte),
{
    if byte == 0x22 {
        out.push(0x5c);
        out.push(0x22);
    } else if byte == 0x5c {
        out.push(0x5c);
        out.push(0x5c);
    } else if byte == 0x08 {
        out.push(0x5c);
        out.push(0x62);
    } else if byte == 0x09 {
        out.push(0x5c);
        out.push(0x74);
    } else if byte == 0x0a {
        out.push(0x5c);
        out.push(0x6e);
    } else if byte == 0x0c {
        out.push(0x5c);
        out.push(0x66);
    } else if byte == 0x0d {
        out.push(0x5c);
        out.push(0x72);
    } else if byte < 0x20 {
        out.push(0x5c);
        out.push(0x75);
        out.push(0x30);
        out.push(0x30);
        write_hex_digit(out, byte / 16);
        write_hex_digit(out, byte % 16);
    } else {
        out.push(byte);
    }
    assert(out@ == old(out)@ + escape_byte(byte));
}

/// Appends `text` to `out` as a JSON string.
pub fn write_text(out: &mut Vec<u8>, text: &str)
    ensures
        final(out)@ == old(out)@ + json_text(text@),
{
    let bytes = text.as_bytes();
    out.push(0x22);
    let mut i: usize = 0;
    while i < bytes.len()
        invariant
            i <= bytes@.len(),
            out@ == old(out)@ + seq![0x22u8] + escaped(bytes@.take(i as int)),
        decreases bytes@.len() - i,
    {
        let ghost before = out@;
        write_escaped_byte(out, bytes[i]);
        proof {
            let next = bytes@.take(i + 1);
            assert(next.drop_last() == bytes@.take(i as int));
            assert(next.last() == bytes@[i as int]);
            assert(out@ == old(out)@ + seq![0x22u8] + escaped(next));
        }
        i = i + 1;
    }
    assert(bytes@.take(i as int) == bytes@);
    out.push(0x22);
    assert(out@ == old(out)@ + json_text(text@));
}

/// Appends `n` to `out` in decimal digits.
pub fn write_number(out: &mut Vec<u8>, n: u64)
    ensures
        final(out)@ == old(out)@ + decimal(n as nat),
    decreases n,
{
    if n >= 10 {
        write_number(out, n / 10);
    }
    let digit: u8 = (n % 10) as u8;
    out.push(0x30 + digit);
    assert(out@ == old(out)@ + decimal(n as nat));
}

/// Appends the name of a member and its colon to `out`.
pub fn write_name(out: &mut Vec<u8>, name: &str)
    ensures
        final(out)@ == old(out)@ + member(name@, Seq::empty()),
{
    out.push(0x22);
    write_bytes(out, name.as_bytes());
    out.push(0x22);
    out.push(0x3a);
    assert(out@ == old(out)@ + member(name@, Seq::empty()));
}

} // verus!
