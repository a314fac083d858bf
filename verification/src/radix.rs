//! Numbers spelled as bytes, most significant first, and bytes spelled as
//! pairs of hexadecimal digits.
use vstd::prelude::*;

verus! {

/// The `count` lowest bytes of `value`, most significant first.
pub open spec fn octets(value: nat, count: nat) -> Seq<u8>
    decreases count,
{
    if count == 0 {
        Seq::empty()
    } else {
        octets(value / 256, (count - 1) as nat).push((value % 256) as u8)
    }
}

/// The number that `bytes` spell, most significant first.
pub open spec fn packed(bytes: Seq<u8>) -> nat
    decreases bytes.len(),
{
    if bytes.len() == 0 {
        0
    } else {
        packed(bytes.drop_last()) * 256 + bytes.last() as nat
    }
}

/// How many numbers `count` bytes can spell: 256 to the power `count`.
pub open spec fn capacity(count: nat) -> nat
    decreases count,
{
    if count == 0 {
        1
    } else {
        256 * capacity((count - 1) as nat)
    }
}

pub proof fn lemma_octets_len(value: nat, count: nat)
    ensures
        octets(value, count).len() == count,
    decreases count,
{
    if count > 0 {
        lemma_octets_len(value / 256, (count - 1) as nat);
    }
}

pub proof fn lemma_packed_bound(bytes: Seq<u8>)
    ensures
        packed(bytes) < capacity(bytes.len()),
    decreases bytes.len(),
{
    if bytes.len() > 0 {
        lemma_packed_bound(bytes.drop_last());
    }
}

/// Spelling a number that fits and reading the bytes back gives the number.
pub proof fn lemma_packed_octets(value: nat, count: nat)
    requires
        value < capacity(count),
    ensures
        packed(octets(value, count)) == value,
    decreases count,
{
    if count > 0 {
        let rest = octets(value / 256, (count - 1) as nat);
        lemma_packed_octets(value / 256, (count - 1) as nat);
        assert(octets(value, count).drop_last() =~= rest);
    }
}

/// Reading bytes and spelling the number again, at the same width, gives the bytes.
pub proof fn lemma_octets_packed(bytes: Seq<u8>)
    ensures
        octets(packed(bytes), bytes.len()) == bytes,
    decreases bytes.len(),
{
    if bytes.len() > 0 {
        lemma_octets_packed(bytes.drop_last());
        assert(octets(packed(bytes), bytes.len()) =~= bytes);
    } else {
        assert(octets(packed(bytes), bytes.len()) =~= bytes);
    }
}

pub proof fn lemma_capacity_grows(small: nat, large: nat)
    requires
        small <= large,
    ensures
        capacity(small) <= capacity(large),
        capacity(small) >= 1,
    decreases large,
{
    if small < large {
        lemma_capacity_grows(small, (large - 1) as nat);
    } else if small > 0 {
        lemma_capacity_grows((small - 1) as nat, (small - 1) as nat);
    }
}

/// Sixteen bytes spell exactly the numbers of 128 bits.
pub proof fn lemma_capacity_sixteen()
    ensures
        capacity(16) == 0x1_0000_0000_0000_0000_0000_0000_0000_0000,
{
    assert(capacity(1) == 0x100) by {
        assert(capacity(0) == 1);
    }
    assert(capacity(2) == 0x1_0000);
    assert(capacity(3) == 0x100_0000);
    assert(capacity(4) == 0x1_0000_0000);
    assert(capacity(5) == 0x100_0000_0000);
    assert(capacity(6) == 0x1_0000_0000_0000);
    assert(capacity(7) == 0x100_0000_0000_0000);
    assert(capacity(8) == 0x1_0000_0000_0000_0000);
    assert(capacity(9) == 0x100_0000_0000_0000_0000);
    assert(capacity(10) == 0x1_0000_0000_0000_0000_0000);
    assert(capacity(11) == 0x100_0000_0000_0000_0000_0000);
    assert(capacity(12) == 0x1_0000_0000_0000_0000_0000_0000);
    assert(capacity(13) == 0x100_0000_0000_0000_0000_0000_0000);
    assert(capacity(14) == 0x1_0000_0000_0000_0000_0000_0000_0000);
    assert(capacity(15) == 0x100_0000_0000_0000_0000_0000_0000_0000);
}

/// Reads up to sixteen bytes as one number, most significant byte first.
pub fn pack(bytes: &Vec<u8>) -> (value: u128)
    requires
        bytes.len() <= 16,
    ensures
        value == packed(bytes@),
{
    let mut value: u128 = 0;
    let mut done: usize = 0;
    while done < bytes.len()
        invariant
            done <= bytes.len() <= 16,
            value == packed(bytes@.subrange(0, done as int)),
        decreases bytes.len() - done,
    {
        let ghost head = bytes@.subrange(0, done as int);
        let ghost next = bytes@.subrange(0, done + 1);
        proof {
            assert(next.drop_last() =~= head);
            lemma_packed_bound(head);
            lemma_capacity_grows(done as nat, 15);
            lemma_capacity_grows(15, 16);
            lemma_capacity_sixteen();
        }
        value = value * 256 + bytes[done] as u128;
        done = done + 1;
    }
    assert(bytes@.subrange(0, done as int) =~= bytes@);
    value
}

/// The value of a hexadecimal digit, in either case; `None` for any other character.
pub open spec fn hex_value(c: char) -> Option<nat> {
    let code = c as int;
    if 48 <= code <= 57 {
        Some((code - 48) as nat)
    } else if 97 <= code <= 102 {
        Some((code - 87) as nat)
    } else if 65 <= code <= 70 {
        Some((code - 55) as nat)
    } else {
        None
    }
}

/// The lower-case hexadecimal digit for a value below sixteen.
pub open spec fn hex_char(digit: nat) -> char {
    if digit < 10 {
        (48 + digit) as char
    } else {
        (87 + digit) as char
    }
}

/// Every character is a hexadecimal digit.
pub open spec fn is_hex(text: Seq<char>) -> bool {
    forall|i: int| 0 <= i < text.len() ==> (#[trigger] hex_value(text[i])) is Some
}

/// Every character is a decimal digit or one of `a` to `f`.
pub open spec fn is_lower_hex(text: Seq<char>) -> bool {
    forall|i: int|
        0 <= i < text.len() ==> {
            let code = #[trigger] text[i] as int;
            48 <= code <= 57 || 97 <= code <= 102
        }
}

/// The bytes that a run of hexadecimal digits spells, two digits to the byte.
pub open spec fn hex_bytes(text: Seq<char>) -> Seq<u8> {
    Seq::new(
        text.len() / 2,
        |j: int| (16 * hex_value(text[2 * j]).unwrap() + hex_value(text[2 * j + 1]).unwrap()) as u8,
    )
}

/// Two lower-case hexadecimal digits for each byte.
pub open spec fn hex_text(bytes: Seq<u8>) -> Seq<char> {
    Seq::new(
        2 * bytes.len(),
        |k: int|
            if k % 2 == 0 {
                hex_char((bytes[k / 2] / 16) as nat)
            } else {
                hex_char((bytes[k / 2] % 16) as nat)
            },
    )
}

/// Digits written for bytes read back as the same bytes.
pub proof fn lemma_hex_bytes_of_text(bytes: Seq<u8>)
    ensures
        is_hex(hex_text(bytes)),
        is_lower_hex(hex_text(bytes)),
        hex_bytes(hex_text(bytes)) == bytes,
{
    let text = hex_text(bytes);
    assert forall|k: int| 0 <= k < text.len() implies (#[trigger] hex_value(text[k])) is Some by {}
    assert(hex_bytes(text) =~= bytes);
}

/// Lower-case digits read as bytes are written back unchanged.
pub proof fn lemma_hex_text_of_bytes(text: Seq<char>)
    requires
        text.len() % 2 == 0,
        is_lower_hex(text),
    ensures
        is_hex(text),
        hex_text(hex_bytes(text)) == text,
{
    assert forall|i: int| 0 <= i < text.len() implies (#[trigger] hex_value(text[i])) is Some by {
        let code = text[i] as int;
    }
    let back = hex_text(hex_bytes(text));
    assert forall|k: int| 0 <= k < text.len() implies back[k] == text[k] by {
        let j = k / 2;
        let high = text[2 * j] as int;
        let low = text[2 * j + 1] as int;
    }
    assert(back =~= text);
}

} // verus!
