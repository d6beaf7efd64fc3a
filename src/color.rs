//! The colour that stands for an IRC speaker, and the avatar URL built from it.

use vstd::prelude::*;
use vstd::utf8::encode_utf8;

verus! {

/// The CRC-32 (IEEE) checksum of a byte sequence.
pub uninterp spec fn crc32_of(data: Seq<u8>) -> u32;

/// Relies on `crc32fast::hash`: the CRC-32 checksum of `data`, which depends
/// on the bytes alone.
#[verifier::external_body]
fn crc32(data: &[u8]) -> (r: u32)
    ensures
        r == crc32_of(data@),
{
    crc32fast::hash(data)
}

/// The 24-bit colour of a name: the upper 24 bits of the CRC-32 of its UTF-8 bytes.
pub open spec fn color_of(name: Seq<char>) -> u32 {
    crc32_of(encode_utf8(name)) >> 8u32
}

/// The colour that stands for `name`.
pub fn color_for(name: &str) -> (r: u32)
    ensures
        r == color_of(name@),
        r < 0x100_0000,
{
    let h = crc32(name.as_bytes());
    assert(h >> 8u32 < 0x100_0000u32) by (bit_vector);
    h >> 8u32
}

/// Equal names give equal colours, in every run.
pub proof fn lemma_color_deterministic(n1: Seq<char>, n2: Seq<char>)
    requires
        n1 == n2,
    ensures
        color_of(n1) == color_of(n2),
{
}

/// Lower-case hexadecimal digit of `d` (below 16).
pub open spec fn hex_digit(d: nat) -> char {
    if d < 10 {
        (('0' as nat) + d) as char
    } else {
        (('a' as nat) + (d - 10)) as char
    }
}

/// The last `n` hexadecimal digits of `v`, most significant first, padded with zeros.
pub open spec fn hex_fixed(v: nat, n: nat) -> Seq<char>
    decreases n,
{
    if n == 0 {
        Seq::empty()
    } else {
        hex_fixed(v / 16, (n - 1) as nat).push(hex_digit(v % 16))
    }
}

/// The avatar URL of a speaker: a one-pixel image of the speaker's colour,
/// written as six hexadecimal digits.
pub open spec fn avatar_url_of(name: Seq<char>) -> Seq<char> {
    seq!['h', 't', 't', 'p', 's', ':', '/', '/']
        + seq!['s', 'i', 'n', 'g', 'l', 'e', 'c', 'o', 'l', 'o', 'r', 'i', 'm', 'a', 'g', 'e']
        + seq!['.', 'c', 'o', 'm', '/', 'g', 'e', 't', '/']
        + hex_fixed(color_of(name) as nat, 6)
        + seq!['/', '1', 'x', '1']
}

fn hex_digit_str(d: u32) -> (r: &'static str)
    requires
        d < 16,
    ensures
        r@ == seq![hex_digit(d as nat)],
{
    proof {
        reveal_strlit("0");
        reveal_strlit("1");
        reveal_strlit("2");
        reveal_strlit("3");
        reveal_strlit("4");
        reveal_strlit("5");
        reveal_strlit("6");
        reveal_strlit("7");
        reveal_strlit("8");
        reveal_strlit("9");
        reveal_strlit("a");
        reveal_strlit("b");
        reveal_strlit("c");
        reveal_strlit("d");
        reveal_strlit("e");
        reveal_strlit("f");
    }
    match d {
        0 => "0",
        1 => "1",
        2 => "2",
        3 => "3",
        4 => "4",
        5 => "5",
        6 => "6",
        7 => "7",
        8 => "8",
        9 => "9",
        10 => "a",
        11 => "b",
        12 => "c",
        13 => "d",
        14 => "e",
        _ => "f",
    }
}

/// Appends the last `n` hexadecimal digits of `v` to `out`.
fn push_hex(out: &mut String, v: u32, n: usize)
    ensures
        final(out)@ == old(out)@ + hex_fixed(v as nat, n as nat),
    decreases n,
{
    if n > 0 {
        push_hex(out, v / 16, n - 1);
        out.append(hex_digit_str(v % 16));
        assert(final(out)@ == old(out)@ + hex_fixed(v as nat, n as nat));
    } else {
        assert(hex_fixed(v as nat, 0) =~= Seq::<char>::empty());
        assert(out@ =~= old(out)@ + hex_fixed(v as nat, n as nat));
    }
}

/// The avatar URL of the speaker `name`.
pub fn avatar_url(name: &str) -> (r: String)
    ensures
        r@ == avatar_url_of(name@),
{
    proof {
        reveal_strlit("https://singlecolorimage.com/get/");
        reveal_strlit("/1x1");
    }
    let color = color_for(name);
    let mut url = String::from_str("https://singlecolorimage.com/get/");
    push_hex(&mut url, color, 6);
    url.append("/1x1");
    assert(url@ =~= avatar_url_of(name@));
    url
}

} // verus!
