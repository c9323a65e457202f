//! Standard base64 (RFC 4648, with `=` padding, no line breaks).
use vstd::prelude::*;

use crate::text::push_char;

verus! {

/// The base64 alphabet: `A-Z`, `a-z`, `0-9`, `+`, `/`.
pub open spec fn sextet_char(v: int) -> char {
    if v < 26 {
        (65 + v) as char
    } else if v < 52 {
        (97 + (v - 26)) as char
    } else if v < 62 {
        (48 + (v - 52)) as char
    } else if v == 62 {
        '+'
    } else {
        '/'
    }
}

/// The four output characters for one group of up to three input bytes:
/// the 24-bit big-endian value of the group (missing bytes count as zero)
/// split into four 6-bit sextets, with `=` in place of the sextets that only
/// cover missing bytes.
pub open spec fn encode_group(b0: u8, b1: u8, b2: u8, n: int) -> Seq<char> {
    let v = b0 as int * 65536 + b1 as int * 256 + b2 as int;
    seq![
        sextet_char(v / 262144),
        sextet_char((v / 4096) % 64),
        if n > 1 { sextet_char((v / 64) % 64) } else { '=' },
        if n > 2 { sextet_char(v % 64) } else { '=' },
    ]
}

/// Base64 text of `bytes`, three bytes at a time from the front.
pub open spec fn base64_text(bytes: Seq<u8>) -> Seq<char>
    decreases bytes.len(),
{
    if bytes.len() == 0 {
        seq![]
    } else {
        let n = if bytes.len() >= 3 { 3int } else { bytes.len() as int };
        let b1 = if n > 1 { bytes[1] } else { 0u8 };
        let b2 = if n > 2 { bytes[2] } else { 0u8 };
        encode_group(bytes[0], b1, b2, n) + base64_text(bytes.skip(n))
    }
}

fn sextet(v: u32) -> (c: char)
    requires
        v < 64,
    ensures
        c == sextet_char(v as int),
{
    if v < 26 {
        ((65 + v) as u8) as char
    } else if v < 52 {
        ((97 + (v - 26)) as u8) as char
    } else if v < 62 {
        ((48 + (v - 52)) as u8) as char
    } else if v == 62 {
        '+'
    } else {
        '/'
    }
}

/// Standard base64 encoding of `input` (padded, no line breaks).
pub fn base64_encode(input: &[u8]) -> (out: String)
    ensures
        out@ == base64_text(input@),
{
    let mut out = String::new();
    let len = input.len();
    let mut i: usize = 0;
    assert(input@.skip(0) == input@);
    while i < len
        invariant
            i <= len == input@.len(),
            base64_text(input@) == out@ + base64_text(input@.skip(i as int)),
        decreases len - i,
    {
        let ghost rest = input@.skip(i as int);
        let n: usize = if len - i >= 3 { 3 } else { len - i };
        let b0 = input[i];
        let b1 = if n > 1 { input[i + 1] } else { 0u8 };
        let b2 = if n > 2 { input[i + 2] } else { 0u8 };
        let v: u32 = b0 as u32 * 65536 + b1 as u32 * 256 + b2 as u32;
        push_char(&mut out, sextet(v / 262144));
        push_char(&mut out, sextet((v / 4096) % 64));
        push_char(&mut out, if n > 1 { sextet((v / 64) % 64) } else { '=' });
        push_char(&mut out, if n > 2 { sextet(v % 64) } else { '=' });
        assert(rest.skip(n as int) == input@.skip(i + n));
        assert(rest[0] == b0 && (n > 1 ==> rest[1] == b1) && (n > 2 ==> rest[2] == b2));
        i = i + n;
    }
    out
}

/// Every three input bytes, and a final group of one or two, become exactly
/// four output characters.
pub proof fn law_base64_length(bytes: Seq<u8>)
    ensures
        base64_text(bytes).len() == 4 * ((bytes.len() + 2) / 3),
    decreases bytes.len(),
{
    if bytes.len() > 0 {
        let n = if bytes.len() >= 3 { 3int } else { bytes.len() as int };
        law_base64_length(bytes.skip(n));
    }
}

/// Input split after a whole number of three-byte groups encodes to the
/// concatenation of the encodings of its parts.
pub proof fn law_base64_concat(a: Seq<u8>, b: Seq<u8>)
    requires
        a.len() % 3 == 0,
    ensures
        base64_text(a + b) == base64_text(a) + base64_text(b),
    decreases a.len(),
{
    if a.len() > 0 {
        assert((a + b).skip(3) == a.skip(3) + b);
        assert((a + b)[0] == a[0] && (a + b)[1] == a[1] && (a + b)[2] == a[2]);
        law_base64_concat(a.skip(3), b);
    } else {
        assert(a + b == b);
    }
}

/// The standard base64 alphabet of RFC 4648, the original's `TABLE`:
/// `A`..`Z`, `a`..`z`, `0`..`9`, `+`, `/`.
pub open spec fn base64_alphabet() -> Seq<char> {
    "ABCDEFGHIJKLMNOPQRSTUVWXYZabcdefghijklmnopqrstuvwxyz0123456789+/"@
}

/// Sextet `v` is written as the `v`-th letter of the standard alphabet.
pub proof fn law_sextet_is_standard_alphabet()
    ensures
        base64_alphabet().len() == 64,
        forall|v: int| 0 <= v < 64 ==> #[trigger] sextet_char(v) == base64_alphabet()[v],
{
    reveal_strlit("ABCDEFGHIJKLMNOPQRSTUVWXYZabcdefghijklmnopqrstuvwxyz0123456789+/");
        assert(sextet_char(0) == 'A' && base64_alphabet()[0] == 'A');
        assert(sextet_char(1) == 'B' && base64_alphabet()[1] == 'B');
        assert(sextet_char(2) == 'C' && base64_alphabet()[2] == 'C');
        assert(sextet_char(3) == 'D' && base64_alphabet()[3] == 'D');
        assert(sextet_char(4) == 'E' && base64_alphabet()[4] == 'E');
        assert(sextet_char(5) == 'F' && base64_alphabet()[5] == 'F');
        assert(sextet_char(6) == 'G' && base64_alphabet()[6] == 'G');
        assert(sextet_char(7) == 'H' && base64_alphabet()[7] == 'H');
        assert(sextet_char(8) == 'I' && base64_alphabet()[8] == 'I');
        assert(sextet_char(9) == 'J' && base64_alphabet()[9] == 'J');
        assert(sextet_char(10) == 'K' && base64_alphabet()[10] == 'K');
        assert(sextet_char(11) == 'L' && base64_alphabet()[11] == 'L');
        assert(sextet_char(12) == 'M' && base64_alphabet()[12] == 'M');
        assert(sextet_char(13) == 'N' && base64_alphabet()[13] == 'N');
        assert(sextet_char(14) == 'O' && base64_alphabet()[14] == 'O');
        assert(sextet_char(15) == 'P' && base64_alphabet()[15] == 'P');
        assert(sextet_char(16) == 'Q' && base64_alphabet()[16] == 'Q');
        assert(sextet_char(17) == 'R' && base64_alphabet()[17] == 'R');
        assert(sextet_char(18) == 'S' && base64_alphabet()[18] == 'S');
        assert(sextet_char(19) == 'T' && base64_alphabet()[19] == 'T');
        assert(sextet_char(20) == 'U' && base64_alphabet()[20] == 'U');
        assert(sextet_char(21) == 'V' && base64_alphabet()[21] == 'V');
        assert(sextet_char(22) == 'W' && base64_alphabet()[22] == 'W');
        assert(sextet_char(23) == 'X' && base64_alphabet()[23] == 'X');
        assert(sextet_char(24) == 'Y' && base64_alphabet()[24] == 'Y');
        assert(sextet_char(25) == 'Z' && base64_alphabet()[25] == 'Z');
        assert(sextet_char(26) == 'a' && base64_alphabet()[26] == 'a');
        assert(sextet_char(27) == 'b' && base64_alphabet()[27] == 'b');
        assert(sextet_char(28) == 'c' && base64_alphabet()[28] == 'c');
        assert(sextet_char(29) == 'd' && base64_alphabet()[29] == 'd');
        assert(sextet_char(30) == 'e' && base64_alphabet()[30] == 'e');
        assert(sextet_char(31) == 'f' && base64_alphabet()[31] == 'f');
        assert(sextet_char(32) == 'g' && base64_alphabet()[32] == 'g');
        assert(sextet_char(33) == 'h' && base64_alphabet()[33] == 'h');
        assert(sextet_char(34) == 'i' && base64_alphabet()[34] == 'i');
        assert(sextet_char(35) == 'j' && base64_alphabet()[35] == 'j');
        assert(sextet_char(36) == 'k' && base64_alphabet()[36] == 'k');
        assert(sextet_char(37) == 'l' && base64_alphabet()[37] == 'l');
        assert(sextet_char(38) == 'm' && base64_alphabet()[38] == 'm');
        assert(sextet_char(39) == 'n' && base64_alphabet()[39] == 'n');
        assert(sextet_char(40) == 'o' && base64_alphabet()[40] == 'o');
        assert(sextet_char(41) == 'p' && base64_alphabet()[41] == 'p');
        assert(sextet_char(42) == 'q' && base64_alphabet()[42] == 'q');
        assert(sextet_char(43) == 'r' && base64_alphabet()[43] == 'r');
        assert(sextet_char(44) == 's' && base64_alphabet()[44] == 's');
        assert(sextet_char(45) == 't' && base64_alphabet()[45] == 't');
        assert(sextet_char(46) == 'u' && base64_alphabet()[46] == 'u');
        assert(sextet_char(47) == 'v' && base64_alphabet()[47] == 'v');
        assert(sextet_char(48) == 'w' && base64_alphabet()[48] == 'w');
        assert(sextet_char(49) == 'x' && base64_alphabet()[49] == 'x');
        assert(sextet_char(50) == 'y' && base64_alphabet()[50] == 'y');
        assert(sextet_char(51) == 'z' && base64_alphabet()[51] == 'z');
        assert(sextet_char(52) == '0' && base64_alphabet()[52] == '0');
        assert(sextet_char(53) == '1' && base64_alphabet()[53] == '1');
        assert(sextet_char(54) == '2' && base64_alphabet()[54] == '2');
        assert(sextet_char(55) == '3' && base64_alphabet()[55] == '3');
        assert(sextet_char(56) == '4' && base64_alphabet()[56] == '4');
        assert(sextet_char(57) == '5' && base64_alphabet()[57] == '5');
        assert(sextet_char(58) == '6' && base64_alphabet()[58] == '6');
        assert(sextet_char(59) == '7' && base64_alphabet()[59] == '7');
        assert(sextet_char(60) == '8' && base64_alphabet()[60] == '8');
        assert(sextet_char(61) == '9' && base64_alphabet()[61] == '9');
        assert(sextet_char(62) == '+' && base64_alphabet()[62] == '+');
        assert(sextet_char(63) == '/' && base64_alphabet()[63] == '/');
    assert forall|v: int| 0 <= v < 64 implies #[trigger] sextet_char(v) == base64_alphabet()[v] by {
        reveal_strlit("ABCDEFGHIJKLMNOPQRSTUVWXYZabcdefghijklmnopqrstuvwxyz0123456789+/");
        assert(0 <= v < 64);
    }
}

proof fn lemma_group_bits(b0: int, b1: int, b2: int)
    requires
        0 <= b0 < 256,
        0 <= b1 < 256,
        0 <= b2 < 256,
    ensures ({
        let v = b0 * 65536 + b1 * 256 + b2;
        &&& v / 262144 == b0 / 4
        &&& (v / 4096) % 64 == (b0 % 4) * 16 + b1 / 16
        &&& (v / 64) % 64 == (b1 % 16) * 4 + b2 / 64
        &&& v % 64 == b2 % 64
    }),
{
    let v = b0 * 65536 + b1 * 256 + b2;
    let h0 = b0 / 4;
    let l0 = b0 % 4;
    let h1 = b1 / 16;
    let l1 = b1 % 16;
    let h2 = b2 / 64;
    let l2 = b2 % 64;
    assert(b0 == 4 * h0 + l0 && 0 <= l0 < 4);
    assert(b1 == 16 * h1 + l1 && 0 <= l1 < 16);
    assert(b2 == 64 * h2 + l2 && 0 <= l2 < 64);
    vstd::arithmetic::div_mod::lemma_fundamental_div_mod_converse(v, 262144, h0, l0 * 65536 + b1 * 256 + b2);
    vstd::arithmetic::div_mod::lemma_fundamental_div_mod_converse(v, 4096, b0 * 16 + h1, l1 * 256 + b2);
    vstd::arithmetic::div_mod::lemma_fundamental_div_mod_converse(b0 * 16 + h1, 64, h0, l0 * 16 + h1);
    vstd::arithmetic::div_mod::lemma_fundamental_div_mod_converse(v, 64, b0 * 1024 + b1 * 4 + h2, l2);
    vstd::arithmetic::div_mod::lemma_fundamental_div_mod_converse(b0 * 1024 + b1 * 4 + h2, 64, b0 * 16 + h1, l1 * 4 + h2);
}

/// How each group of three input bytes is written: group `i` (bytes from
/// `3 * i` on, the last group possibly short) becomes output characters
/// `4 * i` to `4 * i + 3`: the alphabet letters of its first byte's top six
/// bits, of the first byte's low two bits with the second byte's top four,
/// of the second byte's low four bits with the third byte's top two, and of
/// the third byte's low six bits, with `=` for letters of bytes past the end.
pub proof fn law_base64_group(bytes: Seq<u8>, i: int)
    requires
        0 <= i,
        3 * i < bytes.len(),
    ensures ({
        let t = base64_text(bytes);
        let a = base64_alphabet();
        let n = bytes.len() - 3 * i;
        let b0 = bytes[3 * i] as int;
        let b1 = if n > 1 { bytes[3 * i + 1] as int } else { 0 };
        let b2 = if n > 2 { bytes[3 * i + 2] as int } else { 0 };
        &&& t.len() >= 4 * i + 4
        &&& t[4 * i] == a[b0 / 4]
        &&& t[4 * i + 1] == a[(b0 % 4) * 16 + b1 / 16]
        &&& t[4 * i + 2] == if n > 1 { a[(b1 % 16) * 4 + b2 / 64] } else { '=' }
        &&& t[4 * i + 3] == if n > 2 { a[b2 % 64] } else { '=' }
    }),
{
    let head = bytes.take(3 * i);
    let rest = bytes.skip(3 * i);
    assert(bytes == head + rest);
    law_base64_concat(head, rest);
    law_base64_length(head);
    assert(base64_text(head).len() == 4 * i) by {
        assert((3 * i + 2) / 3 == i);
    }
    law_sextet_is_standard_alphabet();
    let n = bytes.len() - 3 * i;
    let m = if n >= 3 { 3int } else { n };
    let r0 = rest[0];
    let r1 = if m > 1 { rest[1] } else { 0u8 };
    let r2 = if m > 2 { rest[2] } else { 0u8 };
    let g = encode_group(r0, r1, r2, m);
    assert(base64_text(rest) == g + base64_text(rest.skip(m)));
    let t = base64_text(bytes);
    assert(t == base64_text(head) + (g + base64_text(rest.skip(m))));
    assert(t[4 * i] == g[0] && t[4 * i + 1] == g[1] && t[4 * i + 2] == g[2] && t[4 * i + 3] == g[3]);
    lemma_group_bits(r0 as int, r1 as int, r2 as int);
}

} // verus!
