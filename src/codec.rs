//! The string codec: UTF-16 units from the host in, NUL-terminated UTF-8
//! buffers out.
use vstd::prelude::*;
use vstd::slice::slice_to_vec;
use vstd::utf8::*;

verus! {

/// A UTF-16 unit that opens a surrogate pair.
pub open spec fn is_high_surrogate(u: u16) -> bool {
    0xD800 <= u && u <= 0xDBFF
}

/// A UTF-16 unit that closes a surrogate pair.
pub open spec fn is_low_surrogate(u: u16) -> bool {
    0xDC00 <= u && u <= 0xDFFF
}

/// The scalar value that a high and a low surrogate stand for together.
pub open spec fn surrogate_pair_scalar(hi: u16, lo: u16) -> u32 {
    (0x10000 + (hi - 0xD800) * 0x400 + (lo - 0xDC00)) as u32
}

/// Every high surrogate is followed by a low one, and no low surrogate
/// stands alone.
pub open spec fn valid_utf16(units: Seq<u16>) -> bool
    decreases units.len(),
{
    if units.len() == 0 {
        true
    } else if is_high_surrogate(units[0]) {
        units.len() >= 2 && is_low_surrogate(units[1]) && valid_utf16(units.skip(2))
    } else {
        !is_low_surrogate(units[0]) && valid_utf16(units.skip(1))
    }
}

/// The characters that a sequence of UTF-16 units encodes.
pub open spec fn decode_utf16(units: Seq<u16>) -> Seq<char>
    decreases units.len(),
{
    if units.len() == 0 {
        seq![]
    } else if is_high_surrogate(units[0]) && units.len() >= 2 {
        seq![surrogate_pair_scalar(units[0], units[1]) as char] + decode_utf16(units.skip(2))
    } else {
        seq![(units[0] as u32) as char] + decode_utf16(units.skip(1))
    }
}

/// The UTF-16 units of one scalar value: one unit below 0x10000, a
/// surrogate pair above.
pub open spec fn encode_scalar_utf16(v: u32) -> Seq<u16> {
    if v < 0x10000 {
        seq![v as u16]
    } else {
        seq![(0xD800 + (v - 0x10000) / 0x400) as u16, (0xDC00 + (v - 0x10000) % 0x400) as u16]
    }
}

/// The UTF-16 encoding of a character sequence, as the host writes it.
pub open spec fn encode_utf16(chars: Seq<char>) -> Seq<u16>
    decreases chars.len(),
{
    if chars.len() == 0 {
        seq![]
    } else {
        encode_scalar_utf16(chars[0] as u32) + encode_utf16(chars.drop_first())
    }
}

/// The string holds no NUL character, so a terminator can frame it.
pub open spec fn nul_free(s: Seq<char>) -> bool {
    forall|i: int| 0 <= i < s.len() ==> s[i] != '\0'
}

/// A buffer whose only zero byte is its last one.
pub open spec fn sentinel_framed(b: Seq<u8>) -> bool {
    &&& b.len() >= 1
    &&& b.last() == 0
    &&& forall|i: int| 0 <= i < b.len() - 1 ==> b[i] != 0
}

/// The buffer handed to the host for a string: its UTF-8 bytes and a
/// terminating zero.
pub open spec fn c_buffer(s: Seq<char>) -> Seq<u8> {
    encode_utf8(s).push(0)
}

/// A NUL-terminated UTF-8 buffer owned by the plugin until it is released.
///
/// It can be neither copied nor cloned: each one is given up exactly once,
/// to `free_c_string` or `take_c_string`.
#[derive(Debug)]
pub struct CStrBuf {
    bytes: Vec<u8>,
}

impl View for CStrBuf {
    type V = Seq<u8>;

    closed spec fn view(&self) -> Seq<u8> {
        self.bytes@
    }
}

impl CStrBuf {
    #[verifier::type_invariant]
    spec fn inv(&self) -> bool {
        sentinel_framed(self.bytes@)
    }

    /// The buffer's bytes, terminator included.
    pub fn as_bytes_with_nul(&self) -> (r: &[u8])
        ensures
            r@ == self@,
            sentinel_framed(r@),
    {
        proof {
            use_type_invariant(self);
        }
        self.bytes.as_slice()
    }
}

/// Encodes a string for the host: a fresh buffer with its UTF-8 bytes and a
/// terminating zero.
pub fn to_c_str(s: &str) -> (r: CStrBuf)
    requires
        nul_free(s@),
    ensures
        r@ == c_buffer(s@),
        sentinel_framed(r@),
{
    let mut bytes = slice_to_vec(s.as_bytes());
    proof {
        lemma_encode_utf8_nul_free(s@);
    }
    bytes.push(0);
    assert(bytes@ == c_buffer(s@));
    CStrBuf { bytes }
}

/// Releases a buffer that `to_c_str` made.
pub fn free_c_string(s: CStrBuf) {
}

/// Takes a buffer back from the host and hands out its contents, without
/// the terminator.
pub fn take_c_string(s: CStrBuf) -> (r: Vec<u8>)
    ensures
        r@ == s@.drop_last(),
        forall|i: int| 0 <= i < r@.len() ==> r@[i] != 0,
{
    proof {
        use_type_invariant(&s);
    }
    let mut bytes = s.bytes;
    bytes.pop();
    bytes
}

/// Decodes a string that the host handed in as UTF-16 units.
pub fn take_cs_string(utf16: &[u16]) -> (r: String)
    requires
        valid_utf16(utf16@),
    ensures
        r@ == decode_utf16(utf16@),
{
    string_from_utf16(utf16).unwrap()
}

/// Relies on `String::from_utf16`: it decodes the units, and fails exactly
/// when they hold a surrogate that is not part of a pair.
#[verifier::external_body]
fn string_from_utf16(units: &[u16]) -> (r: Option<String>)
    ensures
        r is Some <==> valid_utf16(units@),
        r matches Some(s) ==> s@ == decode_utf16(units@),
{
    String::from_utf16(units).ok()
}

/// The UTF-8 bytes of a string without NUL characters hold no zero byte.
pub proof fn lemma_encode_utf8_nul_free(s: Seq<char>)
    requires
        nul_free(s),
    ensures
        forall|i: int| 0 <= i < encode_utf8(s).len() ==> encode_utf8(s)[i] != 0,
    decreases s.len(),
{
    if s.len() > 0 {
        let v = s[0] as u32;
        char_u32_cast(s[0], v);
        assert(v != 0);
        let x = (v >> 6) & 0x1F;
        let y = (v >> 12) & 0x0F;
        let z = (v >> 18) & 0x7;
        assert(0xC0u8 | (x as u8) != 0) by (bit_vector);
        assert(0xE0u8 | (y as u8) != 0) by (bit_vector);
        assert(0xF0u8 | (z as u8) != 0) by (bit_vector);
        assert(0x80u8 | ((v & 0x3F) as u8) != 0) by (bit_vector);
        assert(0x80u8 | (((v >> 6) & 0x3F) as u8) != 0) by (bit_vector);
        assert(0x80u8 | (((v >> 12) & 0x3F) as u8) != 0) by (bit_vector);
        assert(v <= 0x7F ==> (v & 0x7F) as u8 != 0) by (bit_vector)
            requires
                v != 0,
        ;
        char_is_scalar(s[0]);
        lemma_encode_utf8_nul_free(s.drop_first());
        let head = encode_scalar(v);
        assert(forall|i: int| 0 <= i < head.len() ==> head[i] != 0);
        assert(encode_utf8(s) == head + encode_utf8(s.drop_first()));
    }
}

/// Any string that the host writes as UTF-16 is valid for `take_cs_string`,
/// and decodes back to exactly the same characters.
pub proof fn lemma_utf16_round_trip(s: Seq<char>)
    ensures
        valid_utf16(encode_utf16(s)),
        decode_utf16(encode_utf16(s)) == s,
    decreases s.len(),
{
    if s.len() > 0 {
        let c = s[0];
        let v = c as u32;
        char_is_scalar(c);
        char_u32_cast(c, v);
        let rest = s.drop_first();
        lemma_utf16_round_trip(rest);
        let units = encode_utf16(s);
        let head = encode_scalar_utf16(v);
        assert(units == head + encode_utf16(rest));
        if v < 0x10000 {
            assert(units.skip(1) == encode_utf16(rest));
            assert((units[0] as u32) == v);
        } else {
            let q = (v - 0x10000) / 0x400;
            let r = (v - 0x10000) % 0x400;
            assert(q < 0x400 && r < 0x400 && 0x400 * q + r == v - 0x10000) by (nonlinear_arith)
                requires
                    0x10000 <= v <= 0x10FFFF,
                    q == (v - 0x10000) / 0x400,
                    r == (v - 0x10000) % 0x400,
            ;
            assert(units.skip(2) == encode_utf16(rest));
            assert(surrogate_pair_scalar(units[0], units[1]) == v);
        }
        assert(decode_utf16(units) == seq![c] + rest);
        assert(seq![c] + rest == s);
    }
}

/// The contents of a buffer made by `to_c_str` decode as UTF-8 to exactly
/// the string it was made from.
pub proof fn lemma_c_buffer_round_trip(s: Seq<char>)
    ensures
        c_buffer(s).drop_last() == encode_utf8(s),
        valid_utf8(c_buffer(s).drop_last()),
        decode_utf8(c_buffer(s).drop_last()) == s,
{
    assert(c_buffer(s).drop_last() == encode_utf8(s));
    encode_utf8_valid_utf8(s);
    encode_utf8_decode_utf8(s);
}

} // verus!
