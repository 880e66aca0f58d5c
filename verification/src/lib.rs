//! Typed, memory-safe access to an OSS-style kernel audio control protocol.
//!
//! The protocol exchanges fixed-layout binary records with the kernel through
//! numeric command codes.  This crate holds the precision-critical pieces:
//! the command-code encoding, the record layouts with their exact byte sizes,
//! the text-field and bit-set decoding, and the query-or-set decision rules
//! shared by the device-facing components.  The device I/O itself (opening
//! nodes, issuing control calls) sits outside, handing raw values in and out.

use vstd::prelude::*;

pub mod dsp;
pub mod mixer;
pub mod sys;

pub use mixer::SysInfo;

verus! {

/// Failures the control-binding logic itself can report.
///
/// Control-call failures from the operating system are surfaced by the I/O
/// layer directly and never pass through this type.
#[derive(Debug, Clone, Copy, PartialEq, Eq, Structural)]
pub enum OssError {
    /// The device reported a protocol major version other than the
    /// supported one; the handle is discarded.
    VersionMismatch,
    /// A reserved sentinel value was passed to an explicit set operation.
    InvalidArgument,
    /// A set-style call was acknowledged with a value different from the
    /// one requested.
    AckMismatch,
    /// A kernel-filled record could not be decoded (text field without a
    /// terminator or not valid UTF-8, or a count outside its range).
    DecodeFailed,
}

/// The protocol major version both device-facing components require: a
/// device node reporting any other major version fails to open.
pub const SUPPORTED_MAJOR: u32 = 4;

/// The major half of a packed 32-bit protocol version word.
pub open spec fn spec_ver_major(ver: u32) -> u32 {
    ver >> 16
}

/// The minor half of a packed 32-bit protocol version word.
pub open spec fn spec_ver_minor(ver: u32) -> u32 {
    ver & 0xFFFF
}

/// Splits the packed version word the device reports into (major, minor).
pub fn decode_version(ver: u32) -> (r: (u32, u32))
    ensures
        r.0 == spec_ver_major(ver),
        r.1 == spec_ver_minor(ver),
{
    proof {
        assert((ver & 0xFFFF0000) >> 16 == ver >> 16) by (bit_vector);
    }
    ((ver & 0xFFFF0000) >> 16, ver & 0xFFFF)
}

/// Splitting a packed version word recovers exactly the major and minor
/// halves it was packed from.
pub proof fn lemma_version_roundtrip(maj: u32, min: u32)
    by (bit_vector)
    requires
        maj <= 0xffff,
        min <= 0xffff,
    ensures
        spec_ver_major((maj << 16) | min) == maj,
        spec_ver_minor((maj << 16) | min) == min,
{
}

/// The text region of a fixed-length text field: the bytes before the first
/// NUL, or nothing when no NUL lies within the bound.
pub open spec fn text_bytes(s: Seq<u8>) -> Option<Seq<u8>> {
    match s.index_of_first(0u8) {
        Some(i) => Some(s.subrange(0, i)),
        None => None,
    }
}

/// The decoded content of a fixed-length text field: the characters of the
/// text region when it exists and is valid UTF-8, nothing otherwise.
pub open spec fn decoded_text(s: Seq<u8>) -> Option<Seq<char>> {
    match text_bytes(s) {
        Some(t) => if vstd::utf8::valid_utf8(t) {
            Some(vstd::utf8::decode_utf8(t))
        } else {
            None
        },
        None => None,
    }
}

/// Converts a non-negative count the kernel reported as a C `int` to the
/// unsigned count it denotes.
pub fn count_to_u32(v: i32) -> (r: u32)
    requires
        v >= 0,
    ensures
        r as int == v as int,
{
    proof {
        assert(v >= 0 ==> (v as u32) as int == v as int) by (bit_vector);
    }
    v as u32
}

/// Converts a caller-supplied index to the C `int` selector field the
/// kernel expects.  Indexes beyond the `int` range cannot be expressed on
/// the wire at all.
pub fn index_to_i32(v: u32) -> (r: i32)
    requires
        v <= 0x7fff_ffff,
    ensures
        r as int == v as int,
        r >= 0,
{
    proof {
        assert(v <= 0x7fff_ffff ==> (v as i32) as int == v as int && (v as i32) >= 0)
            by (bit_vector);
    }
    v as i32
}

/// A text field holding a NUL before its bound decodes to exactly the text
/// preceding that first NUL: the decoded characters are those of the bytes
/// up to the NUL and of no others.
pub proof fn lemma_text_field_with_nul(s: Seq<u8>, i: int)
    requires
        0 <= i < s.len(),
        s[i] == 0,
        forall|j: int| 0 <= j < i ==> s[j] != 0,
    ensures
        text_bytes(s) == Some(s.subrange(0, i)),
        vstd::utf8::valid_utf8(s.subrange(0, i)) ==> decoded_text(s) == Some(
            vstd::utf8::decode_utf8(s.subrange(0, i)),
        ),
        !vstd::utf8::valid_utf8(s.subrange(0, i)) ==> decoded_text(s) is None,
{
    s.index_of_first_ensures(0u8);
    assert(s.contains(0u8)) by {
        assert(s[i] == 0u8);
    }
    let idx = s.index_of_first(0u8)->Some_0;
    if idx < i {
        assert(s[idx] == 0u8);
        assert(false);
    }
    if i < idx {
        assert(s[i] != 0u8);
        assert(false);
    }
}

/// A text field with no NUL anywhere before its bound is a decode failure.
pub proof fn lemma_text_field_without_nul(s: Seq<u8>)
    requires
        forall|j: int| 0 <= j < s.len() ==> s[j] != 0,
    ensures
        decoded_text(s) is None,
{
    s.index_of_first_ensures(0u8);
    if s.index_of_first(0u8) is Some {
        let idx = s.index_of_first(0u8)->Some_0;
        assert(s[idx] == 0u8);
        assert(false);
    }
}

/// Plain ASCII text — every byte below 0x80 — is valid UTF-8 and decodes
/// to its bytes themselves, character for character.  With
/// [`lemma_text_field_with_nul`] this pins the decoding of an ordinary
/// text field completely: the result is exactly the text preceding the
/// first NUL.
pub proof fn lemma_ascii_text_decodes(t: Seq<u8>)
    requires
        forall|i: int| 0 <= i < t.len() ==> t[i] < 0x80,
    ensures
        vstd::utf8::valid_utf8(t),
        vstd::utf8::decode_utf8(t) == Seq::new(t.len(), |i: int| t[i] as char),
    decreases t.len(),
{
    if t.len() == 0 {
        assert(vstd::utf8::decode_utf8(t) =~= Seq::new(t.len(), |i: int| t[i] as char));
    } else {
        let b = t[0];
        assert(b & 0x7f == b && (b & 0x7f) as u32 == b as u32) by (bit_vector)
            requires
                b < 0x80,
        ;
        assert(vstd::utf8::valid_first_scalar(t));
        assert(vstd::utf8::length_of_first_scalar(t) == 1);
        assert(vstd::utf8::pop_first_scalar(t) =~= t.drop_first());
        lemma_ascii_text_decodes(t.drop_first());
        assert(vstd::utf8::decode_utf8(t) =~= Seq::new(t.len(), |i: int| t[i] as char));
    }
}

/// Relies on `String::from_utf8`: it succeeds exactly on valid UTF-8 input,
/// and the resulting string holds the bytes' decoded Unicode scalars.
#[verifier::external_body]
fn string_from_utf8(bytes: Vec<u8>) -> (r: Option<String>)
    ensures
        r is Some <==> vstd::utf8::valid_utf8(bytes@),
        r matches Some(s) ==> s@ == vstd::utf8::decode_utf8(bytes@),
{
    String::from_utf8(bytes).ok()
}

/// Decodes a fixed-length text field as the kernel fills it: the bytes up
/// to but not including the first NUL become the text.  A field with no NUL
/// before its bound, or whose text region is not valid UTF-8, fails to
/// decode.
pub fn c_chars_to_string(input: &[u8]) -> (r: Option<String>)
    ensures
        r is Some <==> decoded_text(input@) is Some,
        r matches Some(s) ==> decoded_text(input@) == Some(s@),
{
    let n = input.len();
    let mut k: usize = 0;
    while k < n && input[k] != 0
        invariant
            k <= n,
            n == input@.len(),
            forall|j: int| 0 <= j < k ==> input@[j] != 0,
        decreases n - k,
    {
        k += 1;
    }
    proof {
        input@.index_of_first_ensures(0u8);
    }
    if k == n {
        return None;
    }
    let mut prefix: Vec<u8> = Vec::new();
    let mut j: usize = 0;
    while j < k
        invariant
            j <= k <= n,
            n == input@.len(),
            prefix@ == input@.subrange(0, j as int),
        decreases k - j,
    {
        prefix.push(input[j]);
        proof {
            assert(prefix@ =~= input@.subrange(0, j + 1 as int));
        }
        j += 1;
    }
    string_from_utf8(prefix)
}

} // verus!
