//! Telling text from binary content, and decoding text.
//!
//! The verdict is a function of the bytes alone. A buffer that starts with
//! the UTF-8 byte-order mark is decoded as UTF-8. Any other buffer is text
//! where it is UTF-8 without a NUL character. Otherwise a heuristic over the
//! first kilobyte decides whether it looks binary; what does not is decoded
//! as Windows-1252.

use vstd::prelude::*;
use vstd::slice::slice_subrange;
use vstd::string::StringExecFns;
use vstd::string::StringSliceAdditionalSpecFns;
use vstd::utf8::{decode_utf8, encode_utf8_decode_utf8, valid_utf8};
use crate::error::{PboError, PboErrorView};
use crate::text::chars_of;

verus! {

/// The error of `core::str::from_utf8`; nothing is read from it.
#[verifier::external_type_specification]
#[verifier::external_body]
pub struct ExUtf8Error(core::str::Utf8Error);

/// `core::str::from_utf8` succeeds exactly on well-formed UTF-8 and then
/// gives a string slice over the very same bytes.
pub assume_specification<'a>[ core::str::from_utf8 ](v: &'a [u8]) -> (r: Result<
    &'a str,
    core::str::Utf8Error,
>)
    ensures
        r is Ok <==> valid_utf8(v@),
        r matches Ok(s) ==> s.spec_bytes() == v@,
;

// ---------------------------------------------------------------------------
// Model
// ---------------------------------------------------------------------------

/// How many bytes at the start of a buffer the heuristic looks at.
pub const SAMPLE_SIZE: usize = 1024;

/// The share of NUL bytes, in percent, above which a sample looks binary.
pub const NUL_PERCENT: usize = 10;

/// The share of control bytes, in percent, above which a sample looks
/// binary.
pub const CONTROL_PERCENT: usize = 30;

/// The share of the most frequent byte value, in percent, above which a
/// sample looks binary.
pub const DOMINANT_PERCENT: usize = 90;

/// The buffer starts with the UTF-8 byte-order mark.
pub open spec fn has_utf8_bom(bytes: Seq<u8>) -> bool {
    bytes.len() >= 3 && bytes[0] == 0xEF && bytes[1] == 0xBB && bytes[2] == 0xBF
}

/// The buffer starts with the signature of a JPEG, BMP, PNG or ZIP file or
/// with a UTF-16 byte-order mark.
pub open spec fn has_binary_signature(bytes: Seq<u8>) -> bool {
    bytes.len() >= 2 && {
        ||| bytes[0] == 0xFF && bytes[1] == 0xD8
        ||| bytes[0] == 0x42 && bytes[1] == 0x4D
        ||| bytes[0] == 0x89 && bytes[1] == 0x50
        ||| bytes[0] == 0x50 && bytes[1] == 0x4B
        ||| bytes[0] == 0xFF && bytes[1] == 0xFE
        ||| bytes[0] == 0xFE && bytes[1] == 0xFF
    }
}

/// A control byte: below 0x20 but for tab, line feed and carriage return,
/// or 0x7F.
pub open spec fn is_control_byte(b: u8) -> bool {
    (b < 0x20 && b != 0x09 && b != 0x0A && b != 0x0D) || b == 0x7F
}

/// How often `b` occurs in `s`.
pub open spec fn count_of(s: Seq<u8>, b: u8) -> nat
    decreases s.len(),
{
    if s.len() == 0 {
        0
    } else {
        count_of(s.drop_last(), b) + if s.last() == b {
            1nat
        } else {
            0nat
        }
    }
}

/// How many control bytes `s` holds.
pub open spec fn count_control(s: Seq<u8>) -> nat
    decreases s.len(),
{
    if s.len() == 0 {
        0
    } else {
        count_control(s.drop_last()) + if is_control_byte(s.last()) {
            1nat
        } else {
            0nat
        }
    }
}

/// The part of a buffer that the heuristic looks at.
pub open spec fn sample_of(bytes: Seq<u8>) -> Seq<u8> {
    if bytes.len() > SAMPLE_SIZE {
        bytes.take(SAMPLE_SIZE as int)
    } else {
        bytes
    }
}

/// Some byte value makes up more than [`DOMINANT_PERCENT`] of `s`.
pub open spec fn has_dominant_byte(s: Seq<u8>) -> bool {
    exists|b: u8| #[trigger] count_of(s, b) * 100 > DOMINANT_PERCENT * s.len()
}

/// A buffer looks binary where it carries a binary signature, or where in
/// its sample NUL bytes, control bytes or one single byte value exceed
/// their share.
pub open spec fn looks_binary(bytes: Seq<u8>) -> bool {
    let s = sample_of(bytes);
    ||| has_binary_signature(bytes)
    ||| count_of(s, 0) * 100 > NUL_PERCENT * s.len()
    ||| count_control(s) * 100 > CONTROL_PERCENT * s.len()
    ||| has_dominant_byte(s)
}

/// The character that Windows-1252 assigns to a byte; five bytes have none.
pub open spec fn windows_1252(b: u8) -> Option<char> {
    if b < 0x80 || b >= 0xA0 {
        Some(b as char)
    } else if b == 0x80 {
        Some('\u{20AC}')
    } else if b == 0x82 {
        Some('\u{201A}')
    } else if b == 0x83 {
        Some('\u{0192}')
    } else if b == 0x84 {
        Some('\u{201E}')
    } else if b == 0x85 {
        Some('\u{2026}')
    } else if b == 0x86 {
        Some('\u{2020}')
    } else if b == 0x87 {
        Some('\u{2021}')
    } else if b == 0x88 {
        Some('\u{02C6}')
    } else if b == 0x89 {
        Some('\u{2030}')
    } else if b == 0x8A {
        Some('\u{0160}')
    } else if b == 0x8B {
        Some('\u{2039}')
    } else if b == 0x8C {
        Some('\u{0152}')
    } else if b == 0x8E {
        Some('\u{017D}')
    } else if b == 0x91 {
        Some('\u{2018}')
    } else if b == 0x92 {
        Some('\u{2019}')
    } else if b == 0x93 {
        Some('\u{201C}')
    } else if b == 0x94 {
        Some('\u{201D}')
    } else if b == 0x95 {
        Some('\u{2022}')
    } else if b == 0x96 {
        Some('\u{2013}')
    } else if b == 0x97 {
        Some('\u{2014}')
    } else if b == 0x98 {
        Some('\u{02DC}')
    } else if b == 0x99 {
        Some('\u{2122}')
    } else if b == 0x9A {
        Some('\u{0161}')
    } else if b == 0x9B {
        Some('\u{203A}')
    } else if b == 0x9C {
        Some('\u{0153}')
    } else if b == 0x9E {
        Some('\u{017E}')
    } else if b == 0x9F {
        Some('\u{0178}')
    } else {
        None
    }
}

/// Some byte of the buffer has no character in Windows-1252.
pub open spec fn has_unmapped_byte(bytes: Seq<u8>) -> bool {
    exists|i: int| 0 <= i < bytes.len() && windows_1252(#[trigger] bytes[i]) is None
}

/// The buffer read as Windows-1252, byte by byte.
pub open spec fn windows_1252_text(bytes: Seq<u8>) -> Seq<char> {
    Seq::new(bytes.len(), |i: int| windows_1252(bytes[i]).unwrap())
}

/// Why a buffer is not text.
#[derive(Debug, Clone, Copy, PartialEq, Eq, Structural)]
pub enum EncodingFailure {
    /// A byte-order mark is followed by bytes that are not UTF-8.
    InvalidUtf8,
    /// The content looks binary.
    Binary,
    /// A byte has no character in Windows-1252.
    UnmappedByte,
    /// The content holds a NUL character.
    EmbeddedNul,
}

/// What a buffer decodes to, or why it is not text.
pub open spec fn decoded(bytes: Seq<u8>) -> Result<Seq<char>, EncodingFailure> {
    if has_utf8_bom(bytes) {
        if valid_utf8(bytes.skip(3)) {
            Ok(decode_utf8(bytes.skip(3)))
        } else {
            Err(EncodingFailure::InvalidUtf8)
        }
    } else if valid_utf8(bytes) && !decode_utf8(bytes).contains('\0') {
        Ok(decode_utf8(bytes))
    } else if looks_binary(bytes) {
        Err(EncodingFailure::Binary)
    } else if has_unmapped_byte(bytes) {
        Err(EncodingFailure::UnmappedByte)
    } else if bytes.contains(0u8) {
        Err(EncodingFailure::EmbeddedNul)
    } else {
        Ok(windows_1252_text(bytes))
    }
}

/// The sentence that explains a failure.
pub open spec fn failure_reason(f: EncodingFailure) -> Seq<char> {
    match f {
        EncodingFailure::InvalidUtf8 => "Invalid UTF-8 after byte-order mark"@,
        EncodingFailure::Binary => "Content appears to be binary"@,
        EncodingFailure::UnmappedByte => "Content is not valid Windows-1252"@,
        EncodingFailure::EmbeddedNul => "Content contains NUL characters"@,
    }
}

/// Whether content is text or binary.
#[derive(Debug, Clone, Copy, PartialEq, Eq, Structural)]
pub enum ContentKind {
    Text,
    Binary,
}

// ---------------------------------------------------------------------------
// Laws
// ---------------------------------------------------------------------------

/// A buffer that carries a binary signature and no UTF-8 byte-order mark,
/// and is not itself UTF-8 text, is never decoded.
pub proof fn lemma_signature_is_binary(bytes: Seq<u8>)
    requires
        has_binary_signature(bytes),
        !valid_utf8(bytes) || decode_utf8(bytes).contains('\0'),
    ensures
        decoded(bytes) == Err::<Seq<char>, EncodingFailure>(EncodingFailure::Binary),
{
}

/// Text that was decoded without a byte-order mark holds no NUL character.
pub proof fn lemma_decoded_text_has_no_nul(bytes: Seq<u8>)
    requires
        !has_utf8_bom(bytes),
        decoded(bytes) is Ok,
    ensures
        !decoded(bytes).unwrap().contains('\0'),
{
    if valid_utf8(bytes) && !decode_utf8(bytes).contains('\0') {
    } else {
        let text = windows_1252_text(bytes);
        if text.contains('\0') {
            let i = choose|i: int| 0 <= i < text.len() && text[i] == '\0';
            assert(windows_1252(bytes[i]) == Some('\0'));
            assert(bytes[i] == 0u8);
            assert(bytes.contains(0u8));
        }
    }
}

// ---------------------------------------------------------------------------
// Executable functions
// ---------------------------------------------------------------------------

fn windows_1252_char(b: u8) -> (r: Option<char>)
    ensures
        r == windows_1252(b),
{
    if b < 0x80 || b >= 0xA0 {
        Some(b as char)
    } else if b == 0x80 {
        Some('\u{20AC}')
    } else if b == 0x82 {
        Some('\u{201A}')
    } else if b == 0x83 {
        Some('\u{0192}')
    } else if b == 0x84 {
        Some('\u{201E}')
    } else if b == 0x85 {
        Some('\u{2026}')
    } else if b == 0x86 {
        Some('\u{2020}')
    } else if b == 0x87 {
        Some('\u{2021}')
    } else if b == 0x88 {
        Some('\u{02C6}')
    } else if b == 0x89 {
        Some('\u{2030}')
    } else if b == 0x8A {
        Some('\u{0160}')
    } else if b == 0x8B {
        Some('\u{2039}')
    } else if b == 0x8C {
        Some('\u{0152}')
    } else if b == 0x8E {
        Some('\u{017D}')
    } else if b == 0x91 {
        Some('\u{2018}')
    } else if b == 0x92 {
        Some('\u{2019}')
    } else if b == 0x93 {
        Some('\u{201C}')
    } else if b == 0x94 {
        Some('\u{201D}')
    } else if b == 0x95 {
        Some('\u{2022}')
    } else if b == 0x96 {
        Some('\u{2013}')
    } else if b == 0x97 {
        Some('\u{2014}')
    } else if b == 0x98 {
        Some('\u{02DC}')
    } else if b == 0x99 {
        Some('\u{2122}')
    } else if b == 0x9A {
        Some('\u{0161}')
    } else if b == 0x9B {
        Some('\u{203A}')
    } else if b == 0x9C {
        Some('\u{0153}')
    } else if b == 0x9E {
        Some('\u{017E}')
    } else if b == 0x9F {
        Some('\u{0178}')
    } else {
        None
    }
}

fn byte_is_control(b: u8) -> (r: bool)
    ensures
        r == is_control_byte(b),
{
    (b < 0x20 && b != 0x09 && b != 0x0A && b != 0x0D) || b == 0x7F
}

/// Whether the buffer carries a binary signature.
pub fn starts_with_binary_signature(bytes: &[u8]) -> (r: bool)
    ensures
        r == has_binary_signature(bytes@),
{
    if bytes.len() < 2 {
        return false;
    }
    let a = bytes[0];
    let b = bytes[1];
    (a == 0xFF && b == 0xD8) || (a == 0x42 && b == 0x4D) || (a == 0x89 && b == 0x50) || (a == 0x50
        && b == 0x4B) || (a == 0xFF && b == 0xFE) || (a == 0xFE && b == 0xFF)
}

/// Whether the buffer looks binary: see [`looks_binary`].
pub fn appears_binary(bytes: &[u8]) -> (r: bool)
    ensures
        r == looks_binary(bytes@),
{
    if starts_with_binary_signature(bytes) {
        return true;
    }
    let n: usize = if bytes.len() > SAMPLE_SIZE {
        SAMPLE_SIZE
    } else {
        bytes.len()
    };
    let ghost s = sample_of(bytes@);
    let mut hist: Vec<usize> = Vec::new();
    let mut k: usize = 0;
    while k < 256
        invariant
            k <= 256,
            hist.len() == k,
            forall|j: int| 0 <= j < k ==> hist[j] == 0,
        decreases 256 - k,
    {
        hist.push(0);
        k += 1;
    }
    let mut controls: usize = 0;
    let mut i: usize = 0;
    assert(s.take(0) =~= Seq::<u8>::empty());
    assert forall|b: u8| count_of(Seq::<u8>::empty(), b) == 0 by {}
    while i < n
        invariant
            i <= n,
            n == s.len(),
            n <= SAMPLE_SIZE,
            n <= bytes.len(),
            s == sample_of(bytes@),
            hist.len() == 256,
            controls == count_control(s.take(i as int)),
            controls <= i,
            forall|b: u8| #[trigger] hist[b as int] == count_of(s.take(i as int), b),
            forall|b: u8| #[trigger] hist[b as int] <= i,
        decreases n - i,
    {
        let byte = bytes[i];
        let ghost old_hist = hist@;
        proof {
            assert(s.take(i + 1).drop_last() =~= s.take(i as int));
            assert(s.take(i + 1).last() == byte);
        }
        let count = hist[byte as usize];
        hist.set(byte as usize, count + 1);
        if byte_is_control(byte) {
            controls += 1;
        }
        assert forall|b: u8| #[trigger] hist[b as int] == count_of(s.take(i + 1), b) by {
            assert(old_hist[b as int] == count_of(s.take(i as int), b));
        }
        assert forall|b: u8| #[trigger] hist[b as int] <= i + 1 by {
            assert(old_hist[b as int] <= i);
        }
        i += 1;
    }
    assert(s.take(n as int) =~= s);
    let nuls = hist[0];
    assert(nuls == count_of(s, 0u8)) by {
        assert(hist[0u8 as int] == count_of(s, 0u8));
    }
    if nuls * 100 > NUL_PERCENT * n {
        return true;
    }
    if controls * 100 > CONTROL_PERCENT * n {
        return true;
    }
    let mut b: usize = 0;
    while b < 256
        invariant
            b <= 256,
            hist.len() == 256,
            n == s.len(),
            n <= SAMPLE_SIZE,
            s == sample_of(bytes@),
            forall|v: u8| #[trigger] hist[v as int] == count_of(s, v),
            forall|v: u8| #[trigger] hist[v as int] <= n,
            forall|v: u8| v < b ==> !(#[trigger] count_of(s, v) * 100 > DOMINANT_PERCENT * s.len()),
        decreases 256 - b,
    {
        let ghost v = b as u8;
        assert(hist[v as int] == count_of(s, v));
        assert(hist[v as int] <= n);
        if hist[b] * 100 > DOMINANT_PERCENT * n {
            assert(count_of(s, v) * 100 > DOMINANT_PERCENT * s.len());
            return true;
        }
        b += 1;
    }
    false
}

/// Decodes a buffer as text, or says why it is not text: see [`decoded`].
pub fn decode_bytes(bytes: &[u8]) -> (r: Result<String, EncodingFailure>)
    ensures
        (match r {
            Ok(text) => Ok::<Seq<char>, EncodingFailure>(text@),
            Err(f) => Err(f),
        }) == decoded(bytes@),
{
    let n = bytes.len();
    if n >= 3 && bytes[0] == 0xEF && bytes[1] == 0xBB && bytes[2] == 0xBF {
        let rest = slice_subrange(bytes, 3, n);
        assert(rest@ =~= bytes@.skip(3));
        return match core::str::from_utf8(rest) {
            Ok(s) => {
                proof {
                    encode_utf8_decode_utf8(s@);
                }
                Ok(String::from_str(s))
            },
            Err(_) => Err(EncodingFailure::InvalidUtf8),
        };
    }
    match core::str::from_utf8(bytes) {
        Ok(s) => {
            proof {
                encode_utf8_decode_utf8(s@);
            }
            let chars = chars_of(s);
            let mut i: usize = 0;
            let mut clean = true;
            while i < chars.len() && clean
                invariant
                    i <= chars.len(),
                    clean ==> forall|j: int| 0 <= j < i ==> chars[j] != '\0',
                    !clean ==> chars@.contains('\0'),
                decreases chars.len() - i + (if clean { 1int } else { 0int }),
            {
                if chars[i] == '\0' {
                    clean = false;
                } else {
                    i += 1;
                }
            }
            if clean {
                return Ok(String::from_str(s));
            }
        },
        Err(_) => {},
    }
    if appears_binary(bytes) {
        return Err(EncodingFailure::Binary);
    }
    let mut text = String::new();
    let mut unmapped = false;
    let mut nul = false;
    let mut i: usize = 0;
    while i < n
        invariant
            i <= n,
            n == bytes.len(),
            unmapped == has_unmapped_byte(bytes@.take(i as int)),
            nul == bytes@.take(i as int).contains(0u8),
            !unmapped ==> text@ == windows_1252_text(bytes@.take(i as int)),
        decreases n - i,
    {
        let b = bytes[i];
        let ghost before = bytes@.take(i as int);
        let ghost after = bytes@.take(i + 1);
        proof {
            assert(after =~= before.push(b));
            assert(after[i as int] == b);
            if has_unmapped_byte(before) {
                let j = choose|j: int| 0 <= j < before.len() && windows_1252(before[j]) is None;
                assert(after[j] == before[j]);
            }
            if has_unmapped_byte(after) && windows_1252(b) is Some {
                let j = choose|j: int| 0 <= j < after.len() && windows_1252(after[j]) is None;
                assert(before[j] == after[j]);
            }
            if before.contains(0u8) {
                let j = choose|j: int| 0 <= j < before.len() && before[j] == 0u8;
                assert(after[j] == 0u8);
            }
            if after.contains(0u8) && b != 0 {
                let j = choose|j: int| 0 <= j < after.len() && after[j] == 0u8;
                assert(before[j] == 0u8);
            }
        }
        if b == 0 {
            nul = true;
        }
        match windows_1252_char(b) {
            Some(c) => {
                if !unmapped {
                    text.push(c);
                    assert(text@ =~= windows_1252_text(after));
                }
            },
            None => {
                unmapped = true;
            },
        }
        i += 1;
    }
    assert(bytes@.take(n as int) =~= bytes@);
    if unmapped {
        Err(EncodingFailure::UnmappedByte)
    } else if nul {
        Err(EncodingFailure::EmbeddedNul)
    } else {
        Ok(text)
    }
}

/// Whether a buffer is text or binary: it is text exactly where it decodes.
pub fn classify(bytes: &[u8]) -> (kind: ContentKind)
    ensures
        kind == (if decoded(bytes@) is Ok {
            ContentKind::Text
        } else {
            ContentKind::Binary
        }),
{
    match decode_bytes(bytes) {
        Ok(_) => ContentKind::Text,
        Err(_) => ContentKind::Binary,
    }
}

impl EncodingFailure {
    /// The sentence that explains this failure.
    pub fn reason(&self) -> (s: String)
        ensures
            s@ == failure_reason(*self),
    {
        match self {
            EncodingFailure::InvalidUtf8 => String::from_str("Invalid UTF-8 after byte-order mark"),
            EncodingFailure::Binary => String::from_str("Content appears to be binary"),
            EncodingFailure::UnmappedByte => String::from_str("Content is not valid Windows-1252"),
            EncodingFailure::EmbeddedNul => String::from_str("Content contains NUL characters"),
        }
    }
}

/// The bytes of one extracted file, with the path they were read from.
#[derive(Debug, Clone, PartialEq, Eq)]
pub struct BinaryContent {
    path: String,
    data: Vec<u8>,
}

impl BinaryContent {
    /// The path the content was read from.
    pub closed spec fn path(&self) -> Seq<char> {
        self.path@
    }

    /// The bytes of the content.
    pub closed spec fn bytes(&self) -> Seq<u8> {
        self.data@
    }

    /// The content `data` of the file at `path`.
    pub fn new(path: String, data: Vec<u8>) -> (c: BinaryContent)
        ensures
            c.path() == path@,
            c.bytes() == data@,
    {
        BinaryContent { path, data }
    }

    /// The bytes of the content.
    pub fn as_bytes(&self) -> (b: &[u8])
        ensures
            b@ == self.bytes(),
    {
        self.data.as_slice()
    }

    /// Whether the content is text or binary.
    pub fn kind(&self) -> (kind: ContentKind)
        ensures
            kind == (if decoded(self.bytes()) is Ok {
                ContentKind::Text
            } else {
                ContentKind::Binary
            }),
    {
        classify(self.data.as_slice())
    }

    /// The content as text, or an encoding error that names the path and
    /// the reason.
    pub fn decode_text(&self) -> (r: Result<String, PboError>)
        ensures
            (match r {
                Ok(text) => Ok::<Seq<char>, PboErrorView>(text@),
                Err(e) => Err(e@),
            }) == (match decoded(self.bytes()) {
                Ok(text) => Ok::<Seq<char>, PboErrorView>(text),
                Err(f) => Err(
                    PboErrorView::Encoding { context: failure_reason(f), path: self.path() },
                ),
            }),
    {
        match decode_bytes(self.data.as_slice()) {
            Ok(text) => Ok(text),
            Err(f) => Err(PboError::Encoding { context: f.reason(), path: self.path.clone() }),
        }
    }
}

} // verus!
