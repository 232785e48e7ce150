//! A string that is either raw bytes or wide text, and its best-effort
//! conversions to text and to a path.

use std::borrow::Cow;
use vstd::prelude::*;
use vstd::utf8::decode_utf8;
use vstd::utf8::valid_utf8;

verus! {

/// The character that stands in for data that cannot be decoded.
pub const REPLACEMENT_CHARACTER: char = '\u{FFFD}';

/// A string in the form the platform keeps it: raw bytes, or wide text in
/// 16-bit units. Neither is guaranteed to be valid text.
#[derive(Debug)]
pub enum BytesOrWideString<'a> {
    /// A slice of bytes, as Unix-like platforms provide.
    Bytes(&'a [u8]),
    /// A slice of 16-bit units, as Windows provides.
    Wide(&'a [u16]),
}

/// The convention by which a platform encodes its paths.
#[derive(Clone, Copy, Debug, PartialEq, Eq)]
pub enum PathConvention {
    /// Paths are arbitrary bytes.
    Unix,
    /// Paths are arbitrary 16-bit units.
    Windows,
    /// Paths are text.
    Portable,
}

/// A path-shaped value: either the platform's own encoding, kept as it was,
/// or text.
#[derive(Debug)]
pub enum PathRepr<'a> {
    /// The bytes of a path under the Unix convention.
    Bytes(&'a [u8]),
    /// The units of a path under the Windows convention.
    Wide(&'a [u16]),
    /// A path given as text.
    Text(Cow<'a, str>),
}

/// The text that `String::from_utf8_lossy` makes of a byte sequence.
pub uninterp spec fn utf8_lossy(bytes: Seq<u8>) -> Seq<char>;

/// A unit from the first half of the surrogate range, which opens a pair.
pub open spec fn is_leading_surrogate(unit: u16) -> bool {
    0xD800 <= unit <= 0xDBFF
}

/// A unit from the second half of the surrogate range, which closes a pair.
pub open spec fn is_trailing_surrogate(unit: u16) -> bool {
    0xDC00 <= unit <= 0xDFFF
}

/// A unit that is no character by itself.
pub open spec fn is_surrogate(unit: u16) -> bool {
    0xD800 <= unit <= 0xDFFF
}

/// The sequence begins with a leading surrogate directly followed by a
/// trailing one.
pub open spec fn starts_with_pair(units: Seq<u16>) -> bool {
    units.len() >= 2 && is_leading_surrogate(units[0]) && is_trailing_surrogate(units[1])
}

/// The character that a surrogate pair encodes.
pub open spec fn pair_scalar(leading: u16, trailing: u16) -> char {
    ((0x10000 + (leading - 0xD800) * 0x400 + (trailing - 0xDC00)) as u32) as char
}

/// The lossy decoding of UTF-16: a surrogate pair gives the character it
/// encodes, any other surrogate gives the replacement character, and every
/// other unit gives the character with that code.
pub open spec fn utf16_lossy(units: Seq<u16>) -> Seq<char>
    decreases units.len(),
{
    if units.len() == 0 {
        Seq::empty()
    } else if starts_with_pair(units) {
        seq![pair_scalar(units[0], units[1])] + utf16_lossy(units.skip(2))
    } else if is_surrogate(units[0]) {
        seq![REPLACEMENT_CHARACTER] + utf16_lossy(units.skip(1))
    } else {
        seq![(units[0] as u32) as char] + utf16_lossy(units.skip(1))
    }
}

/// No surrogate pair straddles the point where `before` ends and `after`
/// begins.
pub open spec fn splits_no_pair(before: Seq<u16>, after: Seq<u16>) -> bool {
    !(before.len() > 0 && is_leading_surrogate(before.last()) && after.len() > 0
        && is_trailing_surrogate(after[0]))
}

/// Lossy decoding goes piece by piece: where no pair straddles the joint,
/// the text of two sequences joined is the two texts joined.
pub proof fn lemma_utf16_lossy_concat(before: Seq<u16>, after: Seq<u16>)
    requires
        splits_no_pair(before, after),
    ensures
        utf16_lossy(before + after) == utf16_lossy(before) + utf16_lossy(after),
    decreases before.len(),
{
    let whole = before + after;
    if before.len() == 0 {
        assert(whole =~= after);
        assert(utf16_lossy(before) + utf16_lossy(after) =~= utf16_lossy(after));
    } else {
        let step: int = if starts_with_pair(before) { 2 } else { 1 };
        let rest = before.skip(step);
        assert(starts_with_pair(whole) == starts_with_pair(before));
        assert(whole[0] == before[0]);
        assert(whole.skip(step) =~= rest + after);
        assert(splits_no_pair(rest, after)) by {
            if rest.len() > 0 {
                assert(rest.last() == before.last());
            }
        }
        lemma_utf16_lossy_concat(rest, after);
        assert(utf16_lossy(whole) =~= utf16_lossy(before) + utf16_lossy(after));
    }
}

/// A surrogate that is no part of a pair, wherever it stands in a wide
/// string, comes out as exactly one replacement character, and the text
/// before and after it is what it would be without it.
pub proof fn lemma_unpaired_surrogate_replaced(before: Seq<u16>, unit: u16, after: Seq<u16>)
    requires
        is_surrogate(unit),
        is_trailing_surrogate(unit) ==> !(before.len() > 0 && is_leading_surrogate(before.last())),
        is_leading_surrogate(unit) ==> !(after.len() > 0 && is_trailing_surrogate(after[0])),
    ensures
        utf16_lossy(before + seq![unit] + after) == utf16_lossy(before)
            + seq![REPLACEMENT_CHARACTER] + utf16_lossy(after),
{
    let tail = seq![unit] + after;
    assert(before + seq![unit] + after =~= before + tail);
    lemma_utf16_lossy_concat(before, tail);
    assert(!starts_with_pair(tail));
    assert(tail.skip(1) =~= after);
    assert(utf16_lossy(tail) =~= seq![REPLACEMENT_CHARACTER] + utf16_lossy(after));
    assert(utf16_lossy(before) + (seq![REPLACEMENT_CHARACTER] + utf16_lossy(after))
        =~= utf16_lossy(before) + seq![REPLACEMENT_CHARACTER] + utf16_lossy(after));
}

/// `String::from_utf8_lossy`: the text of `bytes`, with each invalid sequence
/// replaced. Valid UTF-8 is decoded as it stands.
#[verifier::external_body]
fn text_of_bytes<'a>(bytes: &'a [u8]) -> (text: Cow<'a, str>)
    ensures
        text@ == utf8_lossy(bytes@),
        valid_utf8(bytes@) ==> text@ == decode_utf8(bytes@),
{
    String::from_utf8_lossy(bytes)
}

/// `String::from_utf16_lossy`: the lossy decoding of `units`.
#[verifier::external_body]
fn text_of_wide(units: &[u16]) -> (text: String)
    ensures
        text@ == utf16_lossy(units@),
{
    String::from_utf16_lossy(units)
}

impl<'a> BytesOrWideString<'a> {
    /// The text that the lossy conversion gives.
    pub open spec fn lossy_text(self) -> Seq<char> {
        match self {
            BytesOrWideString::Bytes(bytes) => utf8_lossy(bytes@),
            BytesOrWideString::Wide(units) => utf16_lossy(units@),
        }
    }

    /// Converts to text, replacing what cannot be decoded. Never fails.
    pub fn to_str_lossy(&self) -> (text: Cow<'a, str>)
        ensures
            text@ == self.lossy_text(),
            match *self {
                BytesOrWideString::Bytes(bytes) => valid_utf8(bytes@) ==> text@ == decode_utf8(
                    bytes@,
                ),
                BytesOrWideString::Wide(_) => true,
            },
    {
        match self {
            BytesOrWideString::Bytes(bytes) => text_of_bytes(bytes),
            BytesOrWideString::Wide(units) => Cow::Owned(text_of_wide(units)),
        }
    }

    /// Converts to a path-shaped value. Where the string is already in the
    /// encoding of `convention`, it is kept as it is; otherwise the path is
    /// the text that the lossy conversion gives. Never fails.
    pub fn into_path_buf(self, convention: PathConvention) -> (path: PathRepr<'a>)
        ensures
            match (self, convention) {
                (BytesOrWideString::Bytes(bytes), PathConvention::Unix) => path matches PathRepr::Bytes(
                    kept,
                ) && kept@ == bytes@,
                (BytesOrWideString::Wide(units), PathConvention::Windows) => path matches PathRepr::Wide(
                    kept,
                ) && kept@ == units@,
                _ => path matches PathRepr::Text(text) && text@ == self.lossy_text(),
            },
            match (self, path) {
                (BytesOrWideString::Bytes(bytes), PathRepr::Text(text)) => valid_utf8(bytes@)
                    ==> text@ == decode_utf8(bytes@),
                _ => true,
            },
    {
        match (&self, convention) {
            (BytesOrWideString::Bytes(bytes), PathConvention::Unix) => PathRepr::Bytes(bytes),
            (BytesOrWideString::Wide(units), PathConvention::Windows) => PathRepr::Wide(units),
            _ => PathRepr::Text(self.to_str_lossy()),
        }
    }
}

} // verus!
