//! What the debugger leaves to others: trimming, upper-casing and number
//! parsing to the standard library, the hex dump to the `pretty_hex` crate.
//!
//! None of this is proved. Each result has a name, and the contracts of the
//! debugger are stated over these names.

use pretty_hex::PrettyHex;
use vstd::prelude::*;

verus! {

/// The text that `str::trim` gives for `text`: `text` without the white space
/// at its start and at its end.
pub uninterp spec fn trimmed(text: Seq<char>) -> Seq<char>;

/// The text that `str::to_uppercase` gives for `text`.
pub uninterp spec fn uppercased(text: Seq<char>) -> Seq<char>;

/// The number that `str::parse::<u16>` reads from `text`, if it reads one.
pub uninterp spec fn parsed_u16(text: Seq<char>) -> Option<u16>;

/// The number that `str::parse::<u64>` reads from `text`, if it reads one.
pub uninterp spec fn parsed_u64(text: Seq<char>) -> Option<u64>;

/// The text that the `Debug` form of `pretty_hex::PrettyHex::hex_dump` gives
/// for `bytes`: a line with their number, then rows of sixteen bytes, each
/// with its offset, the bytes in hexadecimal and as characters.
pub uninterp spec fn hex_dump_text(bytes: Seq<u8>) -> Seq<char>;

/// Calls `str::trim`. Trusted: the result is the text that `trimmed` names.
#[verifier::external_body]
pub(crate) fn trim(text: &str) -> (res: &str)
    ensures
        res@ == trimmed(text@),
{
    text.trim()
}

/// Calls `str::to_uppercase`. Trusted: the result is the text that
/// `uppercased` names.
#[verifier::external_body]
pub(crate) fn to_uppercase(text: &str) -> (res: String)
    ensures
        res@ == uppercased(text@),
{
    text.to_uppercase()
}

/// Calls `str::parse::<u16>` and keeps the number of an `Ok`. Trusted: the
/// result is what `parsed_u16` names.
#[verifier::external_body]
pub(crate) fn parse_u16(text: &str) -> (res: Option<u16>)
    ensures
        res == parsed_u16(text@),
{
    text.parse::<u16>().ok()
}

/// Calls `str::parse::<u64>` and keeps the number of an `Ok`. Trusted: the
/// result is what `parsed_u64` names.
#[verifier::external_body]
pub(crate) fn parse_u64(text: &str) -> (res: Option<u64>)
    ensures
        res == parsed_u64(text@),
{
    text.parse::<u64>().ok()
}

/// Calls `pretty_hex::PrettyHex::hex_dump` on the bytes and formats what it
/// returns with `{:?}`. Trusted: the result is the text that `hex_dump_text`
/// names.
#[verifier::external_body]
pub(crate) fn hex_dump(bytes: &Vec<u8>) -> (res: String)
    ensures
        res@ == hex_dump_text(bytes@),
{
    format!("{:?}", bytes.hex_dump())
}

} // verus!
