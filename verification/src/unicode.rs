//! The Unicode data this library relies on and does not prove.
//!
//! Three tables of the Unicode standard are used: canonical normalization,
//! the general category, and the lowercase mapping. Each is computed outside
//! of this library. Its result is a fixed function of the argument, which is
//! given a name here; the contracts of the library are stated over these
//! names.

use finl_unicode::categories::CharacterCategories;
use unicode_normalization::UnicodeNormalization;
use vstd::prelude::*;

use crate::category::MajorCategory;

verus! {

/// The text in Unicode Normalization Form C.
pub uninterp spec fn nfc_of(text: Seq<char>) -> Seq<char>;

/// The major general category of a character.
pub uninterp spec fn major_category_of(c: char) -> MajorCategory;

/// The full lowercase mapping of a character, in order.
pub uninterp spec fn lowercase_of(c: char) -> Seq<char>;

/// Normalizes a text with `UnicodeNormalization::nfc` of the crate
/// `unicode_normalization` and collects the characters that it yields.
///
/// Believed, not proved: the characters returned are those of `nfc_of`,
/// which is to say that they depend on the text alone; and a text without
/// characters has a normal form without characters.
#[verifier::external_body]
pub(crate) fn nfc(text: &str) -> (normalized: Vec<char>)
    ensures
        normalized@ == nfc_of(text@),
        text@.len() == 0 ==> normalized@.len() == 0,
{
    text.nfc().collect()
}

/// Looks a character up with `CharacterCategories::get_major_category` of
/// the crate `finl_unicode` and renames the variant that it returns.
///
/// Believed, not proved: the category returned is `major_category_of`,
/// which is to say that it depends on the character alone. The lookup
/// panics on a table entry that stands for no category; its tables hold no
/// such entry, so it returns for every character.
#[verifier::external_body]
pub(crate) fn major_category(c: char) -> (category: MajorCategory)
    ensures
        category == major_category_of(c),
{
    match c.get_major_category() {
        finl_unicode::categories::MajorCategory::L => MajorCategory::Letter,
        finl_unicode::categories::MajorCategory::M => MajorCategory::Mark,
        finl_unicode::categories::MajorCategory::N => MajorCategory::Number,
        finl_unicode::categories::MajorCategory::P => MajorCategory::Punctuation,
        finl_unicode::categories::MajorCategory::S => MajorCategory::Symbol,
        finl_unicode::categories::MajorCategory::Z => MajorCategory::Separator,
        finl_unicode::categories::MajorCategory::C => MajorCategory::Other,
    }
}

/// Lowercases a character with `char::to_lowercase` of the standard
/// library and collects the characters that it yields.
///
/// Believed, not proved: the characters returned are those of
/// `lowercase_of`, which is to say that they depend on the character alone.
#[verifier::external_body]
pub(crate) fn lowercase(c: char) -> (lowered: Vec<char>)
    ensures
        lowered@ == lowercase_of(c),
{
    c.to_lowercase().collect()
}

/// Builds a string with `String::from_iter` of the standard library.
///
/// Believed, not proved: the string holds the characters handed in, in
/// their order.
#[verifier::external_body]
pub(crate) fn string_of(chars: Vec<char>) -> (text: String)
    ensures
        text@ == chars@,
{
    String::from_iter(chars)
}

} // verus!
