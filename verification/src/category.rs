//! Major general categories and what a slug does with each of them.

use vstd::prelude::*;

verus! {

/// The seven major classes of the Unicode General Category.
#[derive(Clone, Copy, Debug, PartialEq, Eq, Structural)]
pub enum MajorCategory {
    /// Letters of every script, cased or not.
    Letter,
    /// Combining marks.
    Mark,
    /// Digits and other numeric characters.
    Number,
    /// Punctuation, the hyphen among it.
    Punctuation,
    /// Mathematical, currency and other symbols.
    Symbol,
    /// Spaces, line and paragraph separators.
    Separator,
    /// Control, format, private use and unassigned characters.
    Other,
}

/// How a character of a given category enters a slug.
#[derive(Clone, Copy, Debug, PartialEq, Eq, Structural)]
pub enum Treatment {
    /// The character is replaced by its lowercase mapping.
    Lowercase,
    /// The character is copied as it is.
    Keep,
    /// The character ends a word: a run of such characters becomes one hyphen.
    Hyphenate,
}

impl MajorCategory {
    /// The treatment of each category.
    pub open spec fn treatment_of(self) -> Treatment {
        match self {
            MajorCategory::Letter => Treatment::Lowercase,
            MajorCategory::Mark | MajorCategory::Number | MajorCategory::Symbol => Treatment::Keep,
            MajorCategory::Punctuation | MajorCategory::Separator | MajorCategory::Other =>
                Treatment::Hyphenate,
        }
    }

    /// Tells how a character of this category enters a slug.
    pub fn treatment(self) -> (treatment: Treatment)
        ensures
            treatment == self.treatment_of(),
    {
        match self {
            MajorCategory::Letter => Treatment::Lowercase,
            MajorCategory::Mark | MajorCategory::Number | MajorCategory::Symbol => Treatment::Keep,
            MajorCategory::Punctuation | MajorCategory::Separator | MajorCategory::Other =>
                Treatment::Hyphenate,
        }
    }
}

} // verus!
