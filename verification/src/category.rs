//! The width categories and their resolution to a column count.

use vstd::prelude::*;

verus! {

/// The width class of a single codepoint.
#[derive(Copy, Clone, Debug, Eq, PartialEq, Structural)]
pub enum WcWidth {
    /// The character is single-width.
    One,
    /// The character is double-width.
    Two,
    /// The character is not printable.
    NonPrint,
    /// The character is a zero-width combiner.
    Combining,
    /// The character is East-Asian ambiguous width.
    Ambiguous,
    /// The character is for private use.
    PrivateUse,
    /// The character is unassigned.
    Unassigned,
    /// Width is 1 in Unicode 8, 2 in Unicode 9+.
    WidenedIn9,
    /// The character is a noncharacter.
    NonCharacter,
}

impl WcWidth {
    /// Columns taken under Unicode 8 or earlier.
    pub open spec fn legacy_columns(self) -> u8 {
        match self {
            WcWidth::One => 1,
            WcWidth::Two => 2,
            WcWidth::NonPrint => 0,
            WcWidth::Combining => 0,
            WcWidth::Unassigned => 0,
            WcWidth::NonCharacter => 0,
            WcWidth::Ambiguous => 1,
            WcWidth::PrivateUse => 1,
            WcWidth::WidenedIn9 => 1,
        }
    }

    /// Columns taken under Unicode 9 or later.
    pub open spec fn current_columns(self) -> u8 {
        match self {
            WcWidth::One => 1,
            WcWidth::Two => 2,
            WcWidth::NonPrint => 0,
            WcWidth::Combining => 0,
            WcWidth::Unassigned => 0,
            WcWidth::NonCharacter => 0,
            WcWidth::Ambiguous => 1,
            WcWidth::PrivateUse => 1,
            WcWidth::WidenedIn9 => 2,
        }
    }

    /// Returns the width for applications that use Unicode 8 or earlier.
    pub fn width_unicode_8_or_earlier(self) -> (w: u8)
        ensures
            w == self.legacy_columns(),
            w <= 2,
    {
        match self {
            Self::One => 1,
            Self::Two => 2,
            Self::NonPrint | Self::Combining | Self::Unassigned | Self::NonCharacter => 0,
            Self::Ambiguous | Self::PrivateUse => 1,
            Self::WidenedIn9 => 1,
        }
    }

    /// Returns the width for applications that use Unicode 9 or later.
    pub fn width_unicode_9_or_later(self) -> (w: u8)
        ensures
            w == self.current_columns(),
            w <= 2,
    {
        if self == Self::WidenedIn9 {
            return 2;
        }
        self.width_unicode_8_or_earlier()
    }
}

/// The two policies disagree on `WidenedIn9` alone: there the later one
/// gives 2 and the earlier one 1. On every other category they agree.
pub proof fn lemma_policies_differ_only_when_widened(category: WcWidth)
    ensures
        category == WcWidth::WidenedIn9 ==> category.current_columns() == 2
            && category.legacy_columns() == 1,
        category != WcWidth::WidenedIn9 ==> category.current_columns()
            == category.legacy_columns(),
{
}

/// Under either policy a width is 0, 1 or 2.
pub proof fn lemma_columns_at_most_two(category: WcWidth)
    ensures
        category.legacy_columns() <= 2,
        category.current_columns() <= 2,
{
}

} // verus!
