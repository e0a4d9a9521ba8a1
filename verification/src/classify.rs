//! The lookup engine: an ordered list of tables, each with the category it
//! stands for, searched front to back.

use crate::category::WcWidth;
use crate::ranges::{
    in_table, lemma_range_points_contained, midpoint, table_contains, table_ordered, CodeRange,
};
use crate::tables::{
    lemma_tables_ordered, AMBIGUOUS_TABLE, ASCII_TABLE, COMBININGLETTERS_TABLE, COMBINING_TABLE,
    DOUBLEWIDE_TABLE, NONCHAR_TABLE, NONPRINT_TABLE, PRIVATE_TABLE, UNASSIGNED_TABLE,
    WIDENED_TABLE,
};
use vstd::prelude::*;

verus! {

/// A priority list as contracts see it: tables with their categories, the
/// one consulted first standing first.
pub type Priority = Seq<(Seq<CodeRange>, WcWidth)>;

/// What contracts see of a priority list held in memory.
pub open spec fn rules_view(rules: Seq<(&[CodeRange], WcWidth)>) -> Priority {
    Seq::new(rules.len(), |k: int| (rules[k].0@, rules[k].1))
}

/// Every table of the list is ordered.
pub open spec fn all_ordered(order: Priority) -> bool {
    forall|k: int| 0 <= k < order.len() ==> table_ordered(#[trigger] order[k].0)
}

/// None of the first `k` tables contains `c`.
pub open spec fn unmatched_before(order: Priority, k: int, c: u32) -> bool {
    forall|j: int| 0 <= j < k && j < order.len() ==> !table_contains(#[trigger] order[j].0, c)
}

/// Table `k` is the first of the list that contains `c`.
pub open spec fn decides(order: Priority, k: int, c: u32) -> bool {
    &&& 0 <= k < order.len()
    &&& table_contains(order[k].0, c)
    &&& unmatched_before(order, k, c)
}

/// The category of the first table that contains `c`, and `One` where no
/// table does.
pub open spec fn first_category(order: Priority, c: u32) -> WcWidth {
    if exists|k: int| decides(order, k, c) {
        order[choose|k: int| decides(order, k, c)].1
    } else {
        WcWidth::One
    }
}

/// The built-in priority list. The order is a matter of policy: a codepoint
/// that stands in two tables belongs to the earlier one.
pub open spec fn priority() -> Priority {
    seq![
        (ASCII_TABLE@, WcWidth::One),
        (PRIVATE_TABLE@, WcWidth::PrivateUse),
        (NONPRINT_TABLE@, WcWidth::NonPrint),
        (NONCHAR_TABLE@, WcWidth::NonCharacter),
        (COMBINING_TABLE@, WcWidth::Combining),
        (COMBININGLETTERS_TABLE@, WcWidth::Combining),
        (DOUBLEWIDE_TABLE@, WcWidth::Two),
        (AMBIGUOUS_TABLE@, WcWidth::Ambiguous),
        (UNASSIGNED_TABLE@, WcWidth::Unassigned),
        (WIDENED_TABLE@, WcWidth::WidenedIn9),
    ]
}

/// The category of `c` under the built-in priority list.
pub open spec fn spec_classify(c: u32) -> WcWidth {
    first_category(priority(), c)
}

/// At most one position of a list decides a codepoint.
pub proof fn lemma_decider_unique(order: Priority, k1: int, k2: int, c: u32)
    requires
        decides(order, k1, c),
        decides(order, k2, c),
    ensures
        k1 == k2,
{
    if k1 < k2 {
        assert(!table_contains(order[k1].0, c));
    } else if k2 < k1 {
        assert(!table_contains(order[k2].0, c));
    }
}

/// The first table that contains a codepoint gives it its category.
pub proof fn lemma_first_match_wins(order: Priority, k: int, c: u32)
    requires
        decides(order, k, c),
    ensures
        first_category(order, c) == order[k].1,
{
    let chosen = choose|j: int| decides(order, j, c);
    lemma_decider_unique(order, chosen, k, c);
}

/// A codepoint that no table contains is of category `One`.
pub proof fn lemma_no_match_is_one(order: Priority, c: u32)
    requires
        unmatched_before(order, order.len() as int, c),
    ensures
        first_category(order, c) == WcWidth::One,
{
    assert forall|k: int| !decides(order, k, c) by {
        if 0 <= k < order.len() {
            assert(!table_contains(order[k].0, c));
        }
    }
}

/// Where some table contains a codepoint, some position of the list decides
/// it: the least one whose table contains it.
pub proof fn lemma_some_table_decides(order: Priority, j: int, c: u32)
    requires
        0 <= j < order.len(),
        table_contains(order[j].0, c),
    ensures
        exists|k: int| 0 <= k <= j && decides(order, k, c),
    decreases j,
{
    if unmatched_before(order, j, c) {
        assert(decides(order, j, c));
    } else {
        let earlier = choose|i: int|
            0 <= i < j && i < order.len() && table_contains(#[trigger] order[i].0, c);
        lemma_some_table_decides(order, earlier, c);
    }
}

/// Every codepoint has exactly one category. Either a single position of
/// the list decides it and it has the category standing there, or no table
/// contains it and it is `One`; never both.
pub proof fn lemma_category_total(order: Priority, c: u32)
    ensures
        (exists|k: int| decides(order, k, c)) != unmatched_before(order, order.len() as int, c),
        forall|k: int| decides(order, k, c) ==> first_category(order, c) == order[k].1,
        unmatched_before(order, order.len() as int, c) ==> first_category(order, c)
            == WcWidth::One,
{
    if unmatched_before(order, order.len() as int, c) {
        lemma_no_match_is_one(order, c);
        assert forall|k: int| !decides(order, k, c) by {
            if 0 <= k < order.len() {
                assert(!table_contains(order[k].0, c));
            }
        }
    } else {
        let j = choose|j: int| 0 <= j < order.len() && table_contains(#[trigger] order[j].0, c);
        lemma_some_table_decides(order, j, c);
    }
    assert forall|k: int| decides(order, k, c) implies first_category(order, c)
        == order[k].1 by {
        lemma_first_match_wins(order, k, c);
    }
}

/// The start, the end and the midpoint of any range of any table of an
/// ordered list have that table's category, unless an earlier table of the
/// list contains the codepoint too.
pub proof fn lemma_range_points_classified(order: Priority, k: int, i: int, c: u32)
    requires
        all_ordered(order),
        0 <= k < order.len(),
        0 <= i < order[k].0.len(),
        c == order[k].0[i].0 || c == order[k].0[i].1 || c == midpoint(order[k].0[i]),
        unmatched_before(order, k, c),
    ensures
        first_category(order, c) == order[k].1,
{
    assert(table_ordered(order[k].0));
    lemma_range_points_contained(order[k].0, i);
    lemma_first_match_wins(order, k, c);
}

/// The built-in priority list is made of ordered tables.
pub proof fn lemma_priority_ordered()
    ensures
        all_ordered(priority()),
        priority().len() == 10,
{
    let order = priority();
    assert(order.len() == 10);
    assert(order[0].0 == ASCII_TABLE@);
    assert(order[1].0 == PRIVATE_TABLE@);
    assert(order[2].0 == NONPRINT_TABLE@);
    assert(order[3].0 == NONCHAR_TABLE@);
    assert(order[4].0 == COMBINING_TABLE@);
    assert(order[5].0 == COMBININGLETTERS_TABLE@);
    assert(order[6].0 == DOUBLEWIDE_TABLE@);
    assert(order[7].0 == AMBIGUOUS_TABLE@);
    assert(order[8].0 == UNASSIGNED_TABLE@);
    assert(order[9].0 == WIDENED_TABLE@);
    assert forall|k: int| 0 <= k < order.len() implies table_ordered(#[trigger] order[k].0) by {
        lemma_tables_ordered();
    }
}

/// Of the built-in tables: the start, the end and the midpoint of every
/// range have the category of the table the range stands in, unless a table
/// consulted earlier contains the codepoint too.
pub proof fn lemma_table_points_classified(k: int, i: int, c: u32)
    requires
        0 <= k < priority().len(),
        0 <= i < priority()[k].0.len(),
        c == priority()[k].0[i].0 || c == priority()[k].0[i].1 || c == midpoint(
            priority()[k].0[i],
        ),
        unmatched_before(priority(), k, c),
    ensures
        spec_classify(c) == priority()[k].1,
{
    lemma_priority_ordered();
    lemma_range_points_classified(priority(), k, i, c);
}

/// The built-in classification, written out check by check: printable
/// ASCII, private use, non-printing, noncharacter, combining marks,
/// combining letters, double-wide, ambiguous, unassigned, widened; the first
/// table that contains the codepoint decides, and `One` is left where none
/// does.
pub proof fn lemma_classify_in_order(c: u32)
    ensures
        spec_classify(c) == if table_contains(ASCII_TABLE@, c) {
            WcWidth::One
        } else if table_contains(PRIVATE_TABLE@, c) {
            WcWidth::PrivateUse
        } else if table_contains(NONPRINT_TABLE@, c) {
            WcWidth::NonPrint
        } else if table_contains(NONCHAR_TABLE@, c) {
            WcWidth::NonCharacter
        } else if table_contains(COMBINING_TABLE@, c) {
            WcWidth::Combining
        } else if table_contains(COMBININGLETTERS_TABLE@, c) {
            WcWidth::Combining
        } else if table_contains(DOUBLEWIDE_TABLE@, c) {
            WcWidth::Two
        } else if table_contains(AMBIGUOUS_TABLE@, c) {
            WcWidth::Ambiguous
        } else if table_contains(UNASSIGNED_TABLE@, c) {
            WcWidth::Unassigned
        } else if table_contains(WIDENED_TABLE@, c) {
            WcWidth::WidenedIn9
        } else {
            WcWidth::One
        },
{
    let order = priority();
    assert(order.len() == 10);
    if table_contains(order[0].0, c) {
        lemma_first_match_wins(order, 0, c);
    } else if table_contains(order[1].0, c) {
        lemma_first_match_wins(order, 1, c);
    } else if table_contains(order[2].0, c) {
        lemma_first_match_wins(order, 2, c);
    } else if table_contains(order[3].0, c) {
        lemma_first_match_wins(order, 3, c);
    } else if table_contains(order[4].0, c) {
        lemma_first_match_wins(order, 4, c);
    } else if table_contains(order[5].0, c) {
        lemma_first_match_wins(order, 5, c);
    } else if table_contains(order[6].0, c) {
        lemma_first_match_wins(order, 6, c);
    } else if table_contains(order[7].0, c) {
        lemma_first_match_wins(order, 7, c);
    } else if table_contains(order[8].0, c) {
        lemma_first_match_wins(order, 8, c);
    } else if table_contains(order[9].0, c) {
        lemma_first_match_wins(order, 9, c);
    } else {
        lemma_no_match_is_one(order, c);
    }
}

/// Classifies `c` against a priority list: the category of the first table
/// that contains `c`, and `One` where none does.
///
/// The answer is `One` or the category of a table that does contain `c`,
/// whatever the tables hold; where all of them are ordered it is exactly the
/// first match.
pub fn classify_with(rules: &[(&[CodeRange], WcWidth)], c: u32) -> (category: WcWidth)
    ensures
        category == WcWidth::One || exists|k: int|
            0 <= k < rules@.len() && category == (#[trigger] rules@[k]).1 && table_contains(
                rules@[k].0@,
                c,
            ),
        all_ordered(rules_view(rules@)) ==> category == first_category(rules_view(rules@), c),
{
    let ghost order = rules_view(rules@);
    let mut k: usize = 0;
    while k < rules.len()
        invariant
            k <= rules.len(),
            order == rules_view(rules@),
            all_ordered(order) ==> unmatched_before(order, k as int, c),
        decreases rules.len() - k,
    {
        let (table, category) = rules[k];
        if in_table(table, c) {
            proof {
                assert(order[k as int].0 == table@);
                if all_ordered(order) {
                    lemma_first_match_wins(order, k as int, c);
                }
            }
            return category;
        }
        proof {
            if all_ordered(order) {
                assert(table_ordered(order[k as int].0));
                assert(!table_contains(order[k as int].0, c));
            }
        }
        k += 1;
    }
    proof {
        if all_ordered(order) {
            lemma_no_match_is_one(order, c);
        }
    }
    WcWidth::One
}

/// Classifies the codepoint `c` against the built-in tables.
pub fn classify(c: u32) -> (category: WcWidth)
    ensures
        category == spec_classify(c),
{
    let rules: [(&[CodeRange], WcWidth); 10] = [
        (ASCII_TABLE.as_slice(), WcWidth::One),
        (PRIVATE_TABLE.as_slice(), WcWidth::PrivateUse),
        (NONPRINT_TABLE.as_slice(), WcWidth::NonPrint),
        (NONCHAR_TABLE.as_slice(), WcWidth::NonCharacter),
        (COMBINING_TABLE.as_slice(), WcWidth::Combining),
        (COMBININGLETTERS_TABLE.as_slice(), WcWidth::Combining),
        (DOUBLEWIDE_TABLE.as_slice(), WcWidth::Two),
        (AMBIGUOUS_TABLE.as_slice(), WcWidth::Ambiguous),
        (UNASSIGNED_TABLE.as_slice(), WcWidth::Unassigned),
        (WIDENED_TABLE.as_slice(), WcWidth::WidenedIn9),
    ];
    proof {
        assert(rules_view(rules@) =~= priority());
        lemma_priority_ordered();
    }
    classify_with(rules.as_slice(), c)
}

impl WcWidth {
    /// Returns the width category of the character `c`.
    pub fn from_char(c: char) -> (category: Self)
        ensures
            category == spec_classify(c as u32),
    {
        classify(c as u32)
    }
}

} // verus!
