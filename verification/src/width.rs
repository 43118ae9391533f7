//! Column width specifications and their resolution against a table width.
//!
//! Fixed and resizable columns claim their width outright. What is left of the
//! table's minimum width is then shared among the fill columns in proportion to
//! their weights, never below each column's own minimum.

use vstd::prelude::*;

verus! {

/// How the width of a column is determined.
#[derive(Clone, Copy, Debug, PartialEq, Eq, Structural)]
pub enum Width {
    /// A width that never changes.
    Fixed(i32),
    /// A width the user can change by dragging: the sum of `initial` and `offset`.
    Resizable {
        /// The width before the current drag.
        initial: i32,
        /// The offset accumulated by the current drag.
        offset: i32,
    },
    /// A share of the width that fixed and resizable columns leave over.
    Fill {
        /// The weight of this column among all fill columns of the table.
        proportion: u32,
        /// The least width of the column; `0` for none.
        minimum: i32,
    },
}

/// The width a column ends up with.
#[derive(Clone, Copy, Debug, PartialEq, Eq, Structural)]
pub struct CalculatedWidth {
    pub current: i128,
    /// Whether the column owns a divider. Only resizable columns do.
    pub is_resizable: bool,
}

impl Width {
    /// The width the column takes out of the table's width before anything is
    /// shared out. Fill columns take none.
    pub open spec fn claimed(self) -> int {
        match self {
            Width::Fixed(current) => current as int,
            Width::Resizable { initial, offset } => initial + offset,
            Width::Fill { .. } => 0,
        }
    }

    /// The weight of the column when the remaining width is shared out.
    pub open spec fn weight(self) -> nat {
        match self {
            Width::Fill { proportion, .. } => proportion as nat,
            _ => 0,
        }
    }

    /// The width of the column when `remaining` is left to be shared among
    /// fill columns of the weight `total`: what the column claims, or, for a
    /// fill column, its share or its minimum, whichever is more.
    pub open spec fn resolved(self, remaining: int, total: int) -> int {
        match self {
            Width::Fill { proportion, minimum } => if fill_share(
                proportion as int,
                remaining,
                total,
            ) >= minimum {
                fill_share(proportion as int, remaining, total)
            } else {
                minimum as int
            },
            _ => self.claimed(),
        }
    }
}

/// The width claimed by all fixed and resizable columns together.
pub open spec fn claimed_width(columns: Seq<Width>) -> int
    decreases columns.len(),
{
    if columns.len() == 0 {
        0
    } else {
        claimed_width(columns.drop_last()) + columns.last().claimed()
    }
}

/// The sum of the weights of all fill columns.
pub open spec fn fill_proportion(columns: Seq<Width>) -> nat
    decreases columns.len(),
{
    if columns.len() == 0 {
        0
    } else {
        fill_proportion(columns.drop_last()) + columns.last().weight()
    }
}

/// What fixed and resizable columns leave of `min_width`. Negative when they
/// claim more than the table's minimum width.
pub open spec fn remaining_width(columns: Seq<Width>, min_width: int) -> int {
    min_width - claimed_width(columns)
}

/// The share that a weight of `proportion` has in `remaining`, when all the
/// weights together are `total`: `proportion * remaining / total`, rounded
/// down to a whole number once, at the end. Zero when there is no weight.
pub open spec fn fill_share(proportion: int, remaining: int, total: int) -> int {
    if total > 0 {
        (proportion * remaining) / total
    } else {
        0
    }
}

/// The width that no column takes up: what remains, when that is positive and
/// no column has the weight to absorb it.
pub open spec fn unused_width(columns: Seq<Width>, min_width: int) -> Option<int> {
    if remaining_width(columns, min_width) > 0 && fill_proportion(columns) == 0 {
        Some(remaining_width(columns, min_width))
    } else {
        None
    }
}

/// Whether `widths` and `unused` are the resolution of `columns` against
/// `min_width`: one width per column in the same order, and the unused width.
pub open spec fn is_distribution(
    columns: Seq<Width>,
    min_width: int,
    widths: Seq<CalculatedWidth>,
    unused: Option<i128>,
) -> bool {
    &&& widths.len() == columns.len()
    &&& forall|i: int|
        0 <= i < columns.len() ==> {
            &&& (#[trigger] widths[i]).current == columns[i].resolved(
                remaining_width(columns, min_width),
                fill_proportion(columns) as int,
            )
            &&& widths[i].is_resizable == (columns[i] is Resizable)
        }
    &&& unused is Some <==> unused_width(columns, min_width) is Some
    &&& unused matches Some(width) ==> unused_width(columns, min_width) == Some(width as int)
}

/// The sum of the resolved widths.
pub open spec fn total_width(widths: Seq<CalculatedWidth>) -> int
    decreases widths.len(),
{
    if widths.len() == 0 {
        0
    } else {
        total_width(widths.drop_last()) + widths.last().current
    }
}

proof fn lemma_weight_within_total(columns: Seq<Width>, i: int)
    requires
        0 <= i < columns.len(),
    ensures
        columns[i].weight() <= fill_proportion(columns),
    decreases columns.len(),
{
    if i < columns.len() - 1 {
        lemma_weight_within_total(columns.drop_last(), i);
    }
}

proof fn lemma_share_bounds(proportion: int, total: int, remaining: int)
    requires
        0 <= proportion <= total,
        total > 0,
    ensures
        remaining >= 0 ==> 0 <= proportion * (remaining / total) <= remaining,
        remaining < 0 ==> remaining - total < proportion * (remaining / total) <= 0,
{
    let part = remaining / total;
    vstd::arithmetic::div_mod::lemma_fundamental_div_mod(remaining, total);
    vstd::arithmetic::div_mod::lemma_mod_bound(remaining, total);
    if remaining >= 0 {
        assert(0 <= proportion * part <= remaining) by (nonlinear_arith)
            requires
                0 <= proportion <= total,
                remaining == total * part + remaining % total,
                0 <= remaining % total < total,
                remaining >= 0,
        ;
    } else {
        assert(remaining - total < proportion * part <= 0) by (nonlinear_arith)
            requires
                0 <= proportion <= total,
                remaining == total * part + remaining % total,
                0 <= remaining % total < total,
                remaining < 0,
        ;
    }
}

proof fn lemma_share_by_parts(proportion: int, total: int, remaining: int)
    requires
        0 <= proportion,
        total > 0,
    ensures
        (proportion * remaining) / total == proportion * (remaining / total) + (proportion * (
            remaining % total)) / total,
{
    let q = remaining / total;
    let m = remaining % total;
    let rest = proportion * m;
    vstd::arithmetic::div_mod::lemma_fundamental_div_mod(remaining, total);
    vstd::arithmetic::div_mod::lemma_fundamental_div_mod(rest, total);
    vstd::arithmetic::div_mod::lemma_mod_bound(rest, total);
    assert(proportion * remaining == (proportion * q + rest / total) * total + rest % total)
        by (nonlinear_arith)
        requires
            remaining == total * q + m,
            rest == proportion * m,
            rest == total * (rest / total) + rest % total,
    ;
    vstd::arithmetic::div_mod::lemma_fundamental_div_mod_converse(
        proportion * remaining,
        total,
        proportion * q + rest / total,
        rest % total,
    );
}

/// The quotient of `a` by `b`, rounded down, and what is left over.
fn floor_div_rem(a: i128, b: u128) -> (out: (i128, u128))
    requires
        0 < b < 0x1_0000_0000_0000_0000_0000_0000_0000,
        -0x1_0000_0000_0000_0000_0000_0000_0000 < a < 0x1_0000_0000_0000_0000_0000_0000_0000,
    ensures
        out.0 == a as int / b as int,
        out.1 == a as int % b as int,
{
    if a >= 0 {
        ((a as u128 / b) as i128, a as u128 % b)
    } else {
        let raised: u128 = (-a) as u128 + (b - 1);
        let q: u128 = raised / b;
        let r: u128 = b - 1 - raised % b;
        proof {
            vstd::arithmetic::div_mod::lemma_fundamental_div_mod(raised as int, b as int);
            vstd::arithmetic::div_mod::lemma_mod_bound(raised as int, b as int);
            vstd::arithmetic::div_mod::lemma_div_pos_is_pos(raised as int, b as int);
            vstd::arithmetic::div_mod::lemma_div_is_ordered_by_denominator(
                raised as int,
                1,
                b as int,
            );
            assert(a == (-(q as int)) * b + r) by (nonlinear_arith)
                requires
                    raised == -a + b - 1,
                    raised == b * q + raised % b,
                    r == b - 1 - raised % b,
            ;
            vstd::arithmetic::div_mod::lemma_fundamental_div_mod_converse(
                a as int,
                b as int,
                -(q as int),
                r as int,
            );
        }
        (-(q as i128), r)
    }
}

/// The share of the weight `proportion` in `remaining`, from the whole parts
/// of `remaining` and what they leave over. The product of `proportion` and
/// `remaining` itself may be too large to hold.
fn share_of(proportion: u32, remaining: i128, part_width: i128, left_over: u128, total: u128) -> (share:
    i128)
    requires
        0 < total <= 0x1_0000_0000_0000_0000_0000_0000,
        proportion <= total,
        -0x1_0000_0000_0000_0000_0000_0000_0000 < remaining < 0x1_0000_0000_0000_0000_0000_0000_0000,
        part_width == remaining as int / total as int,
        left_over == remaining as int % total as int,
    ensures
        share == fill_share(proportion as int, remaining as int, total as int),
{
    proof {
        lemma_share_bounds(proportion as int, total as int, remaining as int);
        lemma_share_by_parts(proportion as int, total as int, remaining as int);
        vstd::arithmetic::div_mod::lemma_mod_bound(remaining as int, total as int);
        assert(0 <= proportion * left_over <= 0xffff_ffff * 0x1_0000_0000_0000_0000_0000_0000
            && proportion * left_over <= proportion * total) by (nonlinear_arith)
            requires
                0 <= proportion <= 0xffff_ffff,
                0 <= left_over < total <= 0x1_0000_0000_0000_0000_0000_0000,
        ;
    }
    let rest: u128 = proportion as u128 * left_over;
    let extra: u128 = rest / total;
    proof {
        vstd::arithmetic::div_mod::lemma_fundamental_div_mod(rest as int, total as int);
        vstd::arithmetic::div_mod::lemma_mod_bound(rest as int, total as int);
        assert(extra <= proportion) by (nonlinear_arith)
            requires
                rest == total * extra + rest % total,
                0 <= rest % total,
                rest <= proportion * total,
                total > 0,
        ;
    }
    proportion as i128 * part_width + extra as i128
}

/// Resolves the width of every column against the table's minimum width.
///
/// Fixed and resizable columns keep the width they ask for. The width they
/// leave over is shared among the fill columns in proportion to their
/// weights: each gets `proportion * remaining / total`, rounded down, or its
/// minimum if that is more. The second result is the width left unused: it is
/// `Some` when width remains and no column has any weight to take it.
pub fn distribute_fill_widths(columns: &[Width], min_width: i32) -> (out: (
    Vec<CalculatedWidth>,
    Option<i128>,
))
    ensures
        is_distribution(columns@, min_width as int, out.0@, out.1),
{
    let count = columns.len();
    let mut fill_proportion: u128 = 0;
    let mut remaining_width: i128 = min_width as i128;
    let mut index: usize = 0;
    while index < count
        invariant
            count == columns@.len(),
            index <= count,
            fill_proportion == self::fill_proportion(columns@.take(index as int)),
            remaining_width == self::remaining_width(columns@.take(index as int), min_width as int),
            fill_proportion <= index * 0xffff_ffff,
            min_width - index * 0x1_0000_0000 <= remaining_width <= min_width + index
                * 0x1_0000_0000,
        decreases count - index,
    {
        assert(columns@.take(index + 1).drop_last() =~= columns@.take(index as int));
        match columns[index] {
            Width::Fixed(current) => {
                remaining_width = remaining_width - current as i128;
            },
            Width::Resizable { initial, offset } => {
                remaining_width = remaining_width - (initial as i128 + offset as i128);
            },
            Width::Fill { proportion, .. } => {
                fill_proportion = fill_proportion + proportion as u128;
            },
        }
        index = index + 1;
    }
    assert(columns@.take(count as int) =~= columns@);

    // One division of the remaining width serves every fill column: a share
    // is so many whole parts and that proportion of what the parts leave over.
    let (part_width, left_over) = if fill_proportion != 0 {
        floor_div_rem(remaining_width, fill_proportion)
    } else {
        (0, 0)
    };

    let mut widths: Vec<CalculatedWidth> = Vec::new();
    let mut index: usize = 0;
    while index < count
        invariant
            count == columns@.len(),
            index <= count,
            widths@.len() == index,
            fill_proportion == self::fill_proportion(columns@),
            remaining_width == self::remaining_width(columns@, min_width as int),
            fill_proportion > 0 ==> part_width == remaining_width as int / fill_proportion as int,
            fill_proportion > 0 ==> left_over == remaining_width as int % fill_proportion as int,
            fill_proportion <= count * 0xffff_ffff,
            min_width - count * 0x1_0000_0000 <= remaining_width <= min_width + count
                * 0x1_0000_0000,
            forall|i: int|
                0 <= i < index ==> {
                    &&& (#[trigger] widths@[i]).current == columns@[i].resolved(
                        remaining_width as int,
                        fill_proportion as int,
                    )
                    &&& widths@[i].is_resizable == (columns@[i] is Resizable)
                },
        decreases count - index,
    {
        let width = match columns[index] {
            Width::Fixed(current) => CalculatedWidth {
                current: current as i128,
                is_resizable: false,
            },
            Width::Resizable { initial, offset } => CalculatedWidth {
                current: initial as i128 + offset as i128,
                is_resizable: true,
            },
            Width::Fill { proportion, minimum } => {
                let share: i128 = if fill_proportion != 0 {
                    proof {
                        lemma_weight_within_total(columns@, index as int);
                    }
                    share_of(proportion, remaining_width, part_width, left_over, fill_proportion)
                } else {
                    0
                };
                CalculatedWidth {
                    current: if share >= minimum as i128 {
                        share
                    } else {
                        minimum as i128
                    },
                    is_resizable: false,
                }
            },
        };
        widths.push(width);
        index = index + 1;
    }

    let unused_width = if remaining_width > 0 && fill_proportion == 0 {
        Some(remaining_width)
    } else {
        None
    };
    (widths, unused_width)
}

/// The unused width as a plain number: itself when positive, else zero.
pub open spec fn unused_or_zero(unused: Option<i128>) -> int {
    match unused {
        Some(width) => if width > 0 {
            width as int
        } else {
            0
        },
        None => 0,
    }
}

proof fn lemma_total_of_claimed(columns: Seq<Width>, widths: Seq<CalculatedWidth>)
    requires
        widths.len() == columns.len(),
        forall|i: int|
            0 <= i < columns.len() ==> (#[trigger] widths[i]).current == columns[i].claimed(),
    ensures
        total_width(widths) == claimed_width(columns),
    decreases columns.len(),
{
    if columns.len() > 0 {
        lemma_total_of_claimed(columns.drop_last(), widths.drop_last());
    }
}

proof fn lemma_no_fill_no_weight(columns: Seq<Width>)
    requires
        forall|i: int| 0 <= i < columns.len() ==> !(#[trigger] columns[i] is Fill),
    ensures
        fill_proportion(columns) == 0,
    decreases columns.len(),
{
    if columns.len() > 0 {
        lemma_no_fill_no_weight(columns.drop_last());
    }
}

/// The resolution is a function of the columns and the minimum width: any two
/// resolutions of the same input are equal, width for width.
pub proof fn lemma_distribution_is_unique(
    columns: Seq<Width>,
    min_width: int,
    first: (Seq<CalculatedWidth>, Option<i128>),
    second: (Seq<CalculatedWidth>, Option<i128>),
)
    requires
        is_distribution(columns, min_width, first.0, first.1),
        is_distribution(columns, min_width, second.0, second.1),
    ensures
        first == second,
{
    assert(first.0 =~= second.0);
}

/// Without fill columns no width is lost. Every column keeps the width it
/// asks for. If these fit into the minimum width, they and the unused width
/// add up to it exactly; if they do not fit, no width is reported unused.
pub proof fn lemma_conservation(
    columns: Seq<Width>,
    min_width: int,
    widths: Seq<CalculatedWidth>,
    unused: Option<i128>,
)
    requires
        forall|i: int| 0 <= i < columns.len() ==> !(#[trigger] columns[i] is Fill),
        is_distribution(columns, min_width, widths, unused),
    ensures
        forall|i: int|
            0 <= i < columns.len() ==> (#[trigger] widths[i]).current == columns[i].claimed(),
        min_width >= claimed_width(columns) ==> total_width(widths) + unused_or_zero(unused)
            == min_width,
        min_width < claimed_width(columns) ==> unused is None,
{
    lemma_no_fill_no_weight(columns);
    assert forall|i: int| 0 <= i < columns.len() implies (#[trigger] widths[i]).current
        == columns[i].claimed() by {
        assert(!(columns[i] is Fill));
    }
    lemma_total_of_claimed(columns, widths);
}

/// A fill column is never narrower than its minimum, however little width
/// remains to be shared.
pub proof fn lemma_fill_at_least_minimum(
    columns: Seq<Width>,
    min_width: int,
    widths: Seq<CalculatedWidth>,
    unused: Option<i128>,
    i: int,
)
    requires
        is_distribution(columns, min_width, widths, unused),
        0 <= i < columns.len(),
        columns[i] is Fill,
    ensures
        widths[i].current >= columns[i]->minimum,
        columns[i]->proportion == 0 ==> widths[i].current == if columns[i]->minimum > 0 {
            columns[i]->minimum as int
        } else {
            0
        },
{
}

/// A fill column that is wider than its minimum has its exact share of the
/// remaining width, rounded down: the share is off by less than one unit, and
/// not at all where the exact share is a whole number.
pub proof fn lemma_fill_share_is_exact(
    columns: Seq<Width>,
    min_width: int,
    widths: Seq<CalculatedWidth>,
    unused: Option<i128>,
    i: int,
)
    requires
        is_distribution(columns, min_width, widths, unused),
        0 <= i < columns.len(),
        columns[i] is Fill,
        widths[i].current > columns[i]->minimum,
        fill_proportion(columns) > 0,
    ensures
        fill_proportion(columns) * widths[i].current <= columns[i]->proportion * remaining_width(
            columns,
            min_width,
        ) < fill_proportion(columns) * widths[i].current + fill_proportion(columns),
{
    let total = fill_proportion(columns) as int;
    let exact = columns[i]->proportion * remaining_width(columns, min_width);
    vstd::arithmetic::div_mod::lemma_fundamental_div_mod(exact, total);
    vstd::arithmetic::div_mod::lemma_mod_bound(exact, total);
}

/// Fill columns that are wider than their minimum share the remaining width
/// in the ratio of their weights, as closely as whole numbers allow. Each
/// share multiplied by the weight of the other column gives the same number,
/// but for the rounding: the products differ by at most the weight of the
/// column whose share is the larger, and are equal where both exact shares
/// are whole numbers.
pub proof fn lemma_fill_shares_are_proportional(
    columns: Seq<Width>,
    min_width: int,
    widths: Seq<CalculatedWidth>,
    unused: Option<i128>,
    i: int,
    j: int,
)
    requires
        is_distribution(columns, min_width, widths, unused),
        0 <= i < columns.len(),
        0 <= j < columns.len(),
        columns[i] is Fill,
        columns[j] is Fill,
        widths[i].current > columns[i]->minimum,
        widths[j].current > columns[j]->minimum,
    ensures
        widths[i].current * columns[j]->proportion - widths[j].current * columns[i]->proportion
            <= columns[i]->proportion,
        widths[j].current * columns[i]->proportion - widths[i].current * columns[j]->proportion
            <= columns[j]->proportion,
        fill_proportion(columns) > 0 && (columns[i]->proportion * remaining_width(
            columns,
            min_width,
        )) % (fill_proportion(columns) as int) == 0 && (columns[j]->proportion * remaining_width(
            columns,
            min_width,
        )) % (fill_proportion(columns) as int) == 0 ==> widths[i].current
            * columns[j]->proportion == widths[j].current * columns[i]->proportion,
{
    let total = fill_proportion(columns) as int;
    let remaining = remaining_width(columns, min_width);
    let p = columns[i]->proportion as int;
    let q = columns[j]->proportion as int;
    let a = widths[i].current as int;
    let b = widths[j].current as int;
    if total > 0 {
        vstd::arithmetic::div_mod::lemma_fundamental_div_mod(p * remaining, total);
        vstd::arithmetic::div_mod::lemma_mod_bound(p * remaining, total);
        vstd::arithmetic::div_mod::lemma_fundamental_div_mod(q * remaining, total);
        vstd::arithmetic::div_mod::lemma_mod_bound(q * remaining, total);
        let e = (p * remaining) % total;
        let f = (q * remaining) % total;
        assert((a * q - b * p) * total == f * p - e * q) by (nonlinear_arith)
            requires
                p * remaining == total * a + e,
                q * remaining == total * b + f,
        ;
        assert(a * q - b * p <= p && b * p - a * q <= q) by (nonlinear_arith)
            requires
                (a * q - b * p) * total == f * p - e * q,
                0 <= e < total,
                0 <= f < total,
                0 <= p,
                0 <= q,
        ;
        if e == 0 && f == 0 {
            assert(a * q == b * p) by (nonlinear_arith)
                requires
                    (a * q - b * p) * total == 0 * p - 0 * q,
                    total > 0,
            ;
        }
    } else {
        lemma_weight_within_total(columns, i);
        lemma_weight_within_total(columns, j);
    }
}

/// When no column asks for a negative width, no column gets one.
pub proof fn lemma_widths_are_nonnegative(
    columns: Seq<Width>,
    min_width: int,
    widths: Seq<CalculatedWidth>,
    unused: Option<i128>,
)
    requires
        is_distribution(columns, min_width, widths, unused),
        forall|i: int|
            0 <= i < columns.len() ==> match #[trigger] columns[i] {
                Width::Fill { minimum, .. } => minimum >= 0,
                column => column.claimed() >= 0,
            },
    ensures
        forall|i: int| 0 <= i < widths.len() ==> (#[trigger] widths[i]).current >= 0,
{
    assert forall|i: int| 0 <= i < widths.len() implies (#[trigger] widths[i]).current >= 0 by {
        let column = columns[i];
        assert(column is Fill ==> column->minimum >= 0);
        assert(!(column is Fill) ==> column.claimed() >= 0);
    }
}

} // verus!
