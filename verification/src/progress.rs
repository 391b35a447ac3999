//! Arithmetic and rendering for the textual progress bar: the percentage
//! written so far and a fixed-width bar of filled and empty cells, both
//! rounded up.

use vstd::arithmetic::div_mod::lemma_multiply_divide_lt;
use vstd::arithmetic::mul::{
    lemma_mul_inequality, lemma_mul_is_distributive_add, lemma_mul_upper_bound,
};
use vstd::prelude::*;
use vstd::string::StringExecFns;

verus! {

/// Width of the progress bar, in cells.
pub const PROGRESS_BAR_LENGTH: usize = 20;

/// `current / total`, scaled to `scale` parts and rounded up.
pub open spec fn scaled_ceil(current: int, total: int, scale: int) -> int {
    (current * scale + total - 1) / total
}

/// Scales `current / total` to `scale` parts, rounding up.
fn scaled_ceil_exec(current: usize, total: usize, scale: usize) -> (r: usize)
    requires
        0 < total,
        current <= total,
        scale <= 1000,
    ensures
        r == scaled_ceil(current as int, total as int, scale as int),
        r <= scale,
{
    proof {
        lemma_mul_upper_bound(current as int, u64::MAX as int, scale as int, 1000);
    }
    let num: u128 = (current as u128) * (scale as u128) + (total as u128) - 1;
    let q: u128 = num / (total as u128);
    proof {
        lemma_mul_inequality(current as int, total as int, scale as int);
        lemma_mul_is_distributive_add(total as int, scale as int, 1);
        assert(num <= total * (scale as int + 1) - 1);
        lemma_multiply_divide_lt(num as int, total as int, scale as int + 1);
    }
    q as usize
}

/// The percentage of `total` that `current` reaches, rounded up.
pub fn progress_percent(current: usize, total: usize) -> (r: usize)
    requires
        0 < total,
        current <= total,
    ensures
        r == scaled_ceil(current as int, total as int, 100),
        r <= 100,
{
    scaled_ceil_exec(current, total, 100)
}

/// How many of the bar's cells are filled when `current` of `total` bytes
/// are written, rounded up.
pub fn progress_bar_filled(current: usize, total: usize) -> (r: usize)
    requires
        0 < total,
        current <= total,
    ensures
        r == scaled_ceil(current as int, total as int, PROGRESS_BAR_LENGTH as int),
        r <= PROGRESS_BAR_LENGTH,
{
    scaled_ceil_exec(current, total, PROGRESS_BAR_LENGTH)
}

/// The bar's content: one `'*'` for each filled cell, then one `' '` for
/// each empty cell, `PROGRESS_BAR_LENGTH` cells in all.
pub fn render_progress_bar(current: usize, total: usize) -> (s: String)
    requires
        0 < total,
        current <= total,
    ensures
        s@.len() == PROGRESS_BAR_LENGTH,
        forall|i: int|
            0 <= i < s@.len() ==> #[trigger] s@[i] == (if i < scaled_ceil(
                current as int,
                total as int,
                PROGRESS_BAR_LENGTH as int,
            ) {
                '*'
            } else {
                ' '
            }),
{
    let filled = progress_bar_filled(current, total);
    let mut s = String::new();
    let mut n: usize = 0;
    while n < filled
        invariant
            n <= filled,
            filled <= PROGRESS_BAR_LENGTH,
            s@.len() == n,
            forall|i: int| 0 <= i < s@.len() ==> #[trigger] s@[i] == '*',
        decreases filled - n,
    {
        proof {
            reveal_strlit("*");
        }
        s.append("*");
        n += 1;
    }
    while n < PROGRESS_BAR_LENGTH
        invariant
            filled <= n <= PROGRESS_BAR_LENGTH,
            s@.len() == n,
            forall|i: int| 0 <= i < filled ==> #[trigger] s@[i] == '*',
            forall|i: int| filled <= i < s@.len() ==> #[trigger] s@[i] == ' ',
        decreases PROGRESS_BAR_LENGTH - n,
    {
        proof {
            reveal_strlit(" ");
        }
        s.append(" ");
        n += 1;
    }
    s
}

} // verus!
