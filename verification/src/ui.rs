//! What the screens show that has to be worked out: the name of a level
//! and the bar of the quiz's progress.

use crate::text::{decimal_text, push_decimal, push_str, string_of};
use vstd::prelude::*;

verus! {

/// Name of a level from 1 to 10 on the screen; any other level is unknown.
pub open spec fn level_title(level: u8) -> Seq<char> {
    match level {
        1u8 => "Absolute Beginner"@,
        2u8 => "Beginner"@,
        3u8 => "Early Intermediate"@,
        4u8 => "Intermediate"@,
        5u8 => "Solid Intermediate"@,
        6u8 => "Advanced Intermediate"@,
        7u8 => "Early Advanced"@,
        8u8 => "Advanced"@,
        9u8 => "Very Advanced"@,
        10u8 => "Expert"@,
        _ => "Unknown"@,
    }
}

/// Name of a level on the screen.
pub fn level_description(level: u8) -> (name: &'static str)
    ensures
        name@ == level_title(level),
{
    match level {
        1 => "Absolute Beginner",
        2 => "Beginner",
        3 => "Early Intermediate",
        4 => "Intermediate",
        5 => "Solid Intermediate",
        6 => "Advanced Intermediate",
        7 => "Early Advanced",
        8 => "Advanced",
        9 => "Very Advanced",
        10 => "Expert",
        _ => "Unknown",
    }
}

/// Number of cells of a bar of `width` cells that are filled when
/// `answered` of `total` questions are answered: the share of the width,
/// rounded down, and never more than the width.
pub open spec fn filled_cells(width: nat, answered: nat, total: nat) -> nat {
    if total == 0 {
        0
    } else if answered >= total {
        width
    } else {
        (width * answered) / total
    }
}

/// The same character `count` times.
pub open spec fn repeated(c: char, count: nat) -> Seq<char> {
    Seq::new(count, |i: int| c)
}

/// The bar of the quiz's progress: the filled cells, the empty cells, and
/// the count in figures.
pub open spec fn progress_text(width: nat, answered: nat, total: nat) -> Seq<char> {
    let filled = filled_cells(width, answered, total);
    seq!['['] + repeated('=', filled) + repeated(' ', (width - filled) as nat) + seq![']', ' ']
        + decimal_text(answered) + seq!['/'] + decimal_text(total) + " answered"@
}

/// The filled cells are at most all cells.
pub proof fn lemma_filled_cells_bounded(width: nat, answered: nat, total: nat)
    ensures
        filled_cells(width, answered, total) <= width,
{
    if total > 0 && answered < total {
        assert(width * answered <= width * total) by (nonlinear_arith)
            requires
                answered < total,
        ;
        assert((width * answered) / total <= width) by (nonlinear_arith)
            requires
                width * answered <= width * total,
                total > 0,
        ;
    }
}

/// Appends `c` `count` times.
fn push_repeated(out: &mut Vec<char>, c: char, count: usize)
    ensures
        final(out)@ == old(out)@ + repeated(c, count as nat),
{
    let mut i: usize = 0;
    assert(old(out)@ + repeated(c, 0) =~= old(out)@);
    while i < count
        invariant
            i <= count,
            out@ == old(out)@ + repeated(c, i as nat),
        decreases count - i,
    {
        out.push(c);
        assert(out@ =~= old(out)@ + repeated(c, (i + 1) as nat));
        i += 1;
    }
}

/// Number of filled cells of the bar.
pub fn filled_width(width: u16, answered: usize, total: usize) -> (filled: u16)
    ensures
        filled == filled_cells(width as nat, answered as nat, total as nat),
        filled <= width,
{
    proof {
        lemma_filled_cells_bounded(width as nat, answered as nat, total as nat);
    }
    if total == 0 {
        0
    } else if answered >= total {
        width
    } else {
        assert(width as u128 * answered as u128 <= 0xffff * 0xffff_ffff_ffff_ffff) by (nonlinear_arith)
            requires
                width <= 0xffff,
                answered <= 0xffff_ffff_ffff_ffff,
        ;
        let cells: u128 = (width as u128 * answered as u128) / (total as u128);
        cells as u16
    }
}

/// The bar of the quiz's progress.
pub fn progress_bar(width: u16, answered: usize, total: usize) -> (bar: String)
    ensures
        bar@ == progress_text(width as nat, answered as nat, total as nat),
{
    let filled = filled_width(width, answered, total);
    let mut out: Vec<char> = Vec::new();
    out.push('[');
    push_repeated(&mut out, '=', filled as usize);
    push_repeated(&mut out, ' ', (width - filled) as usize);
    out.push(']');
    out.push(' ');
    push_decimal(&mut out, answered as u64);
    out.push('/');
    push_decimal(&mut out, total as u64);
    push_str(&mut out, " answered");
    assert(out@ =~= progress_text(width as nat, answered as nat, total as nat));
    string_of(out.as_slice())
}

} // verus!
