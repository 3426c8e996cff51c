//! The colorized presentation of line pieces, through the `colored` crate.
//!
//! Whether color codes are emitted at all depends on the terminal and the
//! process environment; what holds of every outcome is that a piece free
//! of the ANSI escape character comes back either unchanged, or wrapped in
//! exactly one fixed style prefix and the ANSI reset suffix — its visible
//! text is never altered.

use vstd::prelude::*;
use crate::category::{spec_name_of, Category};
use crate::render::Emphasis;
use crate::text::spec_hex_pair;

verus! {

/// The exact shape of a painted piece: the input unchanged (coloring
/// off), or the input wrapped in one fixed style prefix and the ANSI reset
/// suffix — either way the visible text is the input itself.
pub open spec fn spec_painted(s: Seq<char>, prefix: Seq<char>, r: Seq<char>) -> bool {
    r == s || r == prefix + s + "\u{1B}[0m"@
}

/// The fixed style prefix of the category-name color.
pub open spec fn spec_name_prefix() -> Seq<char> {
    "\u{1B}[32m"@
}

/// The fixed style prefix of each emphasis class's color.
pub open spec fn spec_emphasis_prefix(e: Emphasis) -> Seq<char> {
    match e {
        Emphasis::A => "\u{1B}[35m"@,
        Emphasis::B => "\u{1B}[34m"@,
        Emphasis::C => "\u{1B}[31m"@,
        Emphasis::Plain => "\u{1B}[37m"@,
    }
}

/// Whether a character sequence holds no ANSI escape character.
pub open spec fn spec_no_escape(s: Seq<char>) -> bool {
    forall|i: int| 0 <= i < s.len() ==> s[i] != '\u{1B}'
}

/// Whether `small` occurs contiguously inside `big`.
pub open spec fn spec_contains_seq(big: Seq<char>, small: Seq<char>) -> bool {
    exists|i: int|
        0 <= i && i + small.len() <= big.len() && #[trigger] big.subrange(i, i + small.len())
            == small
}

/// Relies on colored's `Colorize::green` and `ColoredString`'s `Display`:
/// the output is the input unchanged (coloring off), or the fixed green
/// style prefix, then the input with inner ANSI reset sequences rewritten,
/// then the ANSI reset suffix — for an input without the escape character,
/// exactly prefix + input + reset.
#[verifier::external_body]
fn paint_green(s: &str) -> (r: String)
    ensures
        r@.len() >= s@.len(),
        spec_no_escape(s@) ==> spec_contains_seq(r@, s@),
        spec_no_escape(s@) ==> spec_painted(s@, "\u{1B}[32m"@, r@),
{
    format!("{}", colored::Colorize::green(s))
}

/// Relies on colored's `Colorize::magenta` and `ColoredString`'s `Display`,
/// as `paint_green` does on its counterparts.
#[verifier::external_body]
fn paint_magenta(s: &str) -> (r: String)
    ensures
        r@.len() >= s@.len(),
        spec_no_escape(s@) ==> spec_contains_seq(r@, s@),
        spec_no_escape(s@) ==> spec_painted(s@, "\u{1B}[35m"@, r@),
{
    format!("{}", colored::Colorize::magenta(s))
}

/// Relies on colored's `Colorize::blue` and `ColoredString`'s `Display`,
/// as `paint_green` does on its counterparts.
#[verifier::external_body]
fn paint_blue(s: &str) -> (r: String)
    ensures
        r@.len() >= s@.len(),
        spec_no_escape(s@) ==> spec_contains_seq(r@, s@),
        spec_no_escape(s@) ==> spec_painted(s@, "\u{1B}[34m"@, r@),
{
    format!("{}", colored::Colorize::blue(s))
}

/// Relies on colored's `Colorize::red` and `ColoredString`'s `Display`, as
/// `paint_green` does on its counterparts.
#[verifier::external_body]
fn paint_red(s: &str) -> (r: String)
    ensures
        r@.len() >= s@.len(),
        spec_no_escape(s@) ==> spec_contains_seq(r@, s@),
        spec_no_escape(s@) ==> spec_painted(s@, "\u{1B}[31m"@, r@),
{
    format!("{}", colored::Colorize::red(s))
}

/// Relies on colored's `Colorize::white` and `ColoredString`'s `Display`,
/// as `paint_green` does on its counterparts.
#[verifier::external_body]
fn paint_white(s: &str) -> (r: String)
    ensures
        r@.len() >= s@.len(),
        spec_no_escape(s@) ==> spec_contains_seq(r@, s@),
        spec_no_escape(s@) ==> spec_painted(s@, "\u{1B}[37m"@, r@),
{
    format!("{}", colored::Colorize::white(s))
}

/// Paints the category-name token with its own fixed color, distinct from
/// every payload emphasis class.
pub fn paint_name(s: &str) -> (r: String)
    ensures
        r@.len() >= s@.len(),
        spec_no_escape(s@) ==> spec_contains_seq(r@, s@),
        spec_no_escape(s@) ==> spec_painted(s@, spec_name_prefix(), r@),
{
    paint_green(s)
}

/// Paints one rendered payload byte with the accent color of its emphasis
/// class; the neutral class keeps the base presentation color. The three
/// accent colors and the neutral color are pairwise distinct.
pub fn paint_emphasis(s: &str, e: Emphasis) -> (r: String)
    ensures
        r@.len() >= s@.len(),
        spec_no_escape(s@) ==> spec_contains_seq(r@, s@),
        spec_no_escape(s@) ==> spec_painted(s@, spec_emphasis_prefix(e), r@),
{
    match e {
        Emphasis::A => paint_magenta(s),
        Emphasis::B => paint_blue(s),
        Emphasis::C => paint_red(s),
        Emphasis::Plain => paint_white(s),
    }
}

/// A contiguous occurrence survives extending the containing sequence on
/// the right.
pub proof fn lemma_contains_extend(a: Seq<char>, b: Seq<char>, x: Seq<char>)
    requires
        spec_contains_seq(a, x),
    ensures
        spec_contains_seq(a + b, x),
{
    let i = choose|i: int|
        0 <= i && i + x.len() <= a.len() && #[trigger] a.subrange(i, i + x.len()) == x;
    assert((a + b).subrange(i, i + x.len()) =~= a.subrange(i, i + x.len()));
}

/// A rendered hexadecimal pair is free of the ANSI escape character, so
/// painting it never alters it.
pub proof fn lemma_hex_pair_no_escape(b: u8)
    ensures
        spec_no_escape(spec_hex_pair(b)),
{
}

/// Every category display name is free of the ANSI escape character, so
/// painting it never alters it.
pub proof fn lemma_names_no_escape(c: Category)
    ensures
        spec_no_escape(spec_name_of(c)),
{
    reveal_strlit("Move");
    reveal_strlit("Stop");
    reveal_strlit("Attack");
    reveal_strlit("AttackMove");
    reveal_strlit("Capture");
    reveal_strlit("BuildStructure");
    reveal_strlit("ReinforceUnit");
    reveal_strlit("Upgrade");
    reveal_strlit("Ability");
    reveal_strlit("Retreat");
    reveal_strlit("BuildSquad");
    reveal_strlit("CancelProduction");
    reveal_strlit("Unknown");
}

} // verus!
