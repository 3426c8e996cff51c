//! Rendering of one command record as a fixed-column diagnostic line.
//!
//! A line is, left to right: the category name padded to a fixed column
//! width, the tick right-aligned to a minimum field width, a colon and
//! space, then every payload byte as two uppercase hexadecimal digits each
//! followed by one space. Each payload byte carries an emphasis class
//! decided by its zero-based offset alone: the offsets are fixed sub-fields
//! of the command wire layout, so they are a compatibility contract.

use vstd::prelude::*;
use vstd::string::StringExecFns;
use crate::category::{classify, spec_classify, spec_name_of};
use crate::text::{
    decimal_string, hex_pair_string, space_string, spec_decimal, spec_hex_pair, spec_spaces,
};
use crate::CommandRecord;
use crate::RecordView;

verus! {

/// Width of the category-name column, in characters.
pub const NAME_COLUMN_WIDTH: usize = 35;

/// Minimum width of the right-aligned tick field, in characters.
pub const TICK_FIELD_WIDTH: usize = 5;

/// Payload offset carrying the first emphasized identifier byte.
pub const EMPHASIS_A_INDEX: usize = 2;

/// Payload offset carrying the second emphasized identifier byte.
pub const EMPHASIS_B_INDEX: usize = 3;

/// First payload offset of the emphasized four-byte field.
pub const EMPHASIS_C_FIRST: usize = 35;

/// Last payload offset of the emphasized four-byte field.
pub const EMPHASIS_C_LAST: usize = 38;

/// The visual-highlight bucket assigned to a rendered payload byte from its
/// zero-based offset within the payload.
#[derive(Clone, Copy, Debug, PartialEq, Eq, Structural)]
pub enum Emphasis {
    A,
    B,
    C,
    Plain,
}

/// A formatting failure reported at render time.
#[derive(Clone, Copy, Debug, PartialEq, Eq, Structural)]
pub enum RenderError {
    /// The category name cannot fit its fixed column.
    InvalidFormat,
}

/// The emphasis class of the payload byte at a zero-based offset.
pub open spec fn spec_emphasis_of(i: int) -> Emphasis {
    if i == EMPHASIS_A_INDEX as int {
        Emphasis::A
    } else if i == EMPHASIS_B_INDEX as int {
        Emphasis::B
    } else if EMPHASIS_C_FIRST as int <= i <= EMPHASIS_C_LAST as int {
        Emphasis::C
    } else {
        Emphasis::Plain
    }
}

/// The emphasis class of the payload byte at a zero-based offset.
pub fn emphasis_of(i: usize) -> (e: Emphasis)
    ensures
        e == spec_emphasis_of(i as int),
{
    if i == EMPHASIS_A_INDEX {
        Emphasis::A
    } else if i == EMPHASIS_B_INDEX {
        Emphasis::B
    } else if EMPHASIS_C_FIRST <= i && i <= EMPHASIS_C_LAST {
        Emphasis::C
    } else {
        Emphasis::Plain
    }
}

/// The rendered payload: every byte as two uppercase hexadecimal digits,
/// each followed by one space, in payload order.
pub open spec fn spec_hex_body(p: Seq<u8>) -> Seq<char>
    decreases p.len(),
{
    if p.len() == 0 {
        Seq::empty()
    } else {
        spec_hex_body(p.drop_last()) + spec_hex_pair(p.last()) + seq![' ']
    }
}

/// The tick field: the decimal digits right-aligned to the minimum field
/// width with leading spaces, never truncated.
pub open spec fn spec_tick_field(t: u32) -> Seq<char> {
    let digits = spec_decimal(t as int);
    spec_spaces(TICK_FIELD_WIDTH as int - digits.len()) + digits
}

/// The whole plain (uncolored) line for one record: category name padded to
/// its column, one space, the tick field, a colon and space, then the
/// rendered payload.
pub open spec fn spec_render_plain(rv: RecordView) -> Seq<char> {
    let name = spec_name_of(spec_classify(rv.action_code));
    name + spec_spaces(NAME_COLUMN_WIDTH as int - name.len()) + seq![' '] + spec_tick_field(
        rv.tick,
    ) + seq![':', ' '] + spec_hex_body(rv.payload)
}

/// The count of leading pad spaces of the tick field.
fn tick_pad(t: u32) -> (p: usize)
    ensures
        p as int == if spec_decimal(t as int).len() >= TICK_FIELD_WIDTH as int {
            0
        } else {
            TICK_FIELD_WIDTH as int - spec_decimal(t as int).len()
        },
{
    proof {
        lemma_decimal_digit_count(t as int);
    }
    if t >= 10000 {
        0
    } else if t >= 1000 {
        1
    } else if t >= 100 {
        2
    } else if t >= 10 {
        3
    } else {
        4
    }
}

/// How many digits the decimal representation has, bucket by bucket.
proof fn lemma_decimal_digit_count(n: int)
    requires
        n >= 0,
    ensures
        n < 10 ==> spec_decimal(n).len() == 1,
        10 <= n < 100 ==> spec_decimal(n).len() == 2,
        100 <= n < 1000 ==> spec_decimal(n).len() == 3,
        1000 <= n < 10000 ==> spec_decimal(n).len() == 4,
        10000 <= n ==> spec_decimal(n).len() >= 5,
    decreases n,
{
    if n >= 10 {
        lemma_decimal_digit_count(n / 10);
    }
}

/// Renders one record as its plain (uncolored) line.
///
/// Returns the formatting error exactly when the category name cannot fit
/// the fixed name column; otherwise the line is pinned, character for
/// character, by `spec_render_plain`.
pub fn render_plain(record: &CommandRecord) -> (r: Result<String, RenderError>)
    ensures
        r is Ok <==> spec_name_of(spec_classify(record.action_code)).len() < NAME_COLUMN_WIDTH
            as int,
        r matches Ok(line) ==> line@ == spec_render_plain(record@),
{
    let cat = classify(record.action_code);
    let nlen = cat.name_len();
    if nlen >= NAME_COLUMN_WIDTH {
        return Err(RenderError::InvalidFormat);
    }
    let ghost name = spec_name_of(spec_classify(record.action_code));
    let mut line = cat.name_of();
    line.append(space_string(NAME_COLUMN_WIDTH - nlen).as_str());
    line.append(" ");
    let pad = tick_pad(record.tick);
    line.append(space_string(pad).as_str());
    line.append(decimal_string(record.tick).as_str());
    line.append(": ");
    proof {
        reveal_strlit(" ");
        reveal_strlit(": ");
        assert(" "@ =~= seq![' ']);
        assert(": "@ =~= seq![':', ' ']);
        crate::text::lemma_decimal_len(record.tick as int);
        assert(spec_spaces(pad as int) + spec_decimal(record.tick as int) =~= spec_tick_field(
            record.tick,
        ));
    }
    let ghost head = name + spec_spaces(NAME_COLUMN_WIDTH as int - name.len()) + seq![' ']
        + spec_tick_field(record.tick) + seq![':', ' '];
    proof {
        assert(line@ =~= head);
    }
    let mut i: usize = 0;
    while i < record.payload.len()
        invariant
            0 <= i <= record.payload@.len(),
            line@ =~= head + spec_hex_body(record.payload@.subrange(0, i as int)),
        decreases record.payload@.len() - i,
    {
        let ghost prefix = record.payload@.subrange(0, i as int);
        line.append(hex_pair_string(record.payload[i]).as_str());
        line.append(" ");
        proof {
            reveal_strlit(" ");
            assert(" "@ =~= seq![' ']);
            let next = record.payload@.subrange(0, i as int + 1);
            assert(next.drop_last() =~= prefix);
            assert(next.last() == record.payload@[i as int]);
            assert(line@ =~= head + spec_hex_body(next));
        }
        i = i + 1;
    }
    proof {
        assert(record.payload@.subrange(0, record.payload@.len() as int) =~= record.payload@);
        assert(line@ =~= spec_render_plain(record@));
    }
    Ok(line)
}

/// The concatenation of painted pieces, each followed by one space.
pub open spec fn spec_interleave(pieces: Seq<Seq<char>>) -> Seq<char>
    decreases pieces.len(),
{
    if pieces.len() == 0 {
        Seq::empty()
    } else {
        spec_interleave(pieces.drop_last()) + pieces.last() + seq![' ']
    }
}

/// The shape of a colorized line for one record: the painted name piece —
/// the category name itself, or the name inside its fixed style prefix and
/// the ANSI reset — then the literal padding, separator, tick field, colon
/// and space of the plain line, then one painted piece per payload byte —
/// each that byte's hexadecimal pair, bare or inside its emphasis class's
/// fixed style prefix and the reset — each followed by one literal space.
/// Painting never alters the visible text; only the fixed escape sequences
/// may be inserted, and whether they are depends on the terminal.
pub open spec fn spec_colored_line(rv: RecordView, line: Seq<char>) -> bool {
    let name = spec_name_of(spec_classify(rv.action_code));
    exists|pn: Seq<char>, pb: Seq<Seq<char>>|
        {
            &&& crate::colors::spec_painted(name, crate::colors::spec_name_prefix(), pn)
            &&& pb.len() == rv.payload.len()
            &&& (forall|i: int|
                0 <= i < pb.len() ==> crate::colors::spec_painted(
                    spec_hex_pair(rv.payload[i]),
                    crate::colors::spec_emphasis_prefix(spec_emphasis_of(i)),
                    #[trigger] pb[i],
                ))
            &&& line == pn + spec_spaces(NAME_COLUMN_WIDTH as int - name.len()) + seq![' ']
                + spec_tick_field(rv.tick) + seq![':', ' '] + spec_interleave(pb)
        }
}

/// Renders one record as its colorized line: the plain line of
/// `render_plain`, with the category name painted in its own fixed color
/// and every payload byte painted by its emphasis class.
///
/// Whether color codes appear depends on the terminal and the process
/// environment, so whether the fixed escape sequences appear is not pinned;
/// everything else is: the error condition is that of the plain line, and
/// an `Ok` line is exactly a painted name piece, the literal padding, tick
/// field, colon and space, and one painted piece per payload byte — each
/// painted piece its plain text, bare or wrapped in its color's fixed
/// style prefix and the ANSI reset, the visible text never altered.
pub fn render(record: &CommandRecord) -> (r: Result<String, RenderError>)
    ensures
        r is Ok <==> spec_name_of(spec_classify(record.action_code)).len() < NAME_COLUMN_WIDTH
            as int,
        r matches Ok(line) ==> spec_colored_line(record@, line@),
        r matches Ok(line) ==> crate::colors::spec_contains_seq(
            line@,
            spec_name_of(spec_classify(record.action_code)),
        ),
{
    let cat = classify(record.action_code);
    let nlen = cat.name_len();
    if nlen >= NAME_COLUMN_WIDTH {
        return Err(RenderError::InvalidFormat);
    }
    let ghost name = spec_name_of(spec_classify(record.action_code));
    proof {
        crate::colors::lemma_names_no_escape(spec_classify(record.action_code));
    }
    let mut line = crate::colors::paint_name(cat.name_of().as_str());
    let ghost pn = line@;
    line.append(space_string(NAME_COLUMN_WIDTH - nlen).as_str());
    line.append(" ");
    let pad = tick_pad(record.tick);
    line.append(space_string(pad).as_str());
    line.append(decimal_string(record.tick).as_str());
    line.append(": ");
    proof {
        reveal_strlit(" ");
        reveal_strlit(": ");
        assert(" "@ =~= seq![' ']);
        assert(": "@ =~= seq![':', ' ']);
        crate::text::lemma_decimal_len(record.tick as int);
        assert(spec_spaces(pad as int) + spec_decimal(record.tick as int) =~= spec_tick_field(
            record.tick,
        ));
    }
    let ghost head = pn + spec_spaces(NAME_COLUMN_WIDTH as int - name.len()) + seq![' ']
        + spec_tick_field(record.tick) + seq![':', ' '];
    proof {
        assert(line@ =~= head);
    }
    let ghost mut pb: Seq<Seq<char>> = Seq::empty();
    let mut i: usize = 0;
    while i < record.payload.len()
        invariant
            0 <= i <= record.payload@.len(),
            pb.len() == i,
            forall|j: int|
                0 <= j < i ==> crate::colors::spec_painted(
                    spec_hex_pair(record.payload@[j]),
                    crate::colors::spec_emphasis_prefix(spec_emphasis_of(j)),
                    #[trigger] pb[j],
                ),
            line@ == head + spec_interleave(pb),
        decreases record.payload@.len() - i,
    {
        let hex = hex_pair_string(record.payload[i]);
        let painted = crate::colors::paint_emphasis(hex.as_str(), emphasis_of(i));
        proof {
            crate::colors::lemma_hex_pair_no_escape(record.payload@[i as int]);
        }
        line.append(painted.as_str());
        line.append(" ");
        proof {
            reveal_strlit(" ");
            assert(" "@ =~= seq![' ']);
            let pb2 = pb.push(painted@);
            assert(pb2.drop_last() =~= pb);
            assert(pb2.last() == painted@);
            assert(line@ =~= head + spec_interleave(pb2));
            pb = pb2;
        }
        i = i + 1;
    }
    proof {
        assert(spec_colored_line(record@, line@));
        crate::colors::lemma_contains_extend(
            pn,
            spec_spaces(NAME_COLUMN_WIDTH as int - name.len()) + seq![' '] + spec_tick_field(
                record.tick,
            ) + seq![':', ' '] + spec_interleave(pb),
            name,
        );
        assert(line@ =~= pn + (spec_spaces(NAME_COLUMN_WIDTH as int - name.len()) + seq![' ']
            + spec_tick_field(record.tick) + seq![':', ' '] + spec_interleave(pb)));
    }
    Ok(line)
}

/// Law: rendering is pure and deterministic — records of equal value render
/// to equal lines.
pub proof fn lemma_render_deterministic(a: RecordView, b: RecordView)
    requires
        a == b,
    ensures
        spec_render_plain(a) == spec_render_plain(b),
{
}

/// Law: the three emphasis classes partition the payload offsets as the
/// wire layout fixes them, and are distinct from one another and from the
/// neutral class.
pub proof fn lemma_emphasis_partition(i: int)
    ensures
        spec_emphasis_of(i) == Emphasis::A <==> i == EMPHASIS_A_INDEX as int,
        spec_emphasis_of(i) == Emphasis::B <==> i == EMPHASIS_B_INDEX as int,
        spec_emphasis_of(i) == Emphasis::C <==> EMPHASIS_C_FIRST as int <= i <= EMPHASIS_C_LAST
            as int,
        spec_emphasis_of(i) == Emphasis::Plain <==> !(i == EMPHASIS_A_INDEX as int || i
            == EMPHASIS_B_INDEX as int || EMPHASIS_C_FIRST as int <= i <= EMPHASIS_C_LAST as int),
{
}

} // verus!
