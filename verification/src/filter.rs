//! Order-preserving filtering of a command sequence by a set of categories.
//!
//! An empty selection is a distinguished sentinel meaning "no filtering —
//! include everything", not "include nothing".

use vstd::prelude::*;
use vstd::seq_lib::group_seq_properties;
use crate::category::{classify, spec_classify, Category};
use crate::CommandRecord;
use crate::RecordView;

verus! {

/// The selection predicate: a record survives a non-empty selection exactly
/// when its classification is a member of the selection.
pub open spec fn spec_selected(sel: Seq<Category>, rv: RecordView) -> bool {
    sel.contains(spec_classify(rv.action_code))
}

/// What filtering returns: the input unchanged for the empty selection,
/// otherwise the stable sub-sequence of records whose classification is a
/// member of the selection.
pub open spec fn spec_filter(records: Seq<RecordView>, sel: Seq<Category>) -> Seq<RecordView> {
    if sel.len() == 0 {
        records
    } else {
        records.filter(|rv: RecordView| spec_selected(sel, rv))
    }
}

/// Whether a category is a member of the selection.
fn selection_contains(sel: &Vec<Category>, c: Category) -> (r: bool)
    ensures
        r == sel@.contains(c),
{
    let mut i: usize = 0;
    while i < sel.len()
        invariant
            0 <= i <= sel@.len(),
            forall|j: int| 0 <= j < i ==> sel@[j] != c,
        decreases sel@.len() - i,
    {
        if sel[i] == c {
            return true;
        }
        i = i + 1;
    }
    false
}

/// An element-for-element copy of a byte sequence.
fn copy_bytes(v: &Vec<u8>) -> (r: Vec<u8>)
    ensures
        r@ == v@,
{
    let mut r: Vec<u8> = Vec::new();
    let mut i: usize = 0;
    while i < v.len()
        invariant
            0 <= i <= v@.len(),
            r@ == v@.subrange(0, i as int),
        decreases v@.len() - i,
    {
        r.push(v[i]);
        proof {
            assert(r@ =~= v@.subrange(0, i + 1));
        }
        i = i + 1;
    }
    proof {
        assert(r@ =~= v@);
    }
    r
}

/// A value-equal copy of a command record.
fn copy_record(r: &CommandRecord) -> (c: CommandRecord)
    ensures
        c@ == r@,
{
    let c = CommandRecord { tick: r.tick, action_code: r.action_code, payload: copy_bytes(
        &r.payload,
    ) };
    proof {
        assert(c@ =~= r@);
    }
    c
}

/// Filters an ordered command sequence by the chosen selection of
/// categories.
///
/// An empty selection returns the input unchanged; otherwise exactly the
/// records whose classification is a member of the selection are retained,
/// in their original relative order, none dropped wrongly, none duplicated.
pub fn filter(records: &Vec<CommandRecord>, selected: &Vec<Category>) -> (out: Vec<CommandRecord>)
    ensures
        crate::views_of(out@) == spec_filter(crate::views_of(records@), selected@),
{
    let ghost rvs = crate::views_of(records@);
    let mut out: Vec<CommandRecord> = Vec::new();
    let mut i: usize = 0;
    while i < records.len()
        invariant
            0 <= i <= records@.len(),
            rvs == crate::views_of(records@),
            crate::views_of(out@) == spec_filter(rvs.subrange(0, i as int), selected@),
        decreases records@.len() - i,
    {
        let ghost prefix = rvs.subrange(0, i as int);
        let keep = if selected.len() == 0 {
            true
        } else {
            let c = classify(records[i].action_code);
            selection_contains(selected, c)
        };
        if keep {
            out.push(copy_record(&records[i]));
        }
        proof {
            reveal(Seq::filter);
            assert(rvs.subrange(0, i + 1).drop_last() =~= prefix);
            assert(rvs.subrange(0, i + 1).last() == records@[i as int]@);
            if keep {
                assert(crate::views_of(out@) =~= spec_filter(prefix, selected@).push(
                    records@[i as int]@,
                ));
            }
            assert(crate::views_of(out@) =~= spec_filter(rvs.subrange(0, i + 1), selected@));
        }
        i = i + 1;
    }
    proof {
        assert(rvs.subrange(0, rvs.len() as int) =~= rvs);
    }
    out
}

/// The count of records whose classification is a member of the selection.
pub open spec fn spec_count_selected(records: Seq<RecordView>, sel: Seq<Category>) -> int
    decreases records.len(),
{
    if records.len() == 0 {
        0
    } else {
        spec_count_selected(records.drop_last(), sel) + if spec_selected(sel, records.last()) {
            1int
        } else {
            0int
        }
    }
}

/// Law: for a non-empty selection the survivor count equals the count of
/// input records whose classification is a member of the selection.
pub proof fn lemma_filter_count(records: Seq<RecordView>, sel: Seq<Category>)
    requires
        sel.len() > 0,
    ensures
        spec_filter(records, sel).len() == spec_count_selected(records, sel),
    decreases records.len(),
{
    reveal(Seq::filter);
    if records.len() > 0 {
        lemma_filter_count(records.drop_last(), sel);
    }
}

/// Law: the empty selection is the identity filter — length, order and
/// element identity are all preserved.
pub proof fn lemma_filter_empty_identity(records: Seq<RecordView>)
    ensures
        spec_filter(records, Seq::<Category>::empty()) == records,
{
}

/// Law: for a non-empty selection, every surviving record classifies into a
/// member of the selection, survivors keep their relative order (the result
/// is the stable sub-sequence `Seq::filter` yields), and the survivor count
/// equals the count of input records whose classification is selected.
pub proof fn lemma_filter_selected(records: Seq<RecordView>, sel: Seq<Category>)
    requires
        sel.len() > 0,
    ensures
        spec_filter(records, sel) == records.filter(|rv: RecordView| spec_selected(sel, rv)),
        forall|i: int|
            0 <= i < spec_filter(records, sel).len() ==> spec_selected(
                sel,
                #[trigger] spec_filter(records, sel)[i],
            ),
        spec_filter(records, sel).len() <= records.len(),
{
    broadcast use group_seq_properties;
    broadcast use vstd::seq_lib::group_filter_ensures;

}

} // verus!
