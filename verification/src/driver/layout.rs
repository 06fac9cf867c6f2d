//! The records of an answer, stated by laying records out.
//!
//! An answer in which whole records stand, with something that holds no `{`
//! after each, is cut into those records again.

use vstd::prelude::*;

use crate::driver::events::{records, records_from, CLOSE, OPEN};

verus! {

/// How deep in braces the end of `bytes` is, where the start of `bytes` is
/// outside any record. A `}` that matches nothing counts for nothing.
pub open spec fn depth_after(bytes: Seq<u8>) -> nat
    decreases bytes.len(),
{
    if bytes.len() == 0 {
        0
    } else {
        let before = depth_after(bytes.drop_last());
        if bytes.last() == OPEN {
            before + 1
        } else if bytes.last() == CLOSE && before > 0 {
            (before - 1) as nat
        } else {
            before
        }
    }
}

/// Whether `bytes` is one whole record: it begins with `{`, its end is outside
/// any record, and nothing before its end is.
pub open spec fn is_record(bytes: Seq<u8>) -> bool {
    &&& bytes.len() > 0
    &&& bytes[0] == OPEN
    &&& depth_after(bytes) == 0
    &&& forall|k: int| 0 < k < bytes.len() ==> depth_after(#[trigger] bytes.take(k)) > 0
}

/// Whether `bytes` can stand between records: it holds no `{`.
pub open spec fn is_gap(bytes: Seq<u8>) -> bool {
    forall|k: int| 0 <= k < bytes.len() ==> #[trigger] bytes[k] != OPEN
}

/// The records in a row, with a gap after each.
pub open spec fn laid_out(whole: Seq<Seq<u8>>, gaps: Seq<Seq<u8>>) -> Seq<u8>
    decreases whole.len(),
{
    if whole.len() == 0 || gaps.len() == 0 {
        Seq::empty()
    } else {
        whole[0] + gaps[0] + laid_out(whole.drop_first(), gaps.drop_first())
    }
}

/// Whether `whole` are whole records and `gaps` as many gaps.
pub open spec fn lays_out(whole: Seq<Seq<u8>>, gaps: Seq<Seq<u8>>) -> bool {
    &&& whole.len() == gaps.len()
    &&& forall|i: int| 0 <= i < whole.len() ==> is_record(#[trigger] whole[i])
    &&& forall|i: int| 0 <= i < gaps.len() ==> is_gap(#[trigger] gaps[i])
}

/// Outside any record it does not matter where the last record began.
pub proof fn lemma_start_means_nothing_outside(bytes: Seq<u8>, at: int, one: int, other: int)
    requires
        0 <= at <= bytes.len(),
    ensures
        records_from(bytes, at, 0, one) == records_from(bytes, at, 0, other),
    decreases bytes.len() - at,
{
    if at < bytes.len() && bytes[at] != OPEN {
        lemma_start_means_nothing_outside(bytes, at + 1, one, other);
    }
}

/// A gap holds no record: the scan passes over it.
pub proof fn lemma_gap_is_passed_over(bytes: Seq<u8>, at: int, end: int, start: int)
    requires
        0 <= at <= end <= bytes.len(),
        forall|k: int| at <= k < end ==> #[trigger] bytes[k] != OPEN,
    ensures
        records_from(bytes, at, 0, start) == records_from(bytes, end, 0, start),
    decreases end - at,
{
    if at < end {
        assert(bytes[at] != OPEN);
        lemma_gap_is_passed_over(bytes, at + 1, end, start);
    }
}

/// Inside a whole record the scan goes on to the end of the record, gives the
/// record, and is outside any record then.
pub proof fn lemma_record_is_finished(bytes: Seq<u8>, at: int, record: Seq<u8>, k: int)
    requires
        0 <= at,
        at + record.len() <= bytes.len(),
        bytes.subrange(at, at + record.len()) == record,
        is_record(record),
        0 < k < record.len(),
    ensures
        records_from(bytes, at + k, depth_after(record.take(k)), at) == seq![record]
            + records_from(bytes, at + record.len(), 0, at + record.len()),
    decreases record.len() - k,
{
    let depth = depth_after(record.take(k));
    let next = depth_after(record.take(k + 1));
    assert(record.take(k + 1).drop_last() =~= record.take(k));
    assert(record.take(k + 1).last() == record[k]);
    assert(bytes[at + k] == bytes.subrange(at, at + record.len())[k]);
    assert(depth > 0);
    if k + 1 == record.len() {
        assert(record.take(k + 1) =~= record);
        assert(next == 0);
        assert(bytes[at + k] == CLOSE && depth == 1);
    } else {
        assert(next > 0);
        lemma_record_is_finished(bytes, at, record, k + 1);
    }
}

/// A whole record in an answer is found, and the scan is outside any record
/// after it.
pub proof fn lemma_record_is_found(bytes: Seq<u8>, at: int, record: Seq<u8>, start: int)
    requires
        0 <= at,
        at + record.len() <= bytes.len(),
        bytes.subrange(at, at + record.len()) == record,
        is_record(record),
    ensures
        records_from(bytes, at, 0, start) == seq![record] + records_from(
            bytes,
            at + record.len(),
            0,
            start,
        ),
{
    let end = at + record.len();
    assert(bytes[at] == bytes.subrange(at, end)[0]);
    assert(record.take(1).drop_last() =~= Seq::<u8>::empty());
    assert(record.take(1).last() == record[0]);
    assert(depth_after(record.take(1).drop_last()) == 0);
    assert(depth_after(record.take(1)) == 1);
    if record.len() == 1 {
        assert(record.take(1) =~= record);
    } else {
        lemma_record_is_finished(bytes, at, record, 1);
    }
    lemma_start_means_nothing_outside(bytes, end, end, start);
}

/// Whole records that are laid out with a gap after each are found again,
/// whatever gap stands before them.
pub proof fn lemma_laid_out_records_are_found(
    before: Seq<u8>,
    whole: Seq<Seq<u8>>,
    gaps: Seq<Seq<u8>>,
)
    requires
        lays_out(whole, gaps),
    ensures
        records_from(before + laid_out(whole, gaps), before.len() as int, 0, 0) == whole,
    decreases whole.len(),
{
    let bytes = before + laid_out(whole, gaps);
    let at = before.len() as int;
    if whole.len() == 0 {
        assert(bytes =~= before);
        assert(whole =~= Seq::<Seq<u8>>::empty());
    } else {
        let record = whole[0];
        let gap = gaps[0];
        let next = before + record + gap;
        assert(is_record(record));
        assert(is_gap(gap));
        assert(lays_out(whole.drop_first(), gaps.drop_first())) by {
            assert forall|i: int| 0 <= i < whole.drop_first().len() implies is_record(
                #[trigger] whole.drop_first()[i],
            ) by {
                assert(is_record(whole[i + 1]));
            }
            assert forall|i: int| 0 <= i < gaps.drop_first().len() implies is_gap(
                #[trigger] gaps.drop_first()[i],
            ) by {
                assert(is_gap(gaps[i + 1]));
            }
        }
        assert(bytes =~= next + laid_out(whole.drop_first(), gaps.drop_first()));
        assert(bytes.subrange(at, at + record.len()) =~= record);
        lemma_record_is_found(bytes, at, record, 0);
        let end = at + record.len();
        assert forall|k: int| end <= k < end + gap.len() implies #[trigger] bytes[k] != OPEN by {
            assert(bytes[k] == gap[k - end]);
        }
        lemma_gap_is_passed_over(bytes, end, end + gap.len(), 0);
        lemma_laid_out_records_are_found(next, whole.drop_first(), gaps.drop_first());
        assert(seq![record] + whole.drop_first() =~= whole);
    }
}

/// What is found is what was laid out: the records of an answer in which whole
/// records stand after a gap, with a gap after each, are those records.
pub proof fn lemma_records_are_what_was_laid_out(
    lead: Seq<u8>,
    whole: Seq<Seq<u8>>,
    gaps: Seq<Seq<u8>>,
)
    requires
        is_gap(lead),
        lays_out(whole, gaps),
    ensures
        records(lead + laid_out(whole, gaps)) == whole,
{
    let bytes = lead + laid_out(whole, gaps);
    assert forall|k: int| 0 <= k < lead.len() implies #[trigger] bytes[k] != OPEN by {
        assert(bytes[k] == lead[k]);
    }
    lemma_gap_is_passed_over(bytes, 0, lead.len() as int, 0);
    lemma_laid_out_records_are_found(lead, whole, gaps);
}

} // verus!
