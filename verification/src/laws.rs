//! What holds of every conversion.

use vstd::prelude::*;
use crate::ledger::{LedgerTransactionView, ParsedItemView};
use crate::span::Span;
use crate::transaction::{absent, flag_value, text_value, transaction_record};
use crate::ledger::Flag;
use crate::source::parsed;
use crate::value::ValueView;
use crate::{
    answer, conversion, conversion_error, fails, first_error, has_record, is_first_error,
    item_record, record_of, records, LabeledErrorView,
};

verus! {

/// The number of items that have a record.
pub open spec fn count_with_record(items: Seq<ParsedItemView>) -> nat
    decreases items.len(),
{
    if items.len() == 0 {
        0
    } else {
        count_with_record(items.drop_last()) + if has_record(items.last()) {
            1nat
        } else {
            0nat
        }
    }
}

/// Where the record of the item at `index` stands among the records: as many
/// places from the start as items before it have a record.
pub open spec fn place_of_record(items: Seq<ParsedItemView>, index: int) -> int {
    count_with_record(items.take(index)) as int
}

/// An item has a record exactly if it is a directive of one of the three
/// kinds.
pub proof fn lemma_has_record(item: ParsedItemView, span: Span)
    ensures
        has_record(item) <==> item_record(item, span) is Some,
{
}

/// There are as many records as items that have one.
pub proof fn lemma_records_len(items: Seq<ParsedItemView>, span: Span)
    ensures
        records(items, span).len() == count_with_record(items),
        count_with_record(items) <= items.len(),
    decreases items.len(),
{
    if items.len() > 0 {
        lemma_records_len(items.drop_last(), span);
        lemma_has_record(items.last(), span);
    }
}

/// The records of a ledger are those of any of its beginnings, followed by
/// those of the rest.
pub proof fn lemma_records_split(items: Seq<ParsedItemView>, span: Span, at: int)
    requires
        0 <= at <= items.len(),
    ensures
        records(items, span) == records(items.take(at), span) + records(items.skip(at), span),
    decreases items.len(),
{
    if at == items.len() {
        assert(items.take(at) =~= items);
        assert(items.skip(at) =~= Seq::empty());
        assert(records(items, span) =~= records(items, span) + Seq::<ValueView>::empty());
    } else {
        let shorter = items.drop_last();
        lemma_records_split(shorter, span, at);
        assert(shorter.take(at) =~= items.take(at));
        assert(shorter.skip(at) =~= items.skip(at).drop_last());
        assert(items.skip(at).last() == items.last());
        let front = records(items.take(at), span);
        let middle = records(shorter.skip(at), span);
        match item_record(items.last(), span) {
            Some(made) => {
                assert(records(items, span) == records(shorter, span) + seq![made]);
                assert(records(items.skip(at), span) == middle + seq![made]);
                assert((front + middle) + seq![made] =~= front + (middle + seq![made]));
            },
            None => {},
        }
    }
}

/// Where some item is an error, one of them is the first.
pub proof fn lemma_first_error_exists(items: Seq<ParsedItemView>) -> (index: int)
    requires
        fails(items),
    ensures
        is_first_error(items, index),
        first_error(items) == items[index]->Err_0,
    decreases items.len(),
{
    let shorter = items.drop_last();
    let found = if exists|i: int| 0 <= i < shorter.len() && shorter[i] is Err {
        let earlier = lemma_first_error_exists(shorter);
        assert(forall|i: int| 0 <= i < earlier ==> shorter[i] == items[i]);
        earlier
    } else {
        assert forall|i: int| 0 <= i < items.len() - 1 implies items[i] is Ok by {
            assert(shorter[i] == items[i]);
        }
        items.len() - 1
    };
    assert(is_first_error(items, found));
    let chosen = choose|i: int| is_first_error(items, i);
    assert(is_first_error(items, chosen));
    assert(chosen == found) by {
        if chosen < found {
            assert(items[chosen] is Ok);
        }
        if found < chosen {
            assert(items[found] is Ok);
        }
    }
    found
}

/// A ledger without an error converts to as many records as it has
/// transactions, balance assertions and file inclusions. Directives of other
/// kinds add nothing, and there are never more records than directives.
pub proof fn law_one_record_per_projected_directive(items: Seq<ParsedItemView>, span: Span)
    requires
        !fails(items),
    ensures
        conversion(items, span) matches Ok(made) && made.len() == count_with_record(items)
            && made.len() <= items.len(),
{
    lemma_records_len(items, span);
}

/// An empty ledger converts to no records and no error.
pub proof fn law_empty_ledger_gives_no_records(span: Span)
    ensures
        conversion(Seq::empty(), span) == Ok::<Seq<ValueView>, LabeledErrorView>(Seq::empty()),
{
    assert(records(Seq::empty(), span) =~= Seq::empty());
}

/// The conversion keeps no state: whatever two runs on the same text, from
/// the same place, answer, they answer the same.
pub proof fn law_same_text_same_answer(
    text: Seq<char>,
    input: Span,
    head: Span,
    first: Result<ValueView, LabeledErrorView>,
    second: Result<ValueView, LabeledErrorView>,
)
    requires
        first == answer(parsed(text), input, head),
        second == answer(parsed(text), input, head),
    ensures
        first == second,
{
}

/// Records keep the order of their directives: of two directives that both
/// have a record, the record of the earlier one stands before the record of
/// the later one.
pub proof fn law_records_keep_order(
    items: Seq<ParsedItemView>,
    span: Span,
    earlier: int,
    later: int,
)
    requires
        0 <= earlier < later < items.len(),
        has_record(items[earlier]),
        has_record(items[later]),
    ensures
        0 <= place_of_record(items, earlier) < place_of_record(items, later) < records(
            items,
            span,
        ).len(),
        records(items, span)[place_of_record(items, earlier)] == item_record(
            items[earlier],
            span,
        )->Some_0,
        records(items, span)[place_of_record(items, later)] == item_record(
            items[later],
            span,
        )->Some_0,
{
    lemma_record_stands_at_its_place(items, span, earlier);
    lemma_record_stands_at_its_place(items, span, later);
    let upto = items.take(later);
    lemma_record_stands_at_its_place(upto, span, earlier);
    assert(upto.take(earlier) =~= items.take(earlier));
    lemma_records_len(upto, span);
}

/// The record of an item that has one stands at its place among the records.
pub proof fn lemma_record_stands_at_its_place(
    items: Seq<ParsedItemView>,
    span: Span,
    index: int,
)
    requires
        0 <= index < items.len(),
        has_record(items[index]),
    ensures
        0 <= place_of_record(items, index) < records(items, span).len(),
        records(items, span)[place_of_record(items, index)] == item_record(
            items[index],
            span,
        )->Some_0,
{
    let before = items.take(index);
    let through = items.take(index + 1);
    lemma_records_len(before, span);
    lemma_has_record(items[index], span);
    items.lemma_filter_map_take_succ(record_of(span), index);
    assert(records(through, span) == records(before, span) + seq![
        item_record(items[index], span)->Some_0,
    ]);
    lemma_records_split(items, span, index + 1);
}

/// A missing payee or narration is the absent value, an empty one is an empty
/// text, and the two differ. A transaction without postings has an empty
/// list of postings, not the absent value.
pub proof fn law_absent_is_not_empty(transaction: LedgerTransactionView, span: Span)
    ensures
        transaction_record(transaction, span)->cols[3] == "payee"@,
        transaction_record(transaction, span)->cols[4] == "narration"@,
        transaction_record(transaction, span)->cols[5] == "postings"@,
        transaction.payee is None ==> transaction_record(transaction, span)->Record_vals[3]
            == absent(),
        transaction.payee == Some(Seq::<char>::empty()) ==> transaction_record(
            transaction,
            span,
        )->Record_vals[3] == text_value(Seq::empty(), span),
        transaction.narration is None ==> transaction_record(transaction, span)->Record_vals[4]
            == absent(),
        transaction.narration == Some(Seq::<char>::empty()) ==> transaction_record(
            transaction,
            span,
        )->Record_vals[4] == text_value(Seq::empty(), span),
        transaction.postings.len() == 0 ==> transaction_record(
            transaction,
            span,
        )->Record_vals[5] == (ValueView::List { vals: Seq::empty(), span }),
        absent() != text_value(Seq::empty(), span),
        absent() != (ValueView::List { vals: Seq::empty(), span }),
{
    if transaction.postings.len() == 0 {
        assert(crate::transaction::posting_records(transaction.postings, span) =~= Seq::empty());
    }
}

/// A cleared flag and no flag are both written `*`; a pending flag is written
/// `!`, which is another text.
pub proof fn law_flags_are_normalized(span: Span)
    ensures
        flag_value(Some(Flag::Cleared), span) == text_value("*"@, span),
        flag_value(None, span) == text_value("*"@, span),
        flag_value(Some(Flag::Pending), span) == text_value("!"@, span),
        flag_value(Some(Flag::Pending), span) != flag_value(None, span),
{
    reveal_strlit("*");
    reveal_strlit("!");
    assert("*"@[0] != "!"@[0]);
}

/// One malformed stretch fails the whole ledger: the conversion gives the
/// first error, attributed to the input, and not one record, however many
/// directives were read before it.
pub proof fn law_one_error_fails_everything(
    items: Seq<ParsedItemView>,
    span: Span,
    index: int,
)
    requires
        0 <= index < items.len(),
        items[index] is Err,
    ensures
        conversion(items, span) is Err,
        exists|first: int|
            0 <= first <= index && is_first_error(items, first) && conversion(items, span)
                == Err::<Seq<ValueView>, LabeledErrorView>(
                conversion_error(items[first]->Err_0, span),
            ),
{
    let first = lemma_first_error_exists(items);
    if index < first {
        assert(items[index] is Ok);
    }
}

} // verus!
