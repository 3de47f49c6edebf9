//! The flattening transform: one row of nine columns per transaction, blocks
//! and transactions in document order, the group-header columns repeated.
use vstd::prelude::*;

use crate::output::column_titles;
use crate::model::{
    optional_text, text_or_empty, CreditTransferTransactionInfo, Document, GroupHeader,
    PaymentInfo,
};

verus! {

/// The number of columns of every row.
pub const COLUMN_COUNT: usize = 9;

/// The four columns taken from the group header: message id, creation time,
/// declared transaction count, initiating-party name.
pub open spec fn header_columns(h: GroupHeader) -> Seq<Seq<char>> {
    seq![
        text_or_empty(h.msg_id),
        text_or_empty(h.creation_date_time),
        text_or_empty(h.number_of_transactions),
        h.initiating_party_name(),
    ]
}

/// The row of transaction `t` of block `p`: the header columns, then block id,
/// amount, currency, creditor name and creditor IBAN.
pub open spec fn row_of(
    h: GroupHeader,
    p: PaymentInfo,
    t: CreditTransferTransactionInfo,
) -> Seq<Seq<char>> {
    header_columns(h) + seq![
        text_or_empty(p.payment_info_id),
        t.amount.instructed_amount.amount@,
        t.amount.instructed_amount.currency@,
        text_or_empty(t.creditor.name),
        t.creditor_account.id.iban@,
    ]
}

/// The rows of one block, in the order of its transactions.
pub open spec fn block_rows(h: GroupHeader, p: PaymentInfo) -> Seq<Seq<Seq<char>>> {
    p.credit_transfer_transaction_info@.map_values(
        |t: CreditTransferTransactionInfo| row_of(h, p, t),
    )
}

/// The rows of the first `n` blocks of `d`.
pub open spec fn rows_upto(d: Document, n: int) -> Seq<Seq<Seq<char>>>
    decreases n,
{
    if n <= 0 {
        Seq::empty()
    } else {
        rows_upto(d, n - 1) + block_rows(d.group_header, d.payment_info@[n - 1])
    }
}

/// All rows of `d`.
pub open spec fn document_rows(d: Document) -> Seq<Seq<Seq<char>>> {
    rows_upto(d, d.payment_info@.len() as int)
}

/// The number of transactions in the first `n` blocks of `d`.
pub open spec fn transactions_upto(d: Document, n: int) -> nat
    decreases n,
{
    if n <= 0 {
        0
    } else {
        transactions_upto(d, n - 1) + d.payment_info@[n - 1].credit_transfer_transaction_info@.len()
    }
}

/// The number of transactions in `d`.
pub open spec fn transaction_count(d: Document) -> nat {
    transactions_upto(d, d.payment_info@.len() as int)
}

/// The four header columns of `h`.
pub fn header_record(h: &GroupHeader) -> (r: Vec<String>)
    ensures
        r.deep_view() == header_columns(*h),
{
    let mut r: Vec<String> = Vec::new();
    r.push(optional_text(&h.msg_id));
    r.push(optional_text(&h.creation_date_time));
    r.push(optional_text(&h.number_of_transactions));
    let name = match &h.initiating_party {
        Some(p) => optional_text(&p.name),
        None => String::new(),
    };
    r.push(name);
    assert(r.deep_view() =~= header_columns(*h));
    r
}

/// The row of transaction `t` of block `p` under header `h`.
pub fn transaction_row(
    h: &GroupHeader,
    p: &PaymentInfo,
    t: &CreditTransferTransactionInfo,
) -> (r: Vec<String>)
    ensures
        r.deep_view() == row_of(*h, *p, *t),
{
    let mut r = header_record(h);
    r.push(optional_text(&p.payment_info_id));
    r.push(t.amount.instructed_amount.amount.clone());
    r.push(t.amount.instructed_amount.currency.clone());
    r.push(optional_text(&t.creditor.name));
    r.push(t.creditor_account.id.iban.clone());
    assert(r.deep_view() =~= row_of(*h, *p, *t));
    r
}

/// Flattens `doc` into its rows: for each block in order, one row per
/// transaction in order.
pub fn flatten(doc: &Document) -> (rows: Vec<Vec<String>>)
    ensures
        rows.deep_view() == document_rows(*doc),
{
    let h = &doc.group_header;
    let mut rows: Vec<Vec<String>> = Vec::new();
    let mut i: usize = 0;
    while i < doc.payment_info.len()
        invariant
            i <= doc.payment_info@.len(),
            h == doc.group_header,
            rows.deep_view() == rows_upto(*doc, i as int),
        decreases doc.payment_info@.len() - i,
    {
        let p = &doc.payment_info[i];
        let ghost before = rows.deep_view();
        let mut j: usize = 0;
        while j < p.credit_transfer_transaction_info.len()
            invariant
                i < doc.payment_info@.len(),
                j <= p.credit_transfer_transaction_info@.len(),
                *p == doc.payment_info@[i as int],
                h == doc.group_header,
                rows.deep_view() == before + block_rows(*h, *p).take(j as int),
            decreases p.credit_transfer_transaction_info@.len() - j,
        {
            let row = transaction_row(h, p, &p.credit_transfer_transaction_info[j]);
            let ghost prev = rows.deep_view();
            let ghost row_view = row.deep_view();
            rows.push(row);
            assert(rows.deep_view() =~= prev.push(row_view));
            assert(block_rows(*h, *p).take(j + 1) =~= block_rows(*h, *p).take(j as int).push(
                row_view,
            ));
            assert(rows.deep_view() =~= before + block_rows(*h, *p).take(j + 1));
            j += 1;
        }
        assert(block_rows(*h, *p).take(j as int) =~= block_rows(*h, *p));
        i += 1;
    }
    rows
}

proof fn lemma_transactions_upto_monotone(d: Document, a: int, b: int)
    requires
        0 <= a <= b,
    ensures
        transactions_upto(d, a) <= transactions_upto(d, b),
    decreases b - a,
{
    if a < b {
        lemma_transactions_upto_monotone(d, a, b - 1);
    }
}

proof fn lemma_rows_upto_len(d: Document, n: int)
    requires
        0 <= n <= d.payment_info@.len(),
    ensures
        rows_upto(d, n).len() == transactions_upto(d, n),
    decreases n,
{
    if n > 0 {
        lemma_rows_upto_len(d, n - 1);
    }
}

proof fn lemma_row_of_shape(h: GroupHeader, p: PaymentInfo, t: CreditTransferTransactionInfo)
    ensures
        row_of(h, p, t).len() == COLUMN_COUNT,
        row_of(h, p, t).take(4) == header_columns(h),
{
    assert(row_of(h, p, t).take(4) =~= header_columns(h));
}

proof fn lemma_rows_upto_shape(d: Document, n: int)
    requires
        0 <= n <= d.payment_info@.len(),
    ensures
        forall|k: int|
            0 <= k < rows_upto(d, n).len() ==> #[trigger] rows_upto(d, n)[k].len() == COLUMN_COUNT
                && rows_upto(d, n)[k].take(4) == header_columns(d.group_header),
    decreases n,
{
    if n > 0 {
        lemma_rows_upto_shape(d, n - 1);
        let prev = rows_upto(d, n - 1);
        let p = d.payment_info@[n - 1];
        assert forall|k: int| 0 <= k < rows_upto(d, n).len() implies #[trigger] rows_upto(
            d,
            n,
        )[k].len() == COLUMN_COUNT && rows_upto(d, n)[k].take(4) == header_columns(
            d.group_header,
        ) by {
            if k >= prev.len() {
                let t = p.credit_transfer_transaction_info@[k - prev.len()];
                lemma_row_of_shape(d.group_header, p, t);
            }
        }
    }
}

proof fn lemma_row_position_upto(d: Document, i: int, j: int, n: int)
    requires
        0 <= i < n <= d.payment_info@.len(),
        0 <= j < d.payment_info@[i].credit_transfer_transaction_info@.len(),
    ensures
        transactions_upto(d, i) + j < rows_upto(d, n).len(),
        rows_upto(d, n)[transactions_upto(d, i) + j] == row_of(
            d.group_header,
            d.payment_info@[i],
            d.payment_info@[i].credit_transfer_transaction_info@[j],
        ),
    decreases n,
{
    lemma_rows_upto_len(d, n);
    lemma_rows_upto_len(d, n - 1);
    if n > i + 1 {
        lemma_row_position_upto(d, i, j, n - 1);
        lemma_transactions_upto_monotone(d, i + 1, n - 1);
    }
}

/// The transform yields exactly one row per transaction of the document.
pub proof fn lemma_one_row_per_transaction(d: Document)
    ensures
        document_rows(d).len() == transaction_count(d),
{
    lemma_rows_upto_len(d, d.payment_info@.len() as int);
}

/// Rows come in document order: the row of transaction `j` of block `i` stands
/// after the rows of all transactions of the blocks before `i`, and after the
/// first `j` transactions of block `i`.
pub proof fn lemma_rows_in_document_order(d: Document, i: int, j: int)
    requires
        0 <= i < d.payment_info@.len(),
        0 <= j < d.payment_info@[i].credit_transfer_transaction_info@.len(),
    ensures
        transactions_upto(d, i) + j < document_rows(d).len(),
        document_rows(d)[transactions_upto(d, i) + j] == row_of(
            d.group_header,
            d.payment_info@[i],
            d.payment_info@[i].credit_transfer_transaction_info@[j],
        ),
{
    lemma_row_position_upto(d, i, j, d.payment_info@.len() as int);
}

/// Every row of a document has the same first four columns: those of the
/// group header.
pub proof fn lemma_header_columns_shared(d: Document, k1: int, k2: int)
    requires
        0 <= k1 < document_rows(d).len(),
        0 <= k2 < document_rows(d).len(),
    ensures
        document_rows(d)[k1].take(4) == document_rows(d)[k2].take(4),
        document_rows(d)[k1].take(4) == header_columns(d.group_header),
{
    let n = d.payment_info@.len() as int;
    lemma_rows_upto_shape(d, n);
    assert(rows_upto(d, n)[k1].len() == COLUMN_COUNT);
    assert(rows_upto(d, n)[k2].len() == COLUMN_COUNT);
}

/// Every row has nine columns, whichever optional fields are absent, as
/// does the title record.
pub proof fn lemma_every_row_has_nine_columns(d: Document)
    ensures
        column_titles().len() == COLUMN_COUNT,
        forall|k: int|
            0 <= k < document_rows(d).len() ==> #[trigger] document_rows(d)[k].len()
                == COLUMN_COUNT,
{
    let n = d.payment_info@.len() as int;
    lemma_rows_upto_shape(d, n);
    assert forall|k: int| 0 <= k < document_rows(d).len() implies #[trigger] document_rows(
        d,
    )[k].len() == COLUMN_COUNT by {
        assert(rows_upto(d, n)[k].len() == COLUMN_COUNT);
    }
}

/// Where the optional header fields are all absent, the four header columns
/// of every row are empty.
pub proof fn lemma_absent_header_fields_are_empty(d: Document)
    requires
        d.group_header.msg_id is None,
        d.group_header.creation_date_time is None,
        d.group_header.number_of_transactions is None,
        d.group_header.initiating_party is None || d.group_header.initiating_party->0.name is None,
    ensures
        forall|k: int, c: int|
            0 <= k < document_rows(d).len() && 0 <= c < 4 ==> #[trigger] document_rows(d)[k][c]
                == Seq::<char>::empty(),
{
    let n = d.payment_info@.len() as int;
    lemma_rows_upto_shape(d, n);
    assert forall|k: int, c: int|
        0 <= k < document_rows(d).len() && 0 <= c < 4 implies #[trigger] document_rows(d)[k][c]
        == Seq::<char>::empty() by {
        assert(rows_upto(d, n)[k].len() == COLUMN_COUNT);
        assert(header_columns(d.group_header)[c] == Seq::<char>::empty());
        assert(document_rows(d)[k].take(4)[c] == document_rows(d)[k][c]);
    }
}

} // verus!
