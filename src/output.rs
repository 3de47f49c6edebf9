//! Rendering rows as CSV text: the column titles once, then one record per row.
use vstd::prelude::*;
use vstd::utf8::encode_utf8;

verus! {

/// `,`, the field delimiter.
pub const COMMA: u8 = 0x2c;

/// `"`, the quote character.
pub const QUOTE: u8 = 0x22;

/// `\n`, the record terminator.
pub const NEWLINE: u8 = 0x0a;

/// `\r`, quoted because readers take it for a record terminator.
pub const CARRIAGE_RETURN: u8 = 0x0d;

/// A byte that forces its field to be quoted.
pub open spec fn is_special_byte(b: u8) -> bool {
    b == COMMA || b == QUOTE || b == NEWLINE || b == CARRIAGE_RETURN
}

/// Whether a field must be quoted: it holds a special byte.
pub open spec fn needs_quotes(f: Seq<u8>) -> bool {
    exists|i: int| 0 <= i < f.len() && is_special_byte(#[trigger] f[i])
}

/// `f` with each quote doubled.
pub open spec fn double_quotes(f: Seq<u8>) -> Seq<u8>
    decreases f.len(),
{
    if f.len() == 0 {
        Seq::empty()
    } else {
        (if f[0] == QUOTE {
            seq![QUOTE, QUOTE]
        } else {
            seq![f[0]]
        }) + double_quotes(f.drop_first())
    }
}

/// A field as written: in quotes, with quotes doubled, where it needs quotes;
/// as it is otherwise.
pub open spec fn field_text(f: Seq<u8>) -> Seq<u8> {
    if needs_quotes(f) {
        seq![QUOTE] + double_quotes(f) + seq![QUOTE]
    } else {
        f
    }
}

/// The written fields joined by commas.
pub open spec fn joined(fs: Seq<Seq<u8>>) -> Seq<u8>
    decreases fs.len(),
{
    if fs.len() == 0 {
        Seq::empty()
    } else if fs.len() == 1 {
        fs[0]
    } else {
        joined(fs.drop_last()) + seq![COMMA] + fs.last()
    }
}

/// The bytes of one CSV record of `fields`: each field's UTF-8 bytes, quoted
/// where needed, joined by commas, then a newline. A record that would
/// otherwise be empty is written as `""`, so that it still reads as a record.
pub open spec fn csv_record(fields: Seq<Seq<char>>) -> Seq<u8> {
    let body = joined(fields.map_values(|f: Seq<char>| field_text(encode_utf8(f))));
    (if body.len() == 0 {
        seq![QUOTE, QUOTE]
    } else {
        body
    }) + seq![NEWLINE]
}

/// A record of two or more fields none of which holds a comma, quote or
/// line break is written verbatim: the fields' bytes joined by commas, then a
/// newline.
pub proof fn lemma_plain_fields_written_verbatim(fields: Seq<Seq<char>>)
    requires
        fields.len() >= 2,
        forall|k: int| 0 <= k < fields.len() ==> !needs_quotes(#[trigger] encode_utf8(fields[k])),
    ensures
        csv_record(fields) == joined(fields.map_values(|f: Seq<char>| encode_utf8(f))) + seq![
            NEWLINE,
        ],
{
    let written = fields.map_values(|f: Seq<char>| field_text(encode_utf8(f)));
    let plain = fields.map_values(|f: Seq<char>| encode_utf8(f));
    assert(written =~= plain);
    assert(joined(plain) == joined(plain.drop_last()) + seq![COMMA] + plain.last());
}

/// Relies on `csv::Writer::from_writer`, `Writer::write_record` and
/// `Writer::into_inner` with the default settings (comma, `"` doubled inside
/// quotes, quoting only where needed, `\n` terminator): one record written
/// into an in-memory buffer, whose writes never fail.
#[verifier::external_body]
fn encode_record(fields: &Vec<String>) -> (r: Vec<u8>)
    ensures
        r@ == csv_record(fields.deep_view()),
{
    let mut writer = csv::Writer::from_writer(Vec::new());
    writer.write_record(fields).expect("writing into memory does not fail");
    writer.into_inner().map_err(|e| e.into_error()).expect("flushing into memory does not fail")
}

/// The titles of the nine columns, in order.
pub open spec fn column_titles() -> Seq<Seq<char>> {
    seq![
        "Message Identification"@,
        "Creation Date and Time"@,
        "Number of Transactions"@,
        "Initiating Party"@,
        "Payment Information ID"@,
        "Amount"@,
        "Currency"@,
        "Creditor Name"@,
        "Creditor IBAN"@,
    ]
}

/// The CSV text of a table: the title record once, then each row's record.
pub open spec fn csv_table(rows: Seq<Seq<Seq<char>>>) -> Seq<u8> {
    csv_record(column_titles()) + rows.map_values(|r: Seq<Seq<char>>| csv_record(r)).flatten()
}

/// The title record's fields.
pub fn column_header() -> (r: Vec<String>)
    ensures
        r.deep_view() == column_titles(),
{
    let mut r: Vec<String> = Vec::new();
    r.push("Message Identification".to_owned());
    r.push("Creation Date and Time".to_owned());
    r.push("Number of Transactions".to_owned());
    r.push("Initiating Party".to_owned());
    r.push("Payment Information ID".to_owned());
    r.push("Amount".to_owned());
    r.push("Currency".to_owned());
    r.push("Creditor Name".to_owned());
    r.push("Creditor IBAN".to_owned());
    assert(r.deep_view() =~= column_titles());
    r
}

/// Joins encoded records, in order, into one byte string.
pub fn concat_records(records: &Vec<Vec<u8>>) -> (r: Vec<u8>)
    ensures
        r@ == records.deep_view().flatten(),
{
    let mut out: Vec<u8> = Vec::new();
    let mut i: usize = 0;
    while i < records.len()
        invariant
            i <= records@.len(),
            out@ == records.deep_view().take(i as int).flatten(),
        decreases records@.len() - i,
    {
        let ghost prev = out@;
        out.extend_from_slice(records[i].as_slice());
        proof {
            let s = records.deep_view();
            assert(s.take(i + 1) =~= s.take(i as int).push(s[i as int]));
            s.take(i as int).lemma_flatten_push(s[i as int]);
            assert(out@ =~= prev + records@[i as int]@);
        }
        i += 1;
    }
    assert(records.deep_view().take(i as int) =~= records.deep_view());
    out
}

/// Renders `rows` as CSV text: the title record, then one record per row.
pub fn encode_table(rows: &Vec<Vec<String>>) -> (r: Vec<u8>)
    ensures
        r@ == csv_table(rows.deep_view()),
{
    let mut records: Vec<Vec<u8>> = Vec::new();
    let title = encode_record(&column_header());
    assert(title.deep_view() =~= title@);
    records.push(title);
    assert(rows.deep_view().take(0).map_values(|r: Seq<Seq<char>>| csv_record(r)) =~= Seq::<
        Seq<u8>,
    >::empty());
    assert(records.deep_view() =~= seq![csv_record(column_titles())]);
    let mut i: usize = 0;
    while i < rows.len()
        invariant
            i <= rows@.len(),
            records.deep_view() == seq![csv_record(column_titles())] + rows.deep_view().take(
                i as int,
            ).map_values(|r: Seq<Seq<char>>| csv_record(r)),
        decreases rows@.len() - i,
    {
        let ghost prev = records.deep_view();
        let b = encode_record(&rows[i]);
        let ghost bv = b@;
        assert(b.deep_view() =~= bv);
        records.push(b);
        assert(records.deep_view() =~= prev.push(bv));
        assert(rows.deep_view().take(i + 1) =~= rows.deep_view().take(i as int).push(
            rows@[i as int].deep_view(),
        ));
        assert(records.deep_view() =~= seq![csv_record(column_titles())] + rows.deep_view().take(
            i + 1,
        ).map_values(|r: Seq<Seq<char>>| csv_record(r)));
        i += 1;
    }
    let out = concat_records(&records);
    proof {
        let body = rows.deep_view().map_values(|r: Seq<Seq<char>>| csv_record(r));
        assert(rows.deep_view().take(i as int) =~= rows.deep_view());
        assert(records.deep_view() =~= seq![csv_record(column_titles())] + body);
        assert(records.deep_view().drop_first() =~= body);
    }
    out
}

} // verus!
