//! A parsed PAIN.001 document together with the name it was read from, and
//! its conversion to rows and CSV text.
use vstd::prelude::*;

use crate::flatten::{document_rows, flatten};
use crate::model::Document;
use crate::output::{csv_table, encode_table};

verus! {

/// The CSV text of a document: the title record, then one record per
/// transaction in document order.
pub open spec fn document_csv(d: Document) -> Seq<u8> {
    csv_table(document_rows(d))
}

/// A parsed document and the name of the file that held it.
#[derive(Debug)]
pub struct Pain001Parser {
    pub file_name: String,
    pub data: Document,
}

impl Pain001Parser {
    /// Holds `data`, parsed from the file `file_name`.
    pub fn new(file_name: &str, data: Document) -> (r: Self)
        ensures
            r.file_name@ == file_name@,
            r.data == data,
    {
        Pain001Parser { file_name: file_name.to_owned(), data }
    }

    /// The document's rows: one per transaction, in document order.
    pub fn rows(&self) -> (r: Vec<Vec<String>>)
        ensures
            r.deep_view() == document_rows(self.data),
    {
        flatten(&self.data)
    }

    /// The document's CSV text: the title record once, then one record per
    /// transaction in document order.
    pub fn parse(&self) -> (r: Vec<u8>)
        ensures
            r@ == document_csv(self.data),
    {
        let rows = flatten(&self.data);
        encode_table(&rows)
    }
}

/// Converting the same document twice gives the same rows, and the same CSV
/// text.
pub proof fn lemma_conversion_is_repeatable(
    d: Document,
    first: Vec<Vec<String>>,
    second: Vec<Vec<String>>,
)
    requires
        first.deep_view() == document_rows(d),
        second.deep_view() == document_rows(d),
    ensures
        first.deep_view() == second.deep_view(),
        csv_table(first.deep_view()) == csv_table(second.deep_view()),
        csv_table(first.deep_view()) == document_csv(d),
{
}

} // verus!
