use bank_stream::flatten::{flatten, header_record, transaction_row, COLUMN_COUNT};
use bank_stream::model::{
    optional_text, Account, AccountId, Amount, CreditTransferTransactionInfo, Document,
    GroupHeader, InitiatingParty, InstructedAmount, Party, PaymentInfo,
};
use bank_stream::output::{column_header, concat_records, encode_table};
use bank_stream::parser::Pain001Parser;

fn s(v: &str) -> Option<String> {
    Some(v.to_string())
}

fn tx(amount: &str, currency: &str, name: Option<String>, iban: &str) -> CreditTransferTransactionInfo {
    CreditTransferTransactionInfo {
        amount: Amount {
            instructed_amount: InstructedAmount {
                amount: amount.to_string(),
                currency: currency.to_string(),
            },
        },
        creditor: Party { name },
        creditor_account: Account {
            id: AccountId { iban: iban.to_string() },
        },
    }
}

fn block(id: Option<String>, txs: Vec<CreditTransferTransactionInfo>) -> PaymentInfo {
    PaymentInfo {
        payment_info_id: id,
        credit_transfer_transaction_info: txs,
    }
}

fn full_header() -> GroupHeader {
    GroupHeader {
        msg_id: s("MSG1"),
        creation_date_time: s("2024-01-15T10:30:00"),
        number_of_transactions: s("1"),
        initiating_party: Some(InitiatingParty { name: None }),
    }
}

fn empty_header() -> GroupHeader {
    GroupHeader {
        msg_id: None,
        creation_date_time: None,
        number_of_transactions: None,
        initiating_party: None,
    }
}

fn two_by_two() -> Document {
    Document {
        group_header: GroupHeader {
            msg_id: s("MSG2"),
            creation_date_time: s("2024-02-01T08:00:00"),
            number_of_transactions: s("4"),
            initiating_party: Some(InitiatingParty { name: s("ACME") }),
        },
        payment_info: vec![
            block(
                s("PMT-A"),
                vec![
                    tx("1.00", "EUR", s("A1"), "IBAN-A1"),
                    tx("2.00", "EUR", s("A2"), "IBAN-A2"),
                ],
            ),
            block(
                s("PMT-B"),
                vec![
                    tx("3.00", "USD", s("B1"), "IBAN-B1"),
                    tx("4.00", "USD", None, "IBAN-B2"),
                ],
            ),
        ],
    }
}

const TITLES: &str = "Message Identification,Creation Date and Time,Number of Transactions,\
Initiating Party,Payment Information ID,Amount,Currency,Creditor Name,Creditor IBAN\n";

#[test]
fn single_transaction_row() {
    let doc = Document {
        group_header: full_header(),
        payment_info: vec![block(
            s("PMT1"),
            vec![tx("100.00", "EUR", s("Alice"), "DE00123456780000000000")],
        )],
    };
    let parser = Pain001Parser::new("input.xml", doc);
    assert_eq!(parser.file_name, "input.xml");
    let rows = parser.rows();
    assert_eq!(rows.len(), 1);
    assert_eq!(
        rows[0],
        vec![
            "MSG1",
            "2024-01-15T10:30:00",
            "1",
            "",
            "PMT1",
            "100.00",
            "EUR",
            "Alice",
            "DE00123456780000000000"
        ]
    );
    let csv = parser.parse();
    let expected = format!(
        "{}MSG1,2024-01-15T10:30:00,1,,PMT1,100.00,EUR,Alice,DE00123456780000000000\n",
        TITLES
    );
    assert_eq!(String::from_utf8(csv).unwrap(), expected);
}

#[test]
fn two_blocks_of_two_in_document_order() {
    let doc = two_by_two();
    let rows = flatten(&doc);
    assert_eq!(rows.len(), 4);
    let ibans: Vec<&str> = rows.iter().map(|r| r[8].as_str()).collect();
    assert_eq!(ibans, vec!["IBAN-A1", "IBAN-A2", "IBAN-B1", "IBAN-B2"]);
    let blocks: Vec<&str> = rows.iter().map(|r| r[4].as_str()).collect();
    assert_eq!(blocks, vec!["PMT-A", "PMT-A", "PMT-B", "PMT-B"]);
    for r in &rows {
        assert_eq!(r[0..4].to_vec(), vec!["MSG2", "2024-02-01T08:00:00", "4", "ACME"]);
    }
    assert_eq!(rows[3][7], "");
}

#[test]
fn row_count_is_sum_of_transactions() {
    let doc = Document {
        group_header: full_header(),
        payment_info: vec![
            block(s("BLK-1"), vec![tx("1", "EUR", None, "I1")]),
            block(s("BLK-2"), vec![]),
            block(
                None,
                vec![
                    tx("2", "EUR", None, "I2"),
                    tx("3", "EUR", None, "I3"),
                    tx("4", "EUR", None, "I4"),
                ],
            ),
        ],
    };
    let rows = flatten(&doc);
    assert_eq!(rows.len(), 4);
    let amounts: Vec<&str> = rows.iter().map(|r| r[5].as_str()).collect();
    assert_eq!(amounts, vec!["1", "2", "3", "4"]);
    assert_eq!(rows[1][4], "");
}

#[test]
fn document_without_blocks_has_only_titles() {
    let doc = Document {
        group_header: full_header(),
        payment_info: vec![],
    };
    let parser = Pain001Parser::new("empty.xml", doc);
    assert!(parser.rows().is_empty());
    assert_eq!(String::from_utf8(parser.parse()).unwrap(), TITLES);
}

#[test]
fn every_row_has_nine_columns() {
    let mut doc = two_by_two();
    doc.group_header = empty_header();
    doc.payment_info[0].payment_info_id = None;
    for r in flatten(&doc) {
        assert_eq!(r.len(), COLUMN_COUNT);
        assert_eq!(r.len(), 9);
    }
}

#[test]
fn absent_header_fields_are_empty_columns() {
    let doc = Document {
        group_header: empty_header(),
        payment_info: vec![block(s("P"), vec![tx("5.00", "CHF", None, "CH93")])],
    };
    let rows = flatten(&doc);
    assert_eq!(rows[0], vec!["", "", "", "", "P", "5.00", "CHF", "", "CH93"]);
    let text = String::from_utf8(encode_table(&rows)).unwrap();
    assert_eq!(text, format!("{},,,,P,5.00,CHF,,CH93\n", TITLES));
    assert!(!text.contains("None"));
    assert!(!text.contains("null"));
}

#[test]
fn converting_twice_gives_same_bytes() {
    let parser = Pain001Parser::new("twice.xml", two_by_two());
    assert_eq!(parser.rows(), parser.rows());
    let first = parser.parse();
    let second = parser.parse();
    assert_eq!(first, second);
    assert!(!first.is_empty());
}

#[test]
fn fields_with_delimiters_are_quoted() {
    let doc = Document {
        group_header: full_header(),
        payment_info: vec![block(
            s("P,1"),
            vec![tx("1,50", "EUR", s("Bob \"B\" Smith"), "GB00\nX")],
        )],
    };
    let text = String::from_utf8(Pain001Parser::new("q.xml", doc).parse()).unwrap();
    let expected = format!(
        "{}MSG1,2024-01-15T10:30:00,1,,\"P,1\",\"1,50\",EUR,\"Bob \"\"B\"\" Smith\",\"GB00\nX\"\n",
        TITLES
    );
    assert_eq!(text, expected);
}

#[test]
fn title_record_is_written_once() {
    let text = String::from_utf8(Pain001Parser::new("t.xml", two_by_two()).parse()).unwrap();
    assert_eq!(text.matches("Message Identification").count(), 1);
    assert_eq!(text.lines().count(), 5);
    assert!(text.starts_with(TITLES));
    assert!(text.ends_with("MSG2,2024-02-01T08:00:00,4,ACME,PMT-B,4.00,USD,,IBAN-B2\n"));
}

#[test]
fn column_header_titles() {
    let h = column_header();
    assert_eq!(h.len(), 9);
    assert_eq!(h.join(",") + "\n", TITLES);
}

#[test]
fn header_record_reads_party_name() {
    let mut h = full_header();
    assert_eq!(header_record(&h), vec!["MSG1", "2024-01-15T10:30:00", "1", ""]);
    h.initiating_party = Some(InitiatingParty { name: s("Corp") });
    assert_eq!(header_record(&h)[3], "Corp");
    h.initiating_party = None;
    assert_eq!(header_record(&h)[3], "");
}

#[test]
fn transaction_row_columns() {
    let h = full_header();
    let p = block(None, vec![]);
    let t = tx("9.99", "GBP", s("Zed"), "GB29");
    assert_eq!(
        transaction_row(&h, &p, &t),
        vec!["MSG1", "2024-01-15T10:30:00", "1", "", "", "9.99", "GBP", "Zed", "GB29"]
    );
}

#[test]
fn optional_text_defaults_to_empty() {
    assert_eq!(optional_text(&None), "");
    assert_eq!(optional_text(&s("x")), "x");
}

#[test]
fn concat_records_joins_in_order() {
    let r = concat_records(&vec![b"ab".to_vec(), vec![], b"c\n".to_vec()]);
    assert_eq!(r, b"abc\n".to_vec());
    assert!(concat_records(&vec![]).is_empty());
}

#[test]
fn empty_table_is_title_record() {
    assert_eq!(String::from_utf8(encode_table(&vec![])).unwrap(), TITLES);
}

#[test]
fn non_ascii_and_carriage_return_fields() {
    let rows = vec![vec![
        "Zürich".to_string(),
        "a\rb".to_string(),
        "".to_string(),
        "\"".to_string(),
        "x".to_string(),
        "".to_string(),
        "".to_string(),
        "".to_string(),
        "".to_string(),
    ]];
    let text = String::from_utf8(encode_table(&rows)).unwrap();
    assert_eq!(text, format!("{}Zürich,\"a\rb\",,\"\"\"\",x,,,,\n", TITLES));
}
