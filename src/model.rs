//! The subset of the PAIN.001 schema that the conversion reads.
//!
//! Descriptive fields are `Option`s; the financial identity of a transaction
//! (amount, currency, creditor IBAN) is always present.
use vstd::prelude::*;

verus! {

/// Group header: document-level metadata, appearing once per document.
#[derive(Debug)]
pub struct GroupHeader {
    /// `MsgId`
    pub msg_id: Option<String>,
    /// `CreDtTm`, kept verbatim.
    pub creation_date_time: Option<String>,
    /// `NbOfTxs`, kept verbatim.
    pub number_of_transactions: Option<String>,
    /// `InitgPty`
    pub initiating_party: Option<InitiatingParty>,
}

/// `InitgPty`: the party that initiated the message.
#[derive(Debug)]
pub struct InitiatingParty {
    /// `Nm`
    pub name: Option<String>,
}

/// `InstdAmt`: the element's text is the amount, its `Ccy` attribute the currency.
#[derive(Debug)]
pub struct InstructedAmount {
    /// Decimal amount, kept as text.
    pub amount: String,
    /// `Ccy`
    pub currency: String,
}

/// `Amt`
#[derive(Debug)]
pub struct Amount {
    /// `InstdAmt`
    pub instructed_amount: InstructedAmount,
}

/// `Cdtr`
#[derive(Debug)]
pub struct Party {
    /// `Nm`
    pub name: Option<String>,
}

/// `Id` under `CdtrAcct`
#[derive(Debug)]
pub struct AccountId {
    /// `IBAN`
    pub iban: String,
}

/// `CdtrAcct`
#[derive(Debug)]
pub struct Account {
    /// `Id`
    pub id: AccountId,
}

/// `CdtTrfTxInf`: one instructed money movement.
#[derive(Debug)]
pub struct CreditTransferTransactionInfo {
    /// `Amt`
    pub amount: Amount,
    /// `Cdtr`
    pub creditor: Party,
    /// `CdtrAcct`
    pub creditor_account: Account,
}

/// `PmtInf`: a batch of transactions sharing one payment-instruction id.
#[derive(Debug)]
pub struct PaymentInfo {
    /// `PmtInfId`
    pub payment_info_id: Option<String>,
    /// `CdtTrfTxInf`, in document order.
    pub credit_transfer_transaction_info: Vec<CreditTransferTransactionInfo>,
}

/// `CstmrCdtTrfInitn`: the root of the document.
#[derive(Debug)]
pub struct Document {
    /// `GrpHdr`
    pub group_header: GroupHeader,
    /// `PmtInf`, in document order.
    pub payment_info: Vec<PaymentInfo>,
}

/// The text of an optional field; an absent field is empty.
pub open spec fn text_or_empty(o: Option<String>) -> Seq<char> {
    match o {
        Some(s) => s@,
        None => Seq::empty(),
    }
}

impl GroupHeader {
    /// The initiating party's name, empty where the party or its name is absent.
    pub open spec fn initiating_party_name(self) -> Seq<char> {
        match self.initiating_party {
            Some(p) => text_or_empty(p.name),
            None => Seq::empty(),
        }
    }
}

/// Clones an optional field's text, or gives an empty string where it is absent.
pub fn optional_text(o: &Option<String>) -> (r: String)
    ensures
        r@ == text_or_empty(*o),
{
    match o {
        Some(s) => s.clone(),
        None => String::new(),
    }
}

} // verus!
