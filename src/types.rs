//! Values exchanged with the print service: print options, request bodies
//! and the response envelope.
use vstd::prelude::*;

verus! {

/// Whether a letter is printed in color or in black and white.
#[derive(Debug, Copy, Clone, PartialEq, Eq, Structural)]
pub enum ColorPrint {
    Color,
    BlackAndWhite,
}

/// Whether a letter is printed on one side or on both sides of the sheet.
#[derive(Debug, Copy, Clone, PartialEq, Eq, Structural)]
pub enum Mode {
    Simplex,
    Duplex,
}

/// Where a letter is shipped to.
#[derive(Debug, Copy, Clone, PartialEq, Eq, Structural)]
pub enum Ship {
    National,
    International,
}

/// The HTTP method of a request to the service.
#[derive(Debug, Copy, Clone, PartialEq, Eq, Structural)]
pub enum RequestType {
    Delete,
    Get,
    Post,
}

/// The authentication block of a response.
#[derive(Debug, Default, Clone)]
pub struct SubAuth {
    pub id: String,
    pub user: String,
    pub status: String,
}

/// The credit balance of an account.
#[derive(Debug, Default, Clone)]
pub struct SubBalance {
    pub value: String,
    pub currency: String,
}

/// One invoice; `pdf_data` holds the document as base64 text.
#[derive(Debug, Default, Clone)]
pub struct SubInvoice {
    pub iid: String,
    pub invoicedate: String,
    pub pdf_data: Option<String>,
    pub bin_pdf_data: Option<Vec<u8>>,
    pub sum: String,
    pub vat: String,
}

/// One print job as the service reports it.
#[derive(Debug, Default, Clone)]
pub struct SubJobArgs {
    pub jid: String,
    pub address: String,
    pub parent: Option<String>,
    pub status: String,
    pub mode: String,
    pub color: String,
    pub cover: String,
    pub shipping: String,
    pub pages: String,
    pub cost: String,
    pub cost_vat: String,
    pub date: String,
    pub dispatchdate: Option<String>,
    pub sentdate: Option<String>,
}

/// The letter of a job submission: the document, its checksum, its display
/// name and how it is to be printed.
#[derive(Debug, Default, Clone)]
pub struct SubLetterData {
    pub base64_file: String,
    pub base64_checksum: String,
    pub address: String,
    pub specification: SubSpecification,
}

/// The credentials sent with every request.
#[derive(Debug, Default, Clone)]
pub struct SubNameAndKey {
    pub username: String,
    pub apikey: String,
}

/// The print options in the form the service expects them.
#[derive(Debug, Default, Clone)]
pub struct SubSpecification {
    pub color: i32,
    pub mode: String,
    pub ship: String,
}

/// The body of every request: the credentials and, for a submission, the letter.
#[derive(Debug, Default, Clone)]
pub struct RequestLetter {
    pub auth: SubNameAndKey,
    pub letter: SubLetterData,
}

/// The envelope of every response. All parts but `status` and `message` may
/// be absent; the invoice and job tables list their entries by key.
#[derive(Debug, Default, Clone)]
pub struct Response {
    pub auth: Option<SubAuth>,
    pub balance: Option<SubBalance>,
    pub invoice: Option<SubInvoice>,
    pub invoices: Option<Vec<(String, SubInvoice)>>,
    pub jobs: Option<Vec<(String, SubJobArgs)>>,
    pub status: i32,
    pub message: String,
}

} // verus!
