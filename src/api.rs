//! The service's requests and the reading of its replies. Building a request
//! is pure: the caller sends it and hands back what came of it.
use vstd::prelude::*;
use vstd::utf8::encode_utf8;
use crate::codec::{
    base64_decoded, base64_of, decode_base64, encodable_len, encode_base64, md5_hex, md5_hex_of,
};
use crate::text::{base_name, base_name_of, decimal, decimal_of, has_pdf_suffix, is_pdf_name};
use crate::types::{
    ColorPrint, Mode, RequestLetter, RequestType, Response, Ship, SubLetterData, SubNameAndKey,
    SubSpecification,
};

verus! {

/// What can go wrong with a call to the service.
#[derive(Debug, Copy, Clone, PartialEq, Eq, Structural)]
pub enum LxpApiError {
    /// The file is no PDF file, or it could not be read.
    PdfFileError,
    /// The request did not reach the service, or its reply could not be read.
    RestError,
    /// The reply does not have the expected shape.
    JsonError,
}

impl LxpApiError {
    /// The message shown to the user.
    pub fn message(&self) -> (r: &'static str)
        ensures
            *self == LxpApiError::PdfFileError ==> r@ == "No PDF file or file reading error"@,
            *self == LxpApiError::RestError ==> r@ == "Web service: check url, user and apikey"@,
            *self == LxpApiError::JsonError ==> r@
                == "Internal JSON error, please inform the developers"@,
    {
        match self {
            LxpApiError::PdfFileError => "No PDF file or file reading error",
            LxpApiError::RestError => "Web service: check url, user and apikey",
            LxpApiError::JsonError => "Internal JSON error, please inform the developers",
        }
    }
}

/// The service's code for a color mode.
pub open spec fn color_code(c: ColorPrint) -> i32 {
    match c {
        ColorPrint::Color => 4,
        ColorPrint::BlackAndWhite => 1,
    }
}

/// The service's word for a print mode.
pub open spec fn mode_word(m: Mode) -> Seq<char> {
    match m {
        Mode::Simplex => "simplex"@,
        Mode::Duplex => "duplex"@,
    }
}

/// The service's word for a shipping scope.
pub open spec fn ship_word(s: Ship) -> Seq<char> {
    match s {
        Ship::National => "national"@,
        Ship::International => "international"@,
    }
}

/// `spec` states the three print options in the service's terms.
pub open spec fn is_specification(
    spec: SubSpecification,
    color: ColorPrint,
    mode: Mode,
    ship: Ship,
) -> bool {
    &&& spec.color == color_code(color)
    &&& spec.mode@ == mode_word(mode)
    &&& spec.ship@ == ship_word(ship)
}

/// `l` is the letter for the file `name` with bytes `content`: the base64
/// text of the bytes, the MD5 of that text (not of the bytes), the file's
/// base name, and the print options.
pub open spec fn is_letter_for(
    l: SubLetterData,
    name: Seq<char>,
    content: Seq<u8>,
    color: ColorPrint,
    mode: Mode,
    ship: Ship,
) -> bool {
    &&& l.base64_file@ == base64_of(content)
    &&& l.base64_checksum@ == md5_hex_of(l.base64_file@)
    &&& l.address@ == base_name_of(name)
    &&& is_specification(l.specification, color, mode, ship)
}

/// A letter with nothing in it, as sent with the requests that carry none.
pub open spec fn is_blank_letter(l: SubLetterData) -> bool {
    &&& l.base64_file@.len() == 0
    &&& l.base64_checksum@.len() == 0
    &&& l.address@.len() == 0
    &&& l.specification.color == 0
    &&& l.specification.mode@.len() == 0
    &&& l.specification.ship@.len() == 0
}

/// The print options in the service's terms.
pub fn specification(color: &ColorPrint, mode: &Mode, ship: &Ship) -> (r: SubSpecification)
    ensures
        is_specification(r, *color, *mode, *ship),
{
    let color = match color {
        ColorPrint::Color => 4,
        ColorPrint::BlackAndWhite => 1,
    };
    let mode = match mode {
        Mode::Simplex => "simplex".to_owned(),
        Mode::Duplex => "duplex".to_owned(),
    };
    let ship = match ship {
        Ship::National => "national".to_owned(),
        Ship::International => "international".to_owned(),
    };
    SubSpecification { color, mode, ship }
}

/// Builds the letter of a submission from a file's name and bytes.
///
/// The name must end in `.pdf` (in any case); else, or where the file is too
/// large to encode, the result is `PdfFileError`. The checksum is taken over
/// the base64 text, and that text decodes to exactly the file's bytes.
pub fn encode_letter(
    file_name: &str,
    content: &Vec<u8>,
    color: &ColorPrint,
    mode: &Mode,
    ship: &Ship,
) -> (r: Result<SubLetterData, LxpApiError>)
    ensures
        r is Ok <==> has_pdf_suffix(file_name@) && encodable_len(content@.len()),
        r is Err ==> r->Err_0 == LxpApiError::PdfFileError,
        r is Ok ==> is_letter_for(r->Ok_0, file_name@, content@, *color, *mode, *ship),
        r is Ok ==> base64_decoded(r->Ok_0.base64_file@) == Some(content@),
{
    if !is_pdf_name(file_name) {
        return Err(LxpApiError::PdfFileError);
    }
    if content.len() > 3 * (usize::MAX / 4) {
        return Err(LxpApiError::PdfFileError);
    }
    let base64_file = encode_base64(content.as_slice());
    let base64_checksum = md5_hex(base64_file.as_str());
    Ok(
        SubLetterData {
            base64_file,
            base64_checksum,
            address: base_name(file_name),
            specification: specification(color, mode, ship),
        },
    )
}

fn blank_letter() -> (r: SubLetterData)
    ensures
        is_blank_letter(r),
{
    SubLetterData {
        base64_file: String::new(),
        base64_checksum: String::new(),
        address: String::new(),
        specification: SubSpecification { color: 0, mode: String::new(), ship: String::new() },
    }
}

/// A request to the service: its method, its full URL and its JSON body.
#[derive(Debug, Clone)]
pub struct ApiRequest {
    pub method: RequestType,
    pub url: String,
    pub body: RequestLetter,
}

/// What came of sending a request.
#[derive(Debug, Clone)]
pub enum Reply {
    /// The request could not be sent or no response arrived.
    NotSent,
    /// A response arrived but its body could not be read.
    BodyUnreadable,
    /// The body was read but is no response of the expected shape.
    Undecodable,
    /// The body was read as a response.
    Decoded(Response),
}

/// The outcome of a call from what came of sending it: a transport failure is
/// `RestError`, a body of the wrong shape `JsonError`, and a decoded response
/// is returned as it is, whatever its status.
pub open spec fn reply_outcome(reply: Reply) -> Result<Response, LxpApiError> {
    match reply {
        Reply::NotSent => Err(LxpApiError::RestError),
        Reply::BodyUnreadable => Err(LxpApiError::RestError),
        Reply::Undecodable => Err(LxpApiError::JsonError),
        Reply::Decoded(r) => Ok(r),
    }
}

/// The bytes of the invoice in a response: none where it holds no invoice,
/// the decoded PDF where it does, and `JsonError` where the invoice's PDF is
/// missing or is no base64 text (or too long to decode in memory).
pub open spec fn invoice_bytes(r: Response) -> Result<Seq<u8>, LxpApiError> {
    match r.invoice {
        None => Ok(Seq::empty()),
        Some(inv) => match inv.pdf_data {
            None => Err(LxpApiError::JsonError),
            Some(d) => if encode_utf8(d@).len() > usize::MAX - 7 {
                Err(LxpApiError::JsonError)
            } else {
                match base64_decoded(d@) {
                    Some(b) => Ok(b),
                    None => Err(LxpApiError::JsonError),
                }
            },
        },
    }
}

/// The bytes of the invoice in a response (see `invoice_bytes`).
pub fn invoice_pdf(r: &Response) -> (res: Result<Vec<u8>, LxpApiError>)
    ensures
        res is Ok <==> invoice_bytes(*r) is Ok,
        res is Ok ==> invoice_bytes(*r) == Ok::<Seq<u8>, LxpApiError>(res->Ok_0@),
        res is Err ==> invoice_bytes(*r) == Err::<Seq<u8>, LxpApiError>(res->Err_0),
        r.invoice is None ==> (res matches Ok(b) && b@.len() == 0),
{
    match &r.invoice {
        None => Ok(Vec::new()),
        Some(inv) => match &inv.pdf_data {
            None => Err(LxpApiError::JsonError),
            Some(d) => {
                if d.as_str().as_bytes().len() > usize::MAX - 7 {
                    return Err(LxpApiError::JsonError);
                }
                match decode_base64(d.as_str()) {
                    Ok(b) => Ok(b),
                    Err(_) => Err(LxpApiError::JsonError),
                }
            },
        },
    }
}

/// The client of the service: the base URL and the credentials sent with
/// every request.
#[derive(Debug, Clone)]
pub struct LxpApi {
    pub url: String,
    pub auth: SubNameAndKey,
}

/// `a` holds the credentials of `b`.
pub open spec fn same_credentials(a: SubNameAndKey, b: SubNameAndKey) -> bool {
    a.username@ == b.username@ && a.apikey@ == b.apikey@
}

impl LxpApi {
    /// `req` asks, with `method`, for the service path `path`, and carries
    /// the credentials and a blank letter.
    pub open spec fn is_plain_request(
        &self,
        req: ApiRequest,
        method: RequestType,
        path: Seq<char>,
    ) -> bool {
        &&& req.method == method
        &&& req.url@ == self.url@ + path
        &&& same_credentials(req.body.auth, self.auth)
        &&& is_blank_letter(req.body.letter)
    }

    pub fn new(user_name: &str, api_key: &str, url: &str) -> (r: LxpApi)
        ensures
            r.auth.username@ == user_name@,
            r.auth.apikey@ == api_key@,
            r.url@ == url@,
    {
        let auth = SubNameAndKey { username: user_name.to_owned(), apikey: api_key.to_owned() };
        LxpApi { url: url.to_owned(), auth }
    }

    /// A copy of the client.
    pub fn duplicate(&self) -> (r: LxpApi)
        ensures
            r.url@ == self.url@,
            same_credentials(r.auth, self.auth),
    {
        LxpApi { url: self.url.clone(), auth: self.credentials() }
    }

    fn credentials(&self) -> (r: SubNameAndKey)
        ensures
            same_credentials(r, self.auth),
    {
        SubNameAndKey { username: self.auth.username.clone(), apikey: self.auth.apikey.clone() }
    }

    /// The request for `sub_url` below the base URL, with `body`.
    fn request(&self, method: RequestType, sub_url: &str, body: RequestLetter) -> (r: ApiRequest)
        ensures
            r.method == method,
            r.url@ == self.url@ + sub_url@,
            r.body == body,
    {
        ApiRequest { method, url: self.url.clone().concat(sub_url), body }
    }

    /// A request that carries the credentials and no letter.
    fn plain_request(&self, method: RequestType, sub_url: &str) -> (r: ApiRequest)
        ensures
            self.is_plain_request(r, method, sub_url@),
    {
        let body = RequestLetter { auth: self.credentials(), letter: blank_letter() };
        self.request(method, sub_url, body)
    }

    /// The same, for a path that ends in a number.
    fn numbered_request(&self, method: RequestType, prefix: &str, n: i32) -> (r: ApiRequest)
        ensures
            self.is_plain_request(r, method, prefix@ + decimal_of(n as int)),
    {
        let path = prefix.to_owned().concat(decimal(n).as_str());
        self.plain_request(method, path.as_str())
    }

    /// Deletes the job `id`.
    pub fn delete_job(&self, id: i32) -> (r: ApiRequest)
        ensures
            self.is_plain_request(r, RequestType::Delete, "deleteJob/"@ + decimal_of(id as int)),
    {
        self.numbered_request(RequestType::Delete, "deleteJob/", id)
    }

    /// Asks for the account's credit balance.
    pub fn get_blance(&self) -> (r: ApiRequest)
        ensures
            self.is_plain_request(r, RequestType::Get, "getBalance"@),
    {
        self.plain_request(RequestType::Get, "getBalance")
    }

    /// Lists the jobs held back for want of credit.
    pub fn get_jobs_hold(&self) -> (r: ApiRequest)
        ensures
            self.is_plain_request(r, RequestType::Get, "getJobs/hold"@),
    {
        self.plain_request(RequestType::Get, "getJobs/hold")
    }

    /// Lists the jobs queued in the last `days` days.
    pub fn get_jobs_queue(&self, days: i32) -> (r: ApiRequest)
        ensures
            self.is_plain_request(r, RequestType::Get, "getJobs/queue/"@ + decimal_of(days as int)),
    {
        self.numbered_request(RequestType::Get, "getJobs/queue/", days)
    }

    /// Lists the jobs sent in the last `days` days.
    pub fn get_jobs_sent(&self, days: i32) -> (r: ApiRequest)
        ensures
            self.is_plain_request(r, RequestType::Get, "getJobs/sent/"@ + decimal_of(days as int)),
    {
        self.numbered_request(RequestType::Get, "getJobs/sent/", days)
    }

    /// Lists the account's invoices.
    pub fn list_invoices(&self) -> (r: ApiRequest)
        ensures
            self.is_plain_request(r, RequestType::Get, "listInvoices"@),
    {
        self.plain_request(RequestType::Get, "listInvoices")
    }

    /// Asks for the current invoice; `invoice_pdf` reads its document.
    pub fn get_last_invoice(&self) -> (r: ApiRequest)
        ensures
            self.is_plain_request(r, RequestType::Get, "getInvoice"@),
    {
        self.plain_request(RequestType::Get, "getInvoice")
    }

    /// Asks for the invoice `id`; `invoice_pdf` reads its document.
    pub fn get_invoice(&self, id: i32) -> (r: ApiRequest)
        ensures
            self.is_plain_request(r, RequestType::Get, "getInvoice/"@ + decimal_of(id as int)),
    {
        self.numbered_request(RequestType::Get, "getInvoice/", id)
    }

    /// Submits the file `file_name`, whose bytes are `content`, as a print job.
    /// Fails with `PdfFileError` exactly where `encode_letter` does.
    pub fn set_job(
        &self,
        file_name: &str,
        content: &Vec<u8>,
        color: &ColorPrint,
        mode: &Mode,
        ship: &Ship,
    ) -> (r: Result<ApiRequest, LxpApiError>)
        ensures
            r is Ok <==> has_pdf_suffix(file_name@) && encodable_len(content@.len()),
            r is Err ==> r->Err_0 == LxpApiError::PdfFileError,
            r is Ok ==> {
                let req = r->Ok_0;
                &&& req.method == RequestType::Post
                &&& req.url@ == self.url@ + "setJob"@
                &&& same_credentials(req.body.auth, self.auth)
                &&& is_letter_for(req.body.letter, file_name@, content@, *color, *mode, *ship)
                &&& base64_decoded(req.body.letter.base64_file@) == Some(content@)
            },
    {
        let letter = encode_letter(file_name, content, color, mode, ship)?;
        let body = RequestLetter { auth: self.credentials(), letter };
        Ok(self.request(RequestType::Post, "setJob", body))
    }

    /// The outcome of a call from what came of sending its request (see
    /// `reply_outcome`).
    pub fn handle_response(&self, reply: Reply) -> (r: Result<Response, LxpApiError>)
        ensures
            r == reply_outcome(reply),
    {
        match reply {
            Reply::NotSent => Err(LxpApiError::RestError),
            Reply::BodyUnreadable => Err(LxpApiError::RestError),
            Reply::Undecodable => Err(LxpApiError::JsonError),
            Reply::Decoded(r) => Ok(r),
        }
    }
}

} // verus!
