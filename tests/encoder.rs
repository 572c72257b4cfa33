use lxp::api::{encode_letter, invoice_pdf, specification, LxpApi, LxpApiError, Reply};
use lxp::text::{base_name, decimal, is_pdf_name, pad_right, parse_i32, sent_path};
use lxp::types::{ColorPrint, Mode, RequestType, Response, Ship, SubInvoice};

fn sample_pdf() -> Vec<u8> {
    let mut v = b"%PDF-1.4\n1 0 obj << /Type /Catalog >> endobj\n".to_vec();
    for i in 0..300u32 {
        v.push((i % 251) as u8);
    }
    v
}

#[test]
fn pdf_names_ignore_case() {
    assert!(is_pdf_name("a.pdf"));
    assert!(is_pdf_name("dir/Report.PDF"));
    assert!(is_pdf_name("x.PdF"));
    assert!(!is_pdf_name("b.txt"));
    assert!(!is_pdf_name("pdf"));
    assert!(!is_pdf_name("a.pdfx"));
    assert!(!is_pdf_name(""));
}

#[test]
fn base_names_and_sent_paths() {
    assert_eq!(base_name("/home/u/in/a.pdf"), "a.pdf");
    assert_eq!(base_name("a.pdf"), "a.pdf");
    assert_eq!(base_name("dir/"), "");
    assert_eq!(sent_path("/home/u/in/a.pdf"), "/home/u/in/sent/a.pdf");
    assert_eq!(sent_path("in/b.pdf"), "in/sent/b.pdf");
    assert_eq!(sent_path("c.pdf"), "sent/c.pdf");
}

#[test]
fn decimal_numbers() {
    assert_eq!(decimal(0), "0");
    assert_eq!(decimal(7), "7");
    assert_eq!(decimal(1234), "1234");
    assert_eq!(decimal(-56), "-56");
    assert_eq!(decimal(i32::MAX), "2147483647");
    assert_eq!(decimal(i32::MIN), "-2147483648");
}

#[test]
fn parsing_integers() {
    assert_eq!(parse_i32("42"), Some(42));
    assert_eq!(parse_i32("+42"), Some(42));
    assert_eq!(parse_i32("-17"), Some(-17));
    assert_eq!(parse_i32("007"), Some(7));
    assert_eq!(parse_i32("2147483647"), Some(i32::MAX));
    assert_eq!(parse_i32("-2147483648"), Some(i32::MIN));
    assert_eq!(parse_i32("2147483648"), None);
    assert_eq!(parse_i32("99999999999999999999"), None);
    assert_eq!(parse_i32(""), None);
    assert_eq!(parse_i32("-"), None);
    assert_eq!(parse_i32("12a"), None);
    assert_eq!(parse_i32(" 1"), None);
}

#[test]
fn padding_to_columns() {
    assert_eq!(pad_right("ab", 5), "ab   ");
    assert_eq!(pad_right("abcdef", 3), "abcdef");
    assert_eq!(pad_right("", 2), "  ");
}

#[test]
fn print_options_in_service_terms() {
    let s = specification(&ColorPrint::Color, &Mode::Duplex, &Ship::International);
    assert_eq!(s.color, 4);
    assert_eq!(s.mode, "duplex");
    assert_eq!(s.ship, "international");
    let s = specification(&ColorPrint::BlackAndWhite, &Mode::Simplex, &Ship::National);
    assert_eq!(s.color, 1);
    assert_eq!(s.mode, "simplex");
    assert_eq!(s.ship, "national");
}

#[test]
fn encoded_content_decodes_to_the_file() {
    let content = sample_pdf();
    let l = encode_letter("in/doc.pdf", &content, &ColorPrint::Color, &Mode::Simplex, &Ship::National)
        .ok()
        .unwrap();
    assert_ne!(l.base64_file.as_bytes(), &content[..]);
    assert_eq!(base64::decode(&l.base64_file).unwrap(), content);
    assert_eq!(l.address, "doc.pdf");
    assert_eq!(l.specification.color, 4);
}

#[test]
fn encoding_a_short_file() {
    let l = encode_letter("hello.pdf", &b"hello".to_vec(), &ColorPrint::BlackAndWhite, &Mode::Duplex, &Ship::National)
        .ok()
        .unwrap();
    assert_eq!(l.base64_file, "aGVsbG8=");
    assert_eq!(l.base64_checksum, format!("{:x}", md5::compute("aGVsbG8=")));
    assert_ne!(l.base64_checksum, "5d41402abc4b2a76b9719d911017c592");
}

#[test]
fn checksum_is_over_the_base64_text() {
    let content = sample_pdf();
    let l = encode_letter("doc.pdf", &content, &ColorPrint::Color, &Mode::Simplex, &Ship::National)
        .ok()
        .unwrap();
    assert_eq!(l.base64_checksum, format!("{:x}", md5::compute(l.base64_file.as_bytes())));
    assert_ne!(l.base64_checksum, format!("{:x}", md5::compute(&content)));
    assert_eq!(l.base64_checksum.len(), 32);
}

#[test]
fn empty_file_checksum() {
    let l = encode_letter("e.pdf", &Vec::new(), &ColorPrint::Color, &Mode::Simplex, &Ship::National)
        .ok()
        .unwrap();
    assert_eq!(l.base64_file, "");
    assert_eq!(l.base64_checksum, "d41d8cd98f00b204e9800998ecf8427e");
}

#[test]
fn non_pdf_name_is_refused() {
    let r = encode_letter("notes.txt", &b"x".to_vec(), &ColorPrint::Color, &Mode::Simplex, &Ship::National);
    assert_eq!(r.err(), Some(LxpApiError::PdfFileError));
}

#[test]
fn submission_request() {
    let api = LxpApi::new("alice", "SECRET-REDACTED", "https://api.example/v1/");
    let req = api
        .set_job("in/a.pdf", &b"hello".to_vec(), &ColorPrint::Color, &Mode::Duplex, &Ship::International)
        .ok()
        .unwrap();
    assert_eq!(req.method, RequestType::Post);
    assert_eq!(req.url, "https://api.example/v1/setJob");
    assert_eq!(req.body.auth.username, "alice");
    assert_eq!(req.body.auth.apikey, "SECRET-REDACTED");
    assert_eq!(req.body.letter.address, "a.pdf");
    assert_eq!(req.body.letter.base64_file, "aGVsbG8=");
    assert_eq!(req.body.letter.specification.mode, "duplex");
    let bad = api.set_job("in/a.doc", &b"hello".to_vec(), &ColorPrint::Color, &Mode::Duplex, &Ship::International);
    assert_eq!(bad.err(), Some(LxpApiError::PdfFileError));
}

#[test]
fn plain_requests() {
    let api = LxpApi::new("bob", "k", "https://h/");
    let r = api.delete_job(17);
    assert_eq!(r.method, RequestType::Delete);
    assert_eq!(r.url, "https://h/deleteJob/17");
    assert_eq!(r.body.auth.username, "bob");
    assert_eq!(r.body.letter.base64_file, "");
    assert_eq!(api.get_blance().url, "https://h/getBalance");
    assert_eq!(api.get_blance().method, RequestType::Get);
    assert_eq!(api.get_jobs_hold().url, "https://h/getJobs/hold");
    assert_eq!(api.get_jobs_queue(7).url, "https://h/getJobs/queue/7");
    assert_eq!(api.get_jobs_sent(30).url, "https://h/getJobs/sent/30");
    assert_eq!(api.list_invoices().url, "https://h/listInvoices");
    assert_eq!(api.get_last_invoice().url, "https://h/getInvoice");
    assert_eq!(api.get_invoice(-3).url, "https://h/getInvoice/-3");
}

#[test]
fn reply_handling() {
    let api = LxpApi::new("u", "k", "https://h/");
    assert_eq!(api.handle_response(Reply::NotSent).err(), Some(LxpApiError::RestError));
    assert_eq!(api.handle_response(Reply::BodyUnreadable).err(), Some(LxpApiError::RestError));
    assert_eq!(api.handle_response(Reply::Undecodable).err(), Some(LxpApiError::JsonError));
    let mut resp = Response::default();
    resp.status = 404;
    resp.message = "not found".to_string();
    let r = api.handle_response(Reply::Decoded(resp)).ok().unwrap();
    assert_eq!(r.status, 404);
    assert_eq!(r.message, "not found");
}

#[test]
fn error_messages() {
    assert_eq!(LxpApiError::RestError.message(), "Web service: check url, user and apikey");
    assert_eq!(LxpApiError::JsonError.message(), "Internal JSON error, please inform the developers");
    assert_eq!(LxpApiError::PdfFileError.message(), "No PDF file or file reading error");
}

#[test]
fn missing_invoice_gives_no_bytes() {
    let resp = Response::default();
    assert_eq!(invoice_pdf(&resp).ok(), Some(Vec::new()));
}

#[test]
fn invoice_bytes_are_decoded() {
    let mut resp = Response::default();
    let mut inv = SubInvoice::default();
    inv.pdf_data = Some("JVBERi0xLjQ=".to_string());
    resp.invoice = Some(inv);
    assert_eq!(invoice_pdf(&resp).ok(), Some(b"%PDF-1.4".to_vec()));
}

#[test]
fn broken_invoices_are_json_errors() {
    let mut resp = Response::default();
    resp.invoice = Some(SubInvoice::default());
    assert_eq!(invoice_pdf(&resp).err(), Some(LxpApiError::JsonError));
    let mut inv = SubInvoice::default();
    inv.pdf_data = Some("not base64!".to_string());
    resp.invoice = Some(inv);
    assert_eq!(invoice_pdf(&resp).err(), Some(LxpApiError::JsonError));
}
