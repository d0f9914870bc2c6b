use liberty_pdf_scraper::envelope::document_from_reading;
use liberty_pdf_scraper::{BillEnvelope, Cause, FetchError, ReplyBody};

fn envelope(content: &str) -> BillEnvelope {
    BillEnvelope { content_array: String::from(content) }
}

fn parsed(body: &[u8]) -> Result<BillEnvelope, FetchError> {
    BillEnvelope::parse(body).map_err(|failure| failure.error)
}

fn outcome(body: &ReplyBody) -> Result<Vec<u8>, FetchError> {
    document_from_reading(body).map_err(|failure| failure.error)
}

fn reading(bytes: &[u8], strict: Option<&str>) -> ReplyBody {
    ReplyBody { bytes: bytes.to_vec(), envelope: strict.map(envelope) }
}

#[test]
fn parse_takes_the_content_out() {
    assert_eq!(
        parsed(b"{\"data\":{\"contentArray\":\"SGVsbG8=\"}}"),
        Ok(envelope("SGVsbG8="))
    );
}

#[test]
fn parse_passes_over_other_members_and_whitespace() {
    let body = b" {\n \"status\": 200,\n \"data\": { \"pages\": [1, 2], \"contentArray\": \"Zm9v\", \"name\": \"bill.pdf\" },\n \"message\": null }\n";
    assert_eq!(parsed(body), Ok(envelope("Zm9v")));
}

#[test]
fn parse_undoes_json_escapes() {
    assert_eq!(
        parsed(b"{\"data\":{\"contentArray\":\"a\\nb\\u0041\\\"\"}}"),
        Ok(envelope("a\nbA\""))
    );
}

#[test]
fn parse_does_not_judge_the_content() {
    assert_eq!(
        parsed(b"{\"data\":{\"contentArray\":\"not-base64!\"}}"),
        Ok(envelope("not-base64!"))
    );
}

#[test]
fn parse_rejects_a_missing_data_member() {
    assert_eq!(parsed(b"{}"), Err(FetchError::ParseError));
    assert_eq!(parsed(b"{\"contentArray\":\"Zm9v\"}"), Err(FetchError::ParseError));
    assert_eq!(
        parsed(b"{\"Data\":{\"contentArray\":\"Zm9v\"}}"),
        Err(FetchError::ParseError)
    );
}

#[test]
fn parse_rejects_a_missing_content_member() {
    assert_eq!(parsed(b"{\"data\":{}}"), Err(FetchError::ParseError));
    assert_eq!(
        parsed(b"{\"data\":{\"content_array\":\"Zm9v\"}}"),
        Err(FetchError::ParseError)
    );
}

#[test]
fn parse_rejects_members_of_another_kind() {
    assert_eq!(parsed(b"{\"data\":null}"), Err(FetchError::ParseError));
    assert_eq!(parsed(b"{\"data\":\"Zm9v\"}"), Err(FetchError::ParseError));
    assert_eq!(parsed(b"{\"data\":[\"Zm9v\"]}"), Err(FetchError::ParseError));
    assert_eq!(
        parsed(b"{\"data\":{\"contentArray\":null}}"),
        Err(FetchError::ParseError)
    );
    assert_eq!(
        parsed(b"{\"data\":{\"contentArray\":17}}"),
        Err(FetchError::ParseError)
    );
    assert_eq!(
        parsed(b"{\"data\":{\"contentArray\":[\"Zm9v\"]}}"),
        Err(FetchError::ParseError)
    );
    assert_eq!(
        parsed(b"{\"data\":{\"contentArray\":{\"text\":\"Zm9v\"}}}"),
        Err(FetchError::ParseError)
    );
}

#[test]
fn parse_rejects_a_document_that_is_no_object() {
    assert_eq!(parsed(b"\"Zm9v\""), Err(FetchError::ParseError));
    assert_eq!(parsed(b"[]"), Err(FetchError::ParseError));
    assert_eq!(parsed(b"null"), Err(FetchError::ParseError));
    assert_eq!(parsed(b"42"), Err(FetchError::ParseError));
}

#[test]
fn parse_rejects_what_is_not_json() {
    assert_eq!(parsed(b""), Err(FetchError::ParseError));
    assert_eq!(parsed(b"<html></html>"), Err(FetchError::ParseError));
    assert_eq!(
        parsed(b"{\"data\":{\"contentArray\":\"Zm9v\"}"),
        Err(FetchError::ParseError)
    );
    assert_eq!(
        parsed(b"{\"data\":{\"contentArray\":\"Zm9v\"}} trailing"),
        Err(FetchError::ParseError)
    );
    assert_eq!(
        parsed(b"{\"data\":{\"contentArray\":\"\xff\"}}"),
        Err(FetchError::ParseError)
    );
}

#[test]
fn from_value_reads_a_parsed_document() {
    let document: serde_json::Value =
        serde_json::from_str("{\"data\":{\"contentArray\":\"SGVsbG8=\"}}").unwrap();
    assert_eq!(BillEnvelope::from_value(&document), Some(envelope("SGVsbG8=")));
}

#[test]
fn from_value_finds_nothing_without_the_members() {
    let no_data: serde_json::Value = serde_json::from_str("{\"other\":1}").unwrap();
    let no_content: serde_json::Value = serde_json::from_str("{\"data\":{\"other\":1}}").unwrap();
    let no_string: serde_json::Value =
        serde_json::from_str("{\"data\":{\"contentArray\":false}}").unwrap();
    assert_eq!(BillEnvelope::from_value(&no_data), None);
    assert_eq!(BillEnvelope::from_value(&no_content), None);
    assert_eq!(BillEnvelope::from_value(&no_string), None);
    assert_eq!(BillEnvelope::from_value(&serde_json::Value::Null), None);
    assert_eq!(BillEnvelope::from_value(&serde_json::Value::String(String::from("data"))), None);
}

#[test]
fn envelope_decodes_its_content() {
    assert_eq!(envelope("SGVsbG8=").decode().map_err(|failure| failure.error), Ok(b"Hello".to_vec()));
    assert_eq!(envelope("").decode().map_err(|failure| failure.error), Ok(Vec::new()));
    assert_eq!(envelope("not-base64!").decode().map_err(|failure| failure.error), Err(FetchError::DecodeError));
}

#[test]
fn body_with_hello_gives_hello() {
    let body = reading(b"{\"data\":{\"contentArray\":\"SGVsbG8=\"}}", Some("SGVsbG8="));
    assert_eq!(outcome(&body), Ok(vec![0x48, 0x65, 0x6c, 0x6c, 0x6f]));
}

#[test]
fn body_with_bad_content_gives_decode_error() {
    let body = reading(b"{\"data\":{\"contentArray\":\"not-base64!\"}}", Some("not-base64!"));
    assert_eq!(outcome(&body), Err(FetchError::DecodeError));
}

#[test]
fn body_without_data_gives_parse_error() {
    assert_eq!(
        outcome(&reading(b"{\"status\":\"error\"}", None)),
        Err(FetchError::ParseError)
    );
    assert_eq!(
        outcome(&reading(b"{\"status\":\"error\"}", Some("SGVsbG8="))),
        Err(FetchError::ParseError)
    );
}

#[test]
fn body_that_the_strict_reading_refused_gives_parse_error() {
    let good = b"{\"data\":{\"contentArray\":\"SGVsbG8=\"}}";
    let twice = b"{\"data\":{\"contentArray\":\"Zm9v\"},\"data\":{\"contentArray\":\"SGVsbG8=\"}}";
    assert_eq!(outcome(&reading(good, None)), Err(FetchError::ParseError));
    assert_eq!(outcome(&reading(twice, None)), Err(FetchError::ParseError));
}

#[test]
fn body_whose_readings_differ_gives_parse_error() {
    let body = b"{\"data\":{\"contentArray\":\"SGVsbG8=\"}}";
    assert_eq!(outcome(&reading(body, Some("Zm9v"))), Err(FetchError::ParseError));
    assert_eq!(
        outcome(&reading(b"[[\"SGVsbG8=\"]]", Some("SGVsbG8="))),
        Err(FetchError::ParseError)
    );
}

#[test]
fn parse_keeps_the_last_of_a_member_given_twice() {
    let twice = b"{\"data\":{\"contentArray\":\"Zm9v\"},\"data\":{\"contentArray\":\"SGVsbG8=\"}}";
    assert_eq!(parsed(twice), Ok(envelope("SGVsbG8=")));
}

#[test]
fn body_with_a_pdf_header_round_trips() {
    let document = b"%PDF-1.4\n%\xe2\xe3\xcf\xd3\n1 0 obj\n<<>>\nendobj\n%%EOF\n".to_vec();
    let text = liberty_pdf_scraper::encoding::encode_standard(&document);
    let body = format!("{{\"data\":{{\"contentArray\":\"{}\"}}}}", text);
    assert_eq!(outcome(&reading(body.as_bytes(), Some(&text))), Ok(document));
}

#[test]
fn parse_failure_carries_what_the_parser_said() {
    match BillEnvelope::parse(b"<html></html>") {
        Err(failure) => {
            assert_eq!(failure.error, FetchError::ParseError);
            assert!(matches!(failure.cause, Cause::Json(_)));
        }
        Ok(envelope) => panic!("parsed to {:?}", envelope),
    }
    match BillEnvelope::parse(b"{}") {
        Err(failure) => {
            assert_eq!(failure.error, FetchError::ParseError);
            assert!(matches!(failure.cause, Cause::NotGiven));
        }
        Ok(envelope) => panic!("parsed to {:?}", envelope),
    }
}
