use feed_sampler::decode::{
    accept_number, classify_lookup, decode, lookup_field, price_text, DecodeError, FieldLookup,
};

fn read_number(text: String) -> Option<f64> {
    text.parse::<f64>().ok()
}

#[test]
fn price_text_of_a_trade_message() {
    let message = "{\"e\":\"trade\",\"E\":1700000000000,\"s\":\"BTCUSDT\",\"t\":12345,\"p\":\"60000.12000000\",\"q\":\"0.00100000\",\"m\":true}";
    assert_eq!(price_text(message), Ok(String::from("60000.12000000")));
}

#[test]
fn message_without_price_member_is_missing_field() {
    assert_eq!(
        price_text("{\"e\":\"trade\",\"q\":\"0.001\"}"),
        Err(DecodeError::MissingField)
    );
    assert_eq!(price_text("{}"), Err(DecodeError::MissingField));
}

#[test]
fn message_that_is_no_object_is_missing_field() {
    assert_eq!(price_text("[\"p\", \"1.0\"]"), Err(DecodeError::MissingField));
    assert_eq!(price_text("\"p\""), Err(DecodeError::MissingField));
    assert_eq!(price_text("17"), Err(DecodeError::MissingField));
}

#[test]
fn unreadable_message_is_missing_field() {
    assert_eq!(price_text("{\"p\": \"1.0\""), Err(DecodeError::MissingField));
    assert_eq!(price_text(""), Err(DecodeError::MissingField));
    assert_eq!(price_text("p=1.0"), Err(DecodeError::MissingField));
}

#[test]
fn price_member_that_is_no_string_is_parse_error() {
    assert_eq!(price_text("{\"p\": 60000.5}"), Err(DecodeError::ParseError));
    assert_eq!(price_text("{\"p\": null}"), Err(DecodeError::ParseError));
    assert_eq!(price_text("{\"p\": [\"1\"]}"), Err(DecodeError::ParseError));
}

#[test]
fn price_text_is_unescaped_member_text() {
    assert_eq!(price_text("{\"p\":\"1\\u0032.5\"}"), Ok(String::from("12.5")));
    assert_eq!(price_text("{\"p\":\"\"}"), Ok(String::new()));
}

#[test]
fn lookup_tells_the_four_cases_apart() {
    assert_eq!(lookup_field("not json", "p"), FieldLookup::Malformed);
    assert_eq!(lookup_field("{\"q\":\"1\"}", "p"), FieldLookup::Absent);
    assert_eq!(lookup_field("{\"p\":true}", "p"), FieldLookup::NotText);
    assert_eq!(
        lookup_field("{\"p\":\"9.75\",\"q\":\"1\"}", "p"),
        FieldLookup::Text(String::from("9.75"))
    );
    assert_eq!(
        lookup_field("{\"p\":\"9.75\",\"q\":\"1\"}", "q"),
        FieldLookup::Text(String::from("1"))
    );
}

#[test]
fn classify_lookup_gives_each_error() {
    assert_eq!(classify_lookup(FieldLookup::Malformed), Err(DecodeError::MissingField));
    assert_eq!(classify_lookup(FieldLookup::Absent), Err(DecodeError::MissingField));
    assert_eq!(classify_lookup(FieldLookup::NotText), Err(DecodeError::ParseError));
    assert_eq!(
        classify_lookup(FieldLookup::Text(String::from("60010.0"))),
        Ok(String::from("60010.0"))
    );
}

#[test]
fn text_that_spells_no_number_is_parse_error() {
    let text = price_text("{\"p\":\"sixty\"}").unwrap();
    assert_eq!(accept_number(text.parse::<f64>().ok()), Err(DecodeError::ParseError));
    let text = price_text("{\"p\":\"60000.5\"}").unwrap();
    assert_eq!(accept_number(text.parse::<f64>().ok()), Ok(60000.5));
}

#[test]
fn decode_gives_the_price_or_the_error() {
    assert_eq!(decode("{\"p\":\"60000.5\",\"q\":\"2\"}", read_number), Ok(60000.5));
    assert_eq!(decode("{\"p\":\"1e3\"}", read_number), Ok(1000.0));
    assert_eq!(decode("{\"q\":\"2\"}", read_number), Err(DecodeError::MissingField));
    assert_eq!(decode("{\"p\":\"\"}", read_number), Err(DecodeError::ParseError));
    assert_eq!(decode("{\"p\":\"12,5\"}", read_number), Err(DecodeError::ParseError));
    assert_eq!(decode("{\"p\":12.5}", read_number), Err(DecodeError::ParseError));
    assert_eq!(decode("{\"p\":", read_number), Err(DecodeError::MissingField));
}

#[test]
fn decode_reads_no_number_without_a_price_text() {
    let decoded: Result<f64, DecodeError> =
        decode("{\"q\":\"2\"}", |_text: String| panic!("there is no price text to read"));
    assert_eq!(decoded, Err(DecodeError::MissingField));
}
