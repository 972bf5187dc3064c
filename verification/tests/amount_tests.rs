use bills::amount::{classify_amount_reply, AmountReply};

#[test]
fn non_numeric_text_is_rejected_for_a_retry() {
    let input = Some(String::from("abc"));
    let parsed = "abc".parse::<f64>().ok().map(f64::to_bits);
    assert_eq!(parsed, None);
    assert_eq!(classify_amount_reply(&input, parsed), AmountReply::Rejected);
}

#[test]
fn decimal_text_is_accepted() {
    let input = Some(String::from("12.50"));
    let parsed = "12.50".parse::<f64>().ok().map(f64::to_bits);
    assert_eq!(classify_amount_reply(&input, parsed), AmountReply::Accepted(f64::to_bits(12.5)));
}

#[test]
fn negative_integer_text_is_accepted() {
    let input = Some(String::from("-3"));
    let parsed = "-3".parse::<f64>().ok().map(f64::to_bits);
    assert_eq!(classify_amount_reply(&input, parsed), AmountReply::Accepted(f64::to_bits(-3.0)));
}

#[test]
fn absent_reply_is_a_cancellation_not_a_parse_error() {
    let input: Option<String> = None;
    assert_eq!(classify_amount_reply(&input, None), AmountReply::Cancelled);
}

#[test]
fn empty_reply_is_a_cancellation_not_a_parse_error() {
    let input = Some(String::new());
    let parsed = "".parse::<f64>().ok().map(f64::to_bits);
    assert_eq!(parsed, None);
    assert_eq!(classify_amount_reply(&input, parsed), AmountReply::Cancelled);
}
