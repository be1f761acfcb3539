use tickr::attribute::{find_value, Attribute};
use tickr::error::TicketError;
use tickr::ticket::build_attributes;

fn attr(key: &str, value: &str) -> Attribute {
    Attribute { key: key.to_string(), value: value.to_string() }
}

fn pairs(attrs: &[Attribute]) -> Vec<(String, String)> {
    attrs.iter().map(|a| (a.key.clone(), a.value.clone())).collect()
}

fn pair(key: &str, value: &str) -> (String, String) {
    (key.to_string(), value.to_string())
}

#[test]
fn finds_the_value_of_a_key() {
    let attrs = vec![attr("Capacity", "20"), attr("IsTicketTransferable", "true")];
    assert_eq!(find_value(&attrs, "Capacity"), Some(&"20".to_string()));
    assert_eq!(find_value(&attrs, "IsTicketTransferable"), Some(&"true".to_string()));
}

#[test]
fn finds_nothing_for_a_missing_key() {
    let attrs = vec![attr("Capacity", "20")];
    assert_eq!(find_value(&attrs, "Venue"), None);
    assert_eq!(find_value(&attrs, "capacity"), None);
    assert_eq!(find_value(&attrs, "Capacity "), None);
    assert_eq!(find_value(&attrs, ""), None);
    assert_eq!(find_value(&Vec::new(), "Capacity"), None);
}

#[test]
fn finds_the_first_of_two_equal_keys() {
    let attrs = vec![attr("Venue", "x"), attr("Capacity", "3"), attr("Capacity", "9")];
    assert_eq!(find_value(&attrs, "Capacity"), Some(&"3".to_string()));
}

#[test]
fn finds_an_empty_value() {
    let attrs = vec![attr("Capacity", "")];
    assert_eq!(find_value(&attrs, "Capacity"), Some(&String::new()));
}

#[test]
fn builds_the_two_mandatory_attributes() {
    let attrs = build_attributes(0, 0, None, None, None).unwrap();
    assert_eq!(pairs(&attrs), vec![pair("Ticket Number", "1"), pair("Price", "0")]);
}

#[test]
fn builds_all_five_attributes_in_order() {
    let attrs = build_attributes(
        41,
        1_500_000_000,
        Some("K".to_string()),
        Some("12".to_string()),
        Some("IMAX 2".to_string()),
    )
    .unwrap();
    assert_eq!(
        pairs(&attrs),
        vec![
            pair("Ticket Number", "42"),
            pair("Price", "1500000000"),
            pair("Row", "K"),
            pair("Seat", "12"),
            pair("Screen", "IMAX 2"),
        ]
    );
}

#[test]
fn leaves_out_what_was_not_supplied() {
    let only_row = build_attributes(1, 500, Some("A".to_string()), None, None).unwrap();
    assert_eq!(
        pairs(&only_row),
        vec![pair("Ticket Number", "2"), pair("Price", "500"), pair("Row", "A")]
    );
    let only_seat = build_attributes(1, 500, None, Some("7".to_string()), None).unwrap();
    assert_eq!(
        pairs(&only_seat),
        vec![pair("Ticket Number", "2"), pair("Price", "500"), pair("Seat", "7")]
    );
    let only_screen = build_attributes(1, 500, None, None, Some("3".to_string())).unwrap();
    assert_eq!(
        pairs(&only_screen),
        vec![pair("Ticket Number", "2"), pair("Price", "500"), pair("Screen", "3")]
    );
    let row_and_screen =
        build_attributes(1, 500, Some("A".to_string()), None, Some("3".to_string())).unwrap();
    assert_eq!(
        pairs(&row_and_screen),
        vec![
            pair("Ticket Number", "2"),
            pair("Price", "500"),
            pair("Row", "A"),
            pair("Screen", "3"),
        ]
    );
    let seat_and_screen =
        build_attributes(1, 500, None, Some("7".to_string()), Some("3".to_string())).unwrap();
    assert_eq!(
        pairs(&seat_and_screen),
        vec![
            pair("Ticket Number", "2"),
            pair("Price", "500"),
            pair("Seat", "7"),
            pair("Screen", "3"),
        ]
    );
}

#[test]
fn keeps_a_supplied_empty_text() {
    let attrs = build_attributes(1, 500, Some(String::new()), None, None).unwrap();
    assert_eq!(
        pairs(&attrs),
        vec![pair("Ticket Number", "2"), pair("Price", "500"), pair("Row", "")]
    );
}

#[test]
fn numbers_the_last_ticket_the_counter_can_hold() {
    let attrs = build_attributes(u32::MAX - 1, u64::MAX, None, None, None).unwrap();
    assert_eq!(
        pairs(&attrs),
        vec![pair("Ticket Number", "4294967295"), pair("Price", "18446744073709551615")]
    );
}

#[test]
fn refuses_a_ticket_number_that_overflows() {
    let r = build_attributes(u32::MAX, 500, Some("A".to_string()), None, None);
    assert!(matches!(r, Err(TicketError::NumericalOverflow)));
}
