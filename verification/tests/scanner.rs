use uritemplates::parsing::{ComponentScanner, ComponentType, Error};

#[test]
fn test_simple() {
    let s = "hi{hello}hey{?yeah,okay}";
    let mut p = ComponentScanner::new(s.as_bytes());

    let c = p.next_component().unwrap().unwrap();
    assert_eq!(c, (ComponentType::Literal, 0..2));
    assert_eq!(&s[c.1], "hi");
    let c = p.next_component().unwrap().unwrap();
    assert_eq!(c, (ComponentType::Variable, 3..8));
    assert_eq!(&s[c.1], "hello");
    let c = p.next_component().unwrap().unwrap();
    assert_eq!(c, (ComponentType::Literal, 9..12));
    assert_eq!(&s[c.1], "hey");
    let c = p.next_component().unwrap().unwrap();
    assert_eq!(c, (ComponentType::Variable, 13..23));
    assert_eq!(&s[c.1], "?yeah,okay");
    let c = p.next_component().unwrap();
    assert_eq!(c, None);
}

#[test]
fn test_scan_single_literal() {
    let s = "plain text";
    let mut p = ComponentScanner::new(s.as_bytes());
    let c = p.next_component().unwrap().unwrap();
    assert_eq!(c, (ComponentType::Literal, 0..10));
    assert_eq!(&s[c.1], "plain text");
    let c = p.next_component().unwrap();
    assert_eq!(c, None);
}

#[test]
fn test_scan_leading_expression() {
    let s = "{var}tail";
    let mut p = ComponentScanner::new(s.as_bytes());
    let c = p.next_component().unwrap().unwrap();
    assert_eq!(c, (ComponentType::Variable, 1..4));
    assert_eq!(&s[c.1], "var");
    let c = p.next_component().unwrap().unwrap();
    assert_eq!(c, (ComponentType::Literal, 5..9));
    assert_eq!(&s[c.1], "tail");
    let c = p.next_component().unwrap();
    assert_eq!(c, None);
}

#[test]
fn test_scan_unterminated_expression() {
    let s = "abc{def";
    let mut p = ComponentScanner::new(s.as_bytes());
    let c = p.next_component().unwrap().unwrap();
    assert_eq!(c, (ComponentType::Literal, 0..3));
    let e = p.next_component();
    assert!(matches!(e, Err(Error::UnexpectedEndOfData)));
}

#[test]
fn test_scan_empty_input() {
    let s = "";
    let mut p = ComponentScanner::new(s.as_bytes());
    let c = p.next_component().unwrap();
    assert_eq!(c, None);
}
