use wakatime_bot::text::{chars_of, push_decimal, push_left_justified, push_right_justified};

fn decimal(n: u128) -> String {
    let mut out = String::new();
    push_decimal(&mut out, n);
    out
}

#[test]
fn numbers_are_written_in_decimal() {
    assert_eq!(decimal(0), "0");
    assert_eq!(decimal(7), "7");
    assert_eq!(decimal(10), "10");
    assert_eq!(decimal(45), "45");
    assert_eq!(decimal(1_234_567_890), "1234567890");
    assert_eq!(decimal(u64::MAX as u128), "18446744073709551615");
    for n in 0u128..2_000 {
        assert_eq!(decimal(n), n.to_string());
    }
}

#[test]
fn numbers_are_appended() {
    let mut out = String::from("Week #");
    push_decimal(&mut out, 53);
    assert_eq!(out, "Week #53");
}

#[test]
fn text_moves_to_the_right_edge() {
    let mut out = String::from("|");
    push_right_justified(&mut out, "2 hrs", 16);
    assert_eq!(out, "|           2 hrs");
    let mut exact = String::new();
    push_right_justified(&mut exact, "60.00", 5);
    assert_eq!(exact, "60.00");
    let mut wide = String::new();
    push_right_justified(&mut wide, "100.00", 4);
    assert_eq!(wide, "100.00");
    let mut empty = String::new();
    push_right_justified(&mut empty, "", 3);
    assert_eq!(empty, "   ");
}

#[test]
fn text_stays_at_the_left_edge() {
    let mut out = String::from("|");
    push_left_justified(&mut out, "Rust", 10);
    assert_eq!(out, "|Rust      ");
    let mut exact = String::new();
    push_left_justified(&mut exact, "JavaScript", 10);
    assert_eq!(exact, "JavaScript");
    let mut wide = String::new();
    push_left_justified(&mut wide, "Objective-C++", 10);
    assert_eq!(wide, "Objective-C++");
    let mut accents = String::new();
    push_left_justified(&mut accents, "Çà", 4);
    assert_eq!(accents, "Çà  ");
}

#[test]
fn text_is_taken_apart_into_characters() {
    assert_eq!(chars_of(""), Vec::<char>::new());
    assert_eq!(chars_of("a░b"), vec!['a', '░', 'b']);
}
