use defcon::decimal::{push_decimal, read_u8};
use defcon::matcher::Patterns;
use defcon::published::{parse_published_level, read_level, UNKNOWN_LEVEL};
use defcon::rate::Rate;
use defcon::report::{push_two_places, render_page, render_summary};

fn rate(reverts: u64, minutes: u64) -> Rate {
    Rate::new(reverts, minutes).expect("the window is not empty")
}

fn decimal_text(n: u128) -> String {
    let mut out = String::new();
    push_decimal(&mut out, n);
    out
}

fn two_places_text(reverts: u64, minutes: u64) -> String {
    let mut out = String::new();
    push_two_places(&mut out, rate(reverts, minutes));
    out
}

fn digits(text: &str) -> Vec<char> {
    text.chars().collect()
}

#[test]
fn numbers_are_written_in_decimal() {
    assert_eq!(decimal_text(0), "0");
    assert_eq!(decimal_text(5), "5");
    assert_eq!(decimal_text(10), "10");
    assert_eq!(decimal_text(12_345), "12345");
    assert_eq!(decimal_text(u128::MAX), u128::MAX.to_string());
    let mut out = String::from("n=");
    push_decimal(&mut out, 42);
    assert_eq!(out, "n=42");
}

#[test]
fn digits_are_read_as_a_byte() {
    assert_eq!(read_u8(&digits("0")), Some(0));
    assert_eq!(read_u8(&digits("5")), Some(5));
    assert_eq!(read_u8(&digits("255")), Some(255));
    assert_eq!(read_u8(&digits("007")), Some(7));
    assert_eq!(read_u8(&digits("0000000000000000000000255")), Some(255));
}

#[test]
fn text_that_is_no_byte_is_refused() {
    assert_eq!(read_u8(&digits("")), None);
    assert_eq!(read_u8(&digits("256")), None);
    assert_eq!(read_u8(&digits("1000")), None);
    assert_eq!(read_u8(&digits("99999999999999999999999999")), None);
    assert_eq!(read_u8(&digits("12a")), None);
    assert_eq!(read_u8(&digits("a12")), None);
    assert_eq!(read_u8(&digits("+5")), None);
    assert_eq!(read_u8(&digits("-5")), None);
    assert_eq!(read_u8(&digits(" 5")), None);
    assert_eq!(read_u8(&digits("٣")), None);
    assert_eq!(read_u8(&digits("300x")), None);
}

#[test]
fn written_numbers_read_back() {
    for n in 0u8..=255 {
        assert_eq!(read_u8(&digits(&decimal_text(n as u128))), Some(n));
    }
}

#[test]
fn published_level_is_found() {
    let p = Patterns::new().unwrap();
    assert_eq!(parse_published_level(&p, "| level = 4"), Some(4));
    assert_eq!(parse_published_level(&p, "level=12"), Some(12));
    assert_eq!(parse_published_level(&p, "x level   =\n\t 3 y"), Some(3));
    assert_eq!(parse_published_level(&p, "level = 255"), Some(255));
    assert_eq!(parse_published_level(&p, "level = 0"), Some(0));
    assert_eq!(parse_published_level(&p, "level = 5abc"), Some(5));
}

#[test]
fn first_stated_level_counts() {
    let p = Patterns::new().unwrap();
    assert_eq!(parse_published_level(&p, "level = 2 and level = 5"), Some(2));
    assert_eq!(parse_published_level(&p, "level = x, level = 3"), Some(3));
}

#[test]
fn page_without_level_gives_unknown_level() {
    let p = Patterns::new().unwrap();
    assert_eq!(UNKNOWN_LEVEL, 0);
    assert_eq!(parse_published_level(&p, ""), Some(0));
    assert_eq!(parse_published_level(&p, "nothing to see"), Some(0));
    assert_eq!(parse_published_level(&p, "Level = 3"), Some(0));
    assert_eq!(parse_published_level(&p, "level = "), Some(0));
    assert_eq!(parse_published_level(&p, "level : 3"), Some(0));
    assert_eq!(read_level(None), Some(0));
}

#[test]
fn level_that_is_no_byte_is_unreadable() {
    let p = Patterns::new().unwrap();
    assert_eq!(parse_published_level(&p, "level = 256"), None);
    assert_eq!(parse_published_level(&p, "level = 99999999999999999999"), None);
    assert_eq!(parse_published_level(&p, "level = ٣"), None);
    assert_eq!(read_level(Some("300")), None);
    assert_eq!(read_level(Some("")), None);
    assert_eq!(read_level(Some("3")), Some(3));
}

#[test]
fn rate_is_written_with_two_places() {
    assert_eq!(two_places_text(0, 60), "0.00");
    assert_eq!(two_places_text(1, 60), "0.02");
    assert_eq!(two_places_text(3, 60), "0.05");
    assert_eq!(two_places_text(30, 60), "0.50");
    assert_eq!(two_places_text(59, 60), "0.98");
    assert_eq!(two_places_text(60, 60), "1.00");
    assert_eq!(two_places_text(121, 60), "2.02");
    assert_eq!(two_places_text(599, 60), "9.98");
    assert_eq!(two_places_text(7407, 60), "123.45");
    assert_eq!(two_places_text(2, 3), "0.67");
    assert_eq!(two_places_text(999, 1000), "1.00");
    assert_eq!(two_places_text(u64::MAX, 1), format!("{}.00", u64::MAX));
}

#[test]
fn rate_half_way_goes_to_the_even_hundredth() {
    assert_eq!(two_places_text(1, 8), "0.12");
    assert_eq!(two_places_text(3, 8), "0.38");
    assert_eq!(two_places_text(1, 200), "0.00");
    assert_eq!(two_places_text(3, 200), "0.02");
    assert_eq!(two_places_text(1, 8), format!("{:.2}", 0.125f32));
    assert_eq!(two_places_text(3, 8), format!("{:.2}", 0.375f32));
}

#[test]
fn rate_text_agrees_with_floating_point_formatting() {
    for reverts in 0u64..5000 {
        let rpm = reverts as f32 / 60.0f32;
        assert_eq!(two_places_text(reverts, 60), format!("{:.2}", rpm), "{}", reverts);
    }
}

#[test]
fn page_text_is_the_template_filled_in() {
    let text = render_page(4, rate(150, 60));
    assert_eq!(
        text,
        "{{#switch: {{{1}}}\n              | level = 4\n              | sign = ~~~~~\n              | info = 2.50 RPM according to [[User:DeadbeefBot|DeadbeefBot]]\n            }}"
    );
    let level = 4u8;
    let rpm = 150f32 / 60f32;
    let expected = format!(
        "{{{{#switch: {{{{{{1}}}}}}
              | level = {}
              | sign = ~~~~~
              | info = {:.2} RPM according to [[User:DeadbeefBot|DeadbeefBot]]
            }}}}",
        level, rpm
    );
    assert_eq!(text, expected);
}

#[test]
fn summary_text_names_level_and_rate() {
    let summary = render_summary(1, rate(500, 60));
    assert_eq!(
        summary,
        "[[Wikipedia:Bots/Requests for approval/DeadbeefBot 4|Bot]] updating vandalism level to level 1 (8.33 RPM) #DEFCON1"
    );
    let level = 1u8;
    let rpm = 500f32 / 60f32;
    let expected = format!("[[Wikipedia:Bots/Requests for approval/DeadbeefBot 4|Bot]] updating vandalism level to level {0} ({1:.2} RPM) #DEFCON{0}", level, rpm);
    assert_eq!(summary, expected);
}

#[test]
fn written_page_states_its_level() {
    let p = Patterns::new().unwrap();
    for level in 0u8..=255 {
        for reverts in [0u64, 1, 120, 121, 481, 12_345] {
            let text = render_page(level, Rate::over_interval(reverts));
            assert_eq!(parse_published_level(&p, &text), Some(level));
        }
    }
}
