use weather_tui::text::str_eq;
use weather_tui::util::millis_until_next_second;

#[test]
fn wait_is_the_rest_of_the_second() {
    assert_eq!(millis_until_next_second(0), 1000);
    assert_eq!(millis_until_next_second(1), 999);
    assert_eq!(millis_until_next_second(999), 1);
    assert_eq!(millis_until_next_second(1000), 1000);
    assert_eq!(millis_until_next_second(12345), 655);
    assert_eq!(millis_until_next_second(1_700_000_000_250), 750);
    // u128::MAX ends in ...455.
    assert_eq!(millis_until_next_second(u128::MAX), 545);
}

#[test]
fn str_eq_compares_characters() {
    assert!(str_eq("", ""));
    assert!(str_eq("left", "left"));
    assert!(!str_eq("left", "lefT"));
    assert!(!str_eq("left", "lef"));
    assert!(!str_eq("lef", "left"));
    assert!(str_eq("schön", "schön"));
    assert!(!str_eq("schön", "schon"));
    assert!(!str_eq("a", "b"));
}
