use dram::text::decimal_string;
use dram::water::{App, Meter, DRINK_AMOUNT, WATER_GOAL};

#[test]
fn keys_drive_the_session() {
    let mut app = App::new();
    assert_eq!(app.water_goal, WATER_GOAL);
    app.handle_key('d');
    app.handle_key('d');
    assert_eq!(app.water_amount, 2 * DRINK_AMOUNT);
    app.handle_key('x');
    assert_eq!(app.water_amount, 16);
    assert!(!app.exit);
    app.handle_key('q');
    assert!(app.exit);
}

#[test]
fn drinking_saturates() {
    let mut app = App::new();
    app.drink(u16::MAX - 3);
    app.drink(8);
    assert_eq!(app.water_amount, u16::MAX);
    app.exit();
    assert!(app.exit);
}

#[test]
fn meter_percentage() {
    assert_eq!(Meter::new(8, 128).percentage(), 6);
    assert_eq!(Meter::new(128, 128).percentage(), 100);
    assert_eq!(Meter::new(256, 128).percentage(), 200);
    assert_eq!(Meter::new(0, 0).percentage(), 0);
    assert_eq!(Meter::new(5, 0).percentage(), u16::MAX);
}

#[test]
fn meter_gauge_caps_ratio_but_not_label() {
    let g = Meter::new(256, 128).gauge();
    assert_eq!((g.num, g.den), (128, 128));
    assert_eq!(g.label, Some("200%".to_string()));
    let g = App::new().meter().gauge();
    assert_eq!((g.num, g.den), (0, 128));
    assert_eq!(g.label, Some("0%".to_string()));
}

#[test]
fn meter_gauge_uses_exact_ratio() {
    let g = Meter::new(1, 3).gauge();
    assert_eq!((g.num, g.den), (1, 3));
    assert_eq!(g.label, Some("33%".to_string()));
    assert_eq!(g.filled_rows(3), 1);
    let g = Meter::new(0, 0).gauge();
    assert_eq!(g.filled_rows(4), 0);
    let g = Meter::new(5, 0).gauge();
    assert_eq!(g.filled_rows(4), 4);
}

#[test]
fn decimal_digits() {
    assert_eq!(decimal_string(0), "0");
    assert_eq!(decimal_string(7), "7");
    assert_eq!(decimal_string(10), "10");
    assert_eq!(decimal_string(1234567890), "1234567890");
    assert_eq!(decimal_string(u64::MAX), u64::MAX.to_string());
}
