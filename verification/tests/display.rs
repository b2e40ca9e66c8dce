use atmo_monitor::bme680_device::Bme680Data;
use atmo_monitor::parameter::Parameters;
use atmo_monitor::pms7003_device::PmSensorData;
use atmo_monitor::screen::{Font, Frame, Screen, TextField};
use atmo_monitor::text::{numbered_line, LINE_CAPACITY};
use embedded_graphics::geometry::Point;
use il0373::Color;

fn env() -> Bme680Data {
    Bme680Data {
        temperature: 2150,
        humidity: 45_300,
        pressure: 101_325,
        gas_resistance: 12_000,
        gas_valid: true,
        heat_stable: true,
    }
}

fn pm(pm2_5_atm: u16) -> PmSensorData {
    PmSensorData { pm1_0: 1, pm2_5: 2, pm10: 3, pm1_0_atm: 4, pm2_5_atm, pm10_atm: 6 }
}

/// The panel of the monitor: 104 columns, 212 rows, margin 5, turned by 90°.
fn panel() -> Screen {
    let p = Parameters::new(104, 212);
    Screen::new(p.screen_columns, p.screen_rows, p.screen_margin)
}

fn check(field: &TextField, text: &str, x: i32, y: i32, font: Font, ink: Color) {
    assert_eq!(field.text.as_str(), text);
    assert_eq!(field.position, Point::new(x, y));
    assert_eq!(field.font, font);
    assert_eq!(field.ink, ink);
}

fn frame_for(env: &Bme680Data, pm: &PmSensorData) -> Frame {
    let screen = panel();
    assert!(screen.can_show(pm));
    screen.update(env, pm)
}

#[test]
fn line_capacity_is_thirty_two() {
    assert_eq!(LINE_CAPACITY, 32);
}

#[test]
fn numbered_line_joins_its_parts() {
    assert_eq!(numbered_line("a", 0, "b").as_str(), "a0b");
    assert_eq!(numbered_line("", 7, "").as_str(), "7");
    assert_eq!(numbered_line("n=", 4_294_967_295, "!").as_str(), "n=4294967295!");
    assert_eq!(numbered_line("x", 1000, "").as_str(), "x1000");
    // 11 + 10 + 11 bytes fill the line to its end
    let line = numbered_line("0123456789a", 1_234_567_890, "0123456789b");
    assert_eq!(line.as_str(), "0123456789a12345678900123456789b");
    assert_eq!(line.as_str().len(), 32);
}

#[test]
fn screen_starts_powered_off() {
    let mut screen = Screen::new(104, 212, 5);
    assert_eq!(screen.display_width, 104);
    assert_eq!(screen.display_height, 212);
    assert_eq!(screen.margin, 5);
    assert!(!screen.powered);
    screen.power_on();
    assert!(screen.powered);
    screen.power_on();
    assert!(screen.powered);
    screen.power_off();
    assert!(!screen.powered);
    assert_eq!(screen.display_width, 104);
    assert_eq!(screen.display_height, 212);
    assert_eq!(screen.margin, 5);
}

#[test]
fn frame_of_a_usual_reading() {
    let frame = frame_for(&env(), &pm(42));
    check(&frame.title, "Atmo Monitor v0.1.0", 35, 15, Font::Medium, Color::Red);
    check(&frame.humidity, "Humidity: 45%", 5, 29, Font::Small, Color::Black);
    check(&frame.pressure, "Pressure: 1013hPa", 5, 43, Font::Small, Color::Black);
    check(&frame.gas, "Gas: 12000ohms", 5, 57, Font::Small, Color::Black);
    check(&frame.particulate, "42", 161, 89, Font::Large, Color::Black);
    check(&frame.particulate_caption, "PM2.5", 161, 61, Font::Small, Color::Black);
    check(&frame.temperature, "21\u{b0}C", 15, 89, Font::Large, Color::Black);
}

#[test]
fn numeral_moves_left_with_each_digit() {
    for (value, text, x) in [
        (0u16, "0", 179),
        (9, "9", 179),
        (10, "10", 161),
        (99, "99", 161),
        (100, "100", 143),
        (999, "999", 143),
        (1000, "1000", 125),
        (9999, "9999", 125),
        // a fifth digit gets no cell of its own
        (10000, "10000", 125),
        (65535, "65535", 125),
    ] {
        let frame = frame_for(&env(), &pm(value));
        check(&frame.particulate, text, x, 89, Font::Large, Color::Black);
        check(&frame.particulate_caption, "PM2.5", x, 61, Font::Small, Color::Black);
    }
}

#[test]
fn gas_line_needs_a_valid_and_stable_reading() {
    for (valid, stable) in [(false, false), (false, true), (true, false)] {
        let data = Bme680Data { gas_valid: valid, heat_stable: stable, ..env() };
        let frame = frame_for(&data, &pm(1));
        check(&frame.gas, "Gas invalid", 5, 57, Font::Small, Color::Red);
    }
    let data = Bme680Data { gas_resistance: 0, ..env() };
    check(&frame_for(&data, &pm(1)).gas, "Gas: 0ohms", 5, 57, Font::Small, Color::Black);
    let data = Bme680Data { gas_resistance: u32::MAX, ..env() };
    check(&frame_for(&data, &pm(1)).gas, "Gas: 4294967295ohms", 5, 57, Font::Small, Color::Black);
}

#[test]
fn readings_are_cut_to_whole_units() {
    let data = Bme680Data { humidity: 999, pressure: 99, temperature: 99, ..env() };
    let frame = frame_for(&data, &pm(1));
    assert_eq!(frame.humidity.text.as_str(), "Humidity: 0%");
    assert_eq!(frame.pressure.text.as_str(), "Pressure: 0hPa");
    assert_eq!(frame.temperature.text.as_str(), "0\u{b0}C");
    let data = Bme680Data { humidity: 100_000, pressure: 110_099, temperature: 8599, ..env() };
    let frame = frame_for(&data, &pm(1));
    assert_eq!(frame.humidity.text.as_str(), "Humidity: 100%");
    assert_eq!(frame.pressure.text.as_str(), "Pressure: 1100hPa");
    assert_eq!(frame.temperature.text.as_str(), "85\u{b0}C");
    let data = Bme680Data { humidity: u32::MAX, pressure: u32::MAX, ..env() };
    let frame = frame_for(&data, &pm(1));
    assert_eq!(frame.humidity.text.as_str(), "Humidity: 4294967%");
    assert_eq!(frame.pressure.text.as_str(), "Pressure: 42949672hPa");
}

#[test]
fn temperatures_below_zero_keep_their_sign() {
    for (raw, text) in [
        (-1, "-0\u{b0}C"),
        (-99, "-0\u{b0}C"),
        (-100, "-1\u{b0}C"),
        (-1234, "-12\u{b0}C"),
        (-4000, "-40\u{b0}C"),
        (i32::MIN, "-21474836\u{b0}C"),
        (0, "0\u{b0}C"),
        (i32::MAX, "21474836\u{b0}C"),
    ] {
        let data = Bme680Data { temperature: raw, ..env() };
        let frame = frame_for(&data, &pm(1));
        check(&frame.temperature, text, 15, 89, Font::Large, Color::Black);
    }
}

#[test]
fn layout_follows_the_margin() {
    let screen = Screen::new(200, 300, 20);
    let frame = screen.update(&env(), &pm(7));
    assert_eq!(frame.title.position, Point::new(50, 30));
    assert_eq!(frame.humidity.position, Point::new(20, 44));
    assert_eq!(frame.pressure.position, Point::new(20, 58));
    assert_eq!(frame.gas.position, Point::new(20, 72));
    assert_eq!(frame.particulate.position, Point::new(252, 170));
    assert_eq!(frame.particulate_caption.position, Point::new(252, 142));
    assert_eq!(frame.temperature.position, Point::new(30, 170));
}

#[test]
fn can_show_is_exact_at_the_edges() {
    // one cell: margin + 10 + 18 rows, margin + 38 columns
    let tight = Screen::new(43, 33, 5);
    assert!(tight.can_show(&pm(9)));
    assert!(!tight.can_show(&pm(10)));
    let frame = tight.update(&env(), &pm(9));
    assert_eq!(frame.particulate.position, Point::new(0, 28));
    assert_eq!(frame.particulate_caption.position, Point::new(0, 0));
    assert!(!Screen::new(42, 33, 5).can_show(&pm(9)));
    assert!(!Screen::new(43, 32, 5).can_show(&pm(9)));
    // four cells
    assert!(Screen::new(43, 87, 5).can_show(&pm(65535)));
    assert!(!Screen::new(43, 86, 5).can_show(&pm(1000)));
    assert!(Screen::new(43, 86, 5).can_show(&pm(999)));
    // no overflow at the largest margin
    assert!(!Screen::new(65535, 65535, 65535).can_show(&pm(1)));
    assert!(Screen::new(65535, 65535, 65497).can_show(&pm(1)));
    assert!(!Screen::new(65535, 65535, 65498).can_show(&pm(1)));
}
