//! The layout of the display: which text goes where, in which font and ink.
//!
//! `Screen::update` composes a [`Frame`]; drawing it on the panel is left to
//! the caller.

use crate::bme680_device::Bme680Data;
use crate::pms7003_device::PmSensorData;
use crate::text::{
    byte_len, decimal, lemma_byte_len_single_bytes, lemma_decimal_shape, line_new, line_push_str,
    line_text, numbered_line, utf8_width, LINE_CAPACITY,
};
use embedded_graphics::geometry::Point;
use il0373::Color;
use vstd::prelude::*;

verus! {

/// `il0373::Color`: the inks of the panel.
#[verifier::external_type_specification]
pub struct ExColor(Color);

/// `embedded_graphics::geometry::Point`: a position in pixels.
#[verifier::external_type_specification]
pub struct ExPoint(Point);

/// `Point::new` makes the point with the given coordinates.
pub assume_specification[ Point::new ](x: i32, y: i32) -> (p: Point)
    ensures
        p.x == x,
        p.y == y,
;

/// The three sizes of type on the display.
#[derive(Debug, Clone, Copy, PartialEq, Eq, Structural)]
pub enum Font {
    /// 10 point, for the readings.
    Small,
    /// 12 point, for the title.
    Medium,
    /// 24 point, for the two large numerals.
    Large,
}

/// One piece of text on the display.
#[derive(Debug)]
pub struct TextField {
    pub text: heapless::String<32>,
    /// Where the baseline of the text starts.
    pub position: Point,
    pub font: Font,
    pub ink: Color,
}

impl TextField {
    /// True when the field shows `text` at `(x, y)` in the given font and ink.
    pub open spec fn shows(&self, text: Seq<char>, x: int, y: int, font: Font, ink: Color) -> bool {
        &&& line_text(self.text) == text
        &&& self.position.x == x
        &&& self.position.y == y
        &&& self.font == font
        &&& self.ink == ink
    }
}

/// Everything that one refresh of the display shows.
#[derive(Debug)]
pub struct Frame {
    pub title: TextField,
    pub humidity: TextField,
    pub pressure: TextField,
    pub gas: TextField,
    pub particulate: TextField,
    pub particulate_caption: TextField,
    pub temperature: TextField,
}

/// The number of character cells reserved for the particulate numeral: one per
/// digit up to four.
pub open spec fn numeral_width(value: u16) -> int {
    if value < 10 {
        1
    } else if value < 100 {
        2
    } else if value < 1000 {
        3
    } else {
        4
    }
}

/// Up to four digits, the particulate numeral gets one cell per digit.
pub proof fn lemma_numeral_width_counts_digits(value: u16)
    requires
        value < 10000,
    ensures
        numeral_width(value) == decimal(value as nat).len(),
{
    lemma_decimal_shape(value as nat);
}

/// The humidity line: whole percent.
pub open spec fn humidity_text(data: Bme680Data) -> Seq<char> {
    "Humidity: "@ + decimal((data.humidity / 1000) as nat) + "%"@
}

/// The pressure line: whole hectopascals.
pub open spec fn pressure_text(data: Bme680Data) -> Seq<char> {
    "Pressure: "@ + decimal((data.pressure / 100) as nat) + "hPa"@
}

/// True when the gas resistance of `data` is worth showing.
pub open spec fn gas_usable(data: Bme680Data) -> bool {
    data.gas_valid && data.heat_stable
}

/// The gas line: the resistance, or a note that there is none to show.
pub open spec fn gas_text(data: Bme680Data) -> Seq<char> {
    if gas_usable(data) {
        "Gas: "@ + decimal(data.gas_resistance as nat) + "ohms"@
    } else {
        "Gas invalid"@
    }
}

/// The temperature numeral: whole degrees, rounded toward zero, with a minus
/// sign for every reading below zero.
pub open spec fn temperature_text(data: Bme680Data) -> Seq<char> {
    if data.temperature < 0 {
        "-"@ + decimal(((-data.temperature) / 100) as nat) + "\u{b0}C"@
    } else {
        ""@ + decimal((data.temperature / 100) as nat) + "\u{b0}C"@
    }
}

/// The geometry and the power state of the display.
#[derive(Debug, Clone, Copy)]
pub struct Screen {
    pub display_width: u16,
    pub display_height: u16,
    pub margin: u16,
    /// Whether the panel is powered.
    pub powered: bool,
}

proof fn lemma_literal_sizes()
    ensures
        byte_len("Humidity: "@) == 10,
        byte_len("%"@) == 1,
        byte_len("Pressure: "@) == 10,
        byte_len("hPa"@) == 3,
        byte_len("Gas: "@) == 5,
        byte_len("ohms"@) == 4,
        byte_len("Gas invalid"@) == 11,
        byte_len("Atmo Monitor v0.1.0"@) == 19,
        byte_len("PM2.5"@) == 5,
        byte_len(""@) == 0,
        byte_len("-"@) == 1,
        byte_len("\u{b0}C"@) == 3,
{
    reveal_strlit("Humidity: ");
    reveal_strlit("%");
    reveal_strlit("Pressure: ");
    reveal_strlit("hPa");
    reveal_strlit("Gas: ");
    reveal_strlit("ohms");
    reveal_strlit("Gas invalid");
    reveal_strlit("Atmo Monitor v0.1.0");
    reveal_strlit("PM2.5");
    reveal_strlit("");
    reveal_strlit("-");
    reveal_strlit("\u{b0}C");
    lemma_byte_len_single_bytes("Humidity: "@);
    lemma_byte_len_single_bytes("%"@);
    lemma_byte_len_single_bytes("Pressure: "@);
    lemma_byte_len_single_bytes("hPa"@);
    lemma_byte_len_single_bytes("Gas: "@);
    lemma_byte_len_single_bytes("ohms"@);
    lemma_byte_len_single_bytes("Gas invalid"@);
    lemma_byte_len_single_bytes("Atmo Monitor v0.1.0"@);
    lemma_byte_len_single_bytes("PM2.5"@);
    lemma_byte_len_single_bytes("-"@);
    let degree = "\u{b0}C"@;
    assert(byte_len(degree.drop_last()) == byte_len(degree.drop_last().drop_last()) + utf8_width(
        degree.drop_last().last(),
    ));
}

/// A line that holds `text` and nothing else.
fn plain_line(text: &str) -> (line: heapless::String<32>)
    requires
        byte_len(text@) <= LINE_CAPACITY,
    ensures
        line_text(line) == text@,
{
    let mut line = line_new();
    let _ = line_push_str(&mut line, text);
    line
}

impl Screen {
    /// True when the numeral of `pm` and its caption have room on the display.
    pub open spec fn fits(&self, pm: PmSensorData) -> bool {
        &&& self.margin + 10 + 18 * numeral_width(pm.pm2_5_atm) <= self.display_height
        &&& self.margin + 10 + 28 <= self.display_width
    }

    /// The column at which the particulate numeral of `pm` starts.
    pub open spec fn numeral_x(&self, pm: PmSensorData) -> int {
        self.display_height - self.margin - 10 - 18 * numeral_width(pm.pm2_5_atm)
    }

    /// The baseline of the two large numerals.
    pub open spec fn numeral_y(&self) -> int {
        self.display_width - self.margin - 10
    }

    /// A display of the given size and margin, not powered.
    pub fn new(display_width: u16, display_height: u16, margin: u16) -> (screen: Screen)
        ensures
            screen.display_width == display_width,
            screen.display_height == display_height,
            screen.margin == margin,
            !screen.powered,
    {
        Screen { display_width, display_height, margin, powered: false }
    }

    /// Turns the display off.
    pub fn power_off(&mut self)
        ensures
            !final(self).powered,
            final(self).display_width == old(self).display_width,
            final(self).display_height == old(self).display_height,
            final(self).margin == old(self).margin,
    {
        self.powered = false;
    }

    /// Turns the display on.
    pub fn power_on(&mut self)
        ensures
            final(self).powered,
            final(self).display_width == old(self).display_width,
            final(self).display_height == old(self).display_height,
            final(self).margin == old(self).margin,
    {
        self.powered = true;
    }

    /// Whether `update` can lay out the numeral of `pm` on this display.
    pub fn can_show(&self, pm: &PmSensorData) -> (ok: bool)
        ensures
            ok == self.fits(*pm),
    {
        let cells: u32 = if pm.pm2_5_atm < 10 {
            1
        } else if pm.pm2_5_atm < 100 {
            2
        } else if pm.pm2_5_atm < 1000 {
            3
        } else {
            4
        };
        self.margin as u32 + 10 + 18 * cells <= self.display_height as u32 && self.margin as u32
            + 38 <= self.display_width as u32
    }

    /// Lays out one refresh: the title, the humidity, pressure and gas lines
    /// down the left edge, the particulate numeral with its caption at the
    /// right, and the temperature numeral at the lower left.
    pub fn update(&self, sensor_data: &Bme680Data, sensor_pmdata: &PmSensorData) -> (frame: Frame)
        requires
            self.fits(*sensor_pmdata),
        ensures
            frame.title.shows(
                "Atmo Monitor v0.1.0"@,
                self.margin + 30,
                self.margin + 10,
                Font::Medium,
                Color::Red,
            ),
            frame.humidity.shows(
                humidity_text(*sensor_data),
                self.margin as int,
                self.margin + 24,
                Font::Small,
                Color::Black,
            ),
            frame.pressure.shows(
                pressure_text(*sensor_data),
                self.margin as int,
                self.margin + 38,
                Font::Small,
                Color::Black,
            ),
            frame.gas.shows(
                gas_text(*sensor_data),
                self.margin as int,
                self.margin + 52,
                Font::Small,
                if gas_usable(*sensor_data) {
                    Color::Black
                } else {
                    Color::Red
                },
            ),
            frame.particulate.shows(
                decimal(sensor_pmdata.pm2_5_atm as nat),
                self.numeral_x(*sensor_pmdata),
                self.numeral_y(),
                Font::Large,
                Color::Black,
            ),
            frame.particulate_caption.shows(
                "PM2.5"@,
                self.numeral_x(*sensor_pmdata),
                self.numeral_y() - 28,
                Font::Small,
                Color::Black,
            ),
            frame.temperature.shows(
                temperature_text(*sensor_data),
                self.margin + 10,
                self.numeral_y(),
                Font::Large,
                Color::Black,
            ),
    {
        proof {
            lemma_literal_sizes();
        }
        let x_start: i32 = self.margin as i32;
        let y_start: i32 = self.margin as i32 + 10;

        let title = TextField {
            text: plain_line("Atmo Monitor v0.1.0"),
            position: Point::new(x_start + 30, y_start),
            font: Font::Medium,
            ink: Color::Red,
        };
        let humidity = TextField {
            text: numbered_line("Humidity: ", sensor_data.humidity / 1000, "%"),
            position: Point::new(x_start, y_start + 14),
            font: Font::Small,
            ink: Color::Black,
        };
        let pressure = TextField {
            text: numbered_line("Pressure: ", sensor_data.pressure / 100, "hPa"),
            position: Point::new(x_start, y_start + 14 + 14),
            font: Font::Small,
            ink: Color::Black,
        };
        let gas = if sensor_data.gas_valid && sensor_data.heat_stable {
            TextField {
                text: numbered_line("Gas: ", sensor_data.gas_resistance, "ohms"),
                position: Point::new(x_start, y_start + 14 + 14 + 14),
                font: Font::Small,
                ink: Color::Black,
            }
        } else {
            TextField {
                text: plain_line("Gas invalid"),
                position: Point::new(x_start, y_start + 14 + 14 + 14),
                font: Font::Small,
                ink: Color::Red,
            }
        };

        let mut x: u16 = self.display_height - self.margin - 10;
        let y: u16 = self.display_width - self.margin - 10;
        let char_width: u16 = if sensor_pmdata.pm2_5_atm < 10 {
            1
        } else if sensor_pmdata.pm2_5_atm < 100 {
            2
        } else if sensor_pmdata.pm2_5_atm < 1000 {
            3
        } else {
            4
        };
        x = x - 18 * char_width;
        proof {
            assert("" @ + decimal(sensor_pmdata.pm2_5_atm as nat) + "" @ =~= decimal(
                sensor_pmdata.pm2_5_atm as nat,
            )) by {
                reveal_strlit("");
            }
        }
        let particulate = TextField {
            text: numbered_line("", sensor_pmdata.pm2_5_atm as u32, ""),
            position: Point::new(x as i32, y as i32),
            font: Font::Large,
            ink: Color::Black,
        };
        let particulate_caption = TextField {
            text: plain_line("PM2.5"),
            position: Point::new(x as i32, (y - 28) as i32),
            font: Font::Small,
            ink: Color::Black,
        };

        let degrees: i64 = sensor_data.temperature as i64;
        let temperature_line = if degrees < 0 {
            numbered_line("-", ((0 - degrees) / 100) as u32, "\u{b0}C")
        } else {
            numbered_line("", (degrees / 100) as u32, "\u{b0}C")
        };
        let temperature = TextField {
            text: temperature_line,
            position: Point::new(x_start + 10, y as i32),
            font: Font::Large,
            ink: Color::Black,
        };

        Frame { title, humidity, pressure, gas, particulate, particulate_caption, temperature }
    }
}

} // verus!
