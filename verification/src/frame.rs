//! The visible state of the panel for one cycle.
//!
//! A frame is entirely derived from one reading: a background color given by
//! the reading's severity bucket, and four text lines at fixed positions —
//! the concentration, the severity label, the temperature and the pressure.

use vstd::prelude::*;

use crate::color::Color;
use crate::reading::Reading;
use crate::severity::classify_spec;
use crate::severity::classify;
use crate::severity::color_for_spec;
use crate::severity::label_spec;
use crate::textfmt::fixed1_str;
use crate::textfmt::fixed2_str;
use crate::textfmt::push_fixed1;
use crate::textfmt::push_fixed2;
use crate::textfmt::push_i32_dec;
use crate::textfmt::signed_dec_str;
use vstd::string::StringExecFns;

verus! {

/// Left edge shared by all four text lines, in pixels.
pub const TEXT_LEFT_X: i32 = 20;

/// Baseline of the concentration line.
pub const CO2_LINE_Y: i32 = 30;

/// Baseline of the severity-label line.
pub const LABEL_LINE_Y: i32 = 55;

/// Baseline of the temperature line.
pub const TEMPERATURE_LINE_Y: i32 = 80;

/// Baseline of the pressure line.
pub const PRESSURE_LINE_Y: i32 = 105;

/// Weight of a text line: the reading and its label are drawn bold, the
/// secondary measurements regular.
#[derive(Clone, Copy, Debug, PartialEq, Eq, Structural)]
pub enum TextStyle {
    Regular,
    Bold,
}

/// One text line of a frame: where it starts, how it is weighted, and what
/// it says.
#[derive(Debug)]
pub struct TextLine {
    pub x: i32,
    pub y: i32,
    pub style: TextStyle,
    pub text: String,
}

/// The mathematical content of a text line.
pub struct TextLineModel {
    pub x: int,
    pub y: int,
    pub style: TextStyle,
    pub text: Seq<char>,
}

impl View for TextLine {
    type V = TextLineModel;

    open spec fn view(&self) -> TextLineModel {
        TextLineModel { x: self.x as int, y: self.y as int, style: self.style, text: self.text@ }
    }
}

/// Everything the panel shows for one cycle.
#[derive(Debug)]
pub struct DisplayFrame {
    pub background: Color,
    pub co2_line: TextLine,
    pub label_line: TextLine,
    pub temperature_line: TextLine,
    pub pressure_line: TextLine,
}

/// The mathematical content of a frame.
pub struct FrameModel {
    pub background: Color,
    pub co2_line: TextLineModel,
    pub label_line: TextLineModel,
    pub temperature_line: TextLineModel,
    pub pressure_line: TextLineModel,
}

impl View for DisplayFrame {
    type V = FrameModel;

    open spec fn view(&self) -> FrameModel {
        FrameModel {
            background: self.background,
            co2_line: self.co2_line@,
            label_line: self.label_line@,
            temperature_line: self.temperature_line@,
            pressure_line: self.pressure_line@,
        }
    }
}

/// The concentration line's text: the reading in whole ppm.
pub open spec fn co2_text(co2_ppm: int) -> Seq<char> {
    "CO2: "@ + signed_dec_str(co2_ppm) + " ppm"@
}

/// The temperature line's text: the reading in degrees Celsius with two
/// decimals.
pub open spec fn temperature_text(temperature_centi_c: int) -> Seq<char> {
    "Temperature: "@ + fixed2_str(temperature_centi_c) + " C"@
}

/// The pressure line's text: the reading in hectopascals with one decimal.
pub open spec fn pressure_text(pressure_deci_hpa: int) -> Seq<char> {
    "Pressure: "@ + fixed1_str(pressure_deci_hpa) + " hPa"@
}

/// The frame a reading produces: background color from the severity bucket
/// of the concentration, and the four fixed text lines.
pub open spec fn frame_spec(r: Reading) -> FrameModel {
    FrameModel {
        background: color_for_spec(classify_spec(r.co2_ppm as int)),
        co2_line: TextLineModel {
            x: TEXT_LEFT_X as int,
            y: CO2_LINE_Y as int,
            style: TextStyle::Bold,
            text: co2_text(r.co2_ppm as int),
        },
        label_line: TextLineModel {
            x: TEXT_LEFT_X as int,
            y: LABEL_LINE_Y as int,
            style: TextStyle::Bold,
            text: label_spec(classify_spec(r.co2_ppm as int)),
        },
        temperature_line: TextLineModel {
            x: TEXT_LEFT_X as int,
            y: TEMPERATURE_LINE_Y as int,
            style: TextStyle::Regular,
            text: temperature_text(r.temperature_centi_c as int),
        },
        pressure_line: TextLineModel {
            x: TEXT_LEFT_X as int,
            y: PRESSURE_LINE_Y as int,
            style: TextStyle::Regular,
            text: pressure_text(r.pressure_deci_hpa as int),
        },
    }
}

/// Build the frame for one reading: classify the concentration, pick the
/// alert color, and lay out the four text lines.
pub fn build_frame(r: &Reading) -> (f: DisplayFrame)
    requires
        r.wf(),
    ensures
        f@ == frame_spec(*r),
{
    let level = classify(r.co2_ppm);

    let mut co2_text_buf = String::new();
    co2_text_buf.append("CO2: ");
    push_i32_dec(&mut co2_text_buf, r.co2_ppm);
    co2_text_buf.append(" ppm");

    let mut temperature_text_buf = String::new();
    temperature_text_buf.append("Temperature: ");
    push_fixed2(&mut temperature_text_buf, r.temperature_centi_c);
    temperature_text_buf.append(" C");

    let mut pressure_text_buf = String::new();
    pressure_text_buf.append("Pressure: ");
    push_fixed1(&mut pressure_text_buf, r.pressure_deci_hpa);
    pressure_text_buf.append(" hPa");

    let f = DisplayFrame {
        background: level.color(),
        co2_line: TextLine {
            x: TEXT_LEFT_X,
            y: CO2_LINE_Y,
            style: TextStyle::Bold,
            text: co2_text_buf,
        },
        label_line: TextLine {
            x: TEXT_LEFT_X,
            y: LABEL_LINE_Y,
            style: TextStyle::Bold,
            text: level.label().to_owned(),
        },
        temperature_line: TextLine {
            x: TEXT_LEFT_X,
            y: TEMPERATURE_LINE_Y,
            style: TextStyle::Regular,
            text: temperature_text_buf,
        },
        pressure_line: TextLine {
            x: TEXT_LEFT_X,
            y: PRESSURE_LINE_Y,
            style: TextStyle::Regular,
            text: pressure_text_buf,
        },
    };
    proof {
        assert(f@.co2_line.text =~= co2_text(r.co2_ppm as int));
        assert(f@.temperature_line.text =~= temperature_text(r.temperature_centi_c as int));
        assert(f@.pressure_line.text =~= pressure_text(r.pressure_deci_hpa as int));
    }
    f
}

} // verus!
