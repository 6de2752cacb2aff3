use co2mon::Color;
use co2mon::Reading;
use co2mon::frame::{
    CO2_LINE_Y, LABEL_LINE_Y, PRESSURE_LINE_Y, TEMPERATURE_LINE_Y, TEXT_LEFT_X, TextStyle,
    build_frame,
};
use co2mon::render::{DrawOp, render_ops};

#[test]
fn frame_lays_out_the_four_lines() {
    let r = Reading::new(300, 2345, 10132);
    let f = build_frame(&r);
    assert_eq!(f.background, Color::Blue);

    assert_eq!(f.co2_line.text.as_str(), "CO2: 300 ppm");
    assert_eq!(f.co2_line.x, TEXT_LEFT_X);
    assert_eq!(f.co2_line.y, CO2_LINE_Y);
    assert_eq!(f.co2_line.style, TextStyle::Bold);

    assert_eq!(f.label_line.text.as_str(), "Fresh");
    assert_eq!(f.label_line.y, LABEL_LINE_Y);
    assert_eq!(f.label_line.style, TextStyle::Bold);

    assert_eq!(f.temperature_line.text.as_str(), "Temperature: 23.45 C");
    assert_eq!(f.temperature_line.y, TEMPERATURE_LINE_Y);
    assert_eq!(f.temperature_line.style, TextStyle::Regular);

    assert_eq!(f.pressure_line.text.as_str(), "Pressure: 1013.2 hPa");
    assert_eq!(f.pressure_line.y, PRESSURE_LINE_Y);
    assert_eq!(f.pressure_line.style, TextStyle::Regular);
}

#[test]
fn formatting_handles_zero_and_negative_values() {
    let r = Reading::new(0, -512, 0);
    let f = build_frame(&r);
    assert_eq!(f.co2_line.text.as_str(), "CO2: 0 ppm");
    assert_eq!(f.temperature_line.text.as_str(), "Temperature: -5.12 C");
    assert_eq!(f.pressure_line.text.as_str(), "Pressure: 0.0 hPa");
}

#[test]
fn formatting_pads_small_fractions() {
    let r = Reading::new(-7, 100, 9);
    let f = build_frame(&r);
    assert_eq!(f.co2_line.text.as_str(), "CO2: -7 ppm");
    assert_eq!(f.temperature_line.text.as_str(), "Temperature: 1.00 C");
    assert_eq!(f.pressure_line.text.as_str(), "Pressure: 0.9 hPa");
}

#[test]
fn formatting_handles_large_register_values() {
    let r = Reading::new(32767, 32767, 32767);
    let f = build_frame(&r);
    assert_eq!(f.co2_line.text.as_str(), "CO2: 32767 ppm");
    assert_eq!(f.temperature_line.text.as_str(), "Temperature: 327.67 C");
    assert_eq!(f.pressure_line.text.as_str(), "Pressure: 3276.7 hPa");
    assert_eq!(f.background, Color::DarkViolet);
}

#[test]
fn render_clears_then_draws_in_order() {
    let r = Reading::new(900, 2000, 10000);
    let f = build_frame(&r);
    let ops = render_ops(&f);
    assert_eq!(ops.len(), 5);
    match &ops[0] {
        DrawOp::Clear(c) => assert_eq!(*c, Color::Orange),
        _ => panic!("first op must clear the screen"),
    }
    let texts: Vec<&str> = ops[1..]
        .iter()
        .map(|op| match op {
            DrawOp::Text(l) => l.text.as_str(),
            _ => panic!("ops after the clear must be text"),
        })
        .collect();
    assert_eq!(
        texts,
        [
            "CO2: 900 ppm",
            "Moderate",
            "Temperature: 20.00 C",
            "Pressure: 1000.0 hPa"
        ]
    );
}

#[test]
fn render_is_repeatable_for_the_same_frame() {
    let r = Reading::new(1200, -25, 9876);
    let f = build_frame(&r);
    let first = render_ops(&f);
    let second = render_ops(&f);
    assert_eq!(first.len(), second.len());
    for (a, b) in first.iter().zip(second.iter()) {
        match (a, b) {
            (DrawOp::Clear(c1), DrawOp::Clear(c2)) => assert_eq!(c1, c2),
            (DrawOp::Text(l1), DrawOp::Text(l2)) => {
                assert_eq!(l1.x, l2.x);
                assert_eq!(l1.y, l2.y);
                assert_eq!(l1.style, l2.style);
                assert_eq!(l1.text, l2.text);
            }
            _ => panic!("the two runs diverged"),
        }
    }
}
