use co2mon::Color;
use co2mon::Reading;
use co2mon::controller::{Action, Controller, Event, Phase};

/// Drive the controller with perfect hardware through `readings`, recording
/// the order of the interesting orders it gives: 'a' arm, 'b' boot splash,
/// 'f' feed, 'r' read, 's' show, 'p' pause. Returns the trace and the
/// frames' background colors and labels.
fn run_cycles(readings: &[i32]) -> (Controller, String, Vec<Color>, Vec<String>) {
    let mut ctl = Controller::new();
    let mut ev = Event::Start;
    let mut trace = String::new();
    let mut backgrounds = Vec::new();
    let mut labels = Vec::new();
    let mut next = 0usize;
    loop {
        assert!(ctl.feeds < u64::MAX);
        let action = ctl.step(ev);
        ev = match action {
            Action::ArmWatchdog => {
                trace.push('a');
                Event::Done
            }
            Action::RunBootSequence => {
                trace.push('b');
                Event::Done
            }
            Action::FeedWatchdog => {
                trace.push('f');
                Event::Done
            }
            Action::RaiseIndicator | Action::LowerIndicator => Event::Done,
            Action::ReadSensor => {
                trace.push('r');
                if next < readings.len() {
                    let r = Reading::new(readings[next], 2345, 10132);
                    next += 1;
                    Event::SensorReading(r)
                } else {
                    Event::SensorFailed
                }
            }
            Action::ShowFrame(f) => {
                trace.push('s');
                backgrounds.push(f.background);
                labels.push(f.label_line.text.clone());
                Event::Done
            }
            Action::Pause => {
                trace.push('p');
                Event::Done
            }
            Action::HaltForReset => break,
        };
    }
    (ctl, trace, backgrounds, labels)
}

#[test]
fn every_cycle_feeds_before_it_reads() {
    let (ctl, trace, _, _) = run_cycles(&[400, 800, 1200, 2000]);
    // four full cycles ran, then the fifth read failed
    assert_eq!(ctl.polls, 5);
    assert_eq!(ctl.feeds, 5);
    // in the trace, every read is directly preceded (feed-wise) by its own
    // cycle's feed: between two reads there is exactly one feed
    let reads: Vec<usize> = trace.match_indices('r').map(|(i, _)| i).collect();
    let feeds: Vec<usize> = trace.match_indices('f').map(|(i, _)| i).collect();
    assert_eq!(reads.len(), 5);
    assert_eq!(feeds.len(), 5);
    for (feed, read) in feeds.iter().zip(reads.iter()) {
        assert!(feed < read, "a cycle's feed must precede its read");
    }
}

#[test]
fn boot_runs_exactly_once_and_before_the_first_read() {
    let (_, trace, _, _) = run_cycles(&[500, 600]);
    assert_eq!(trace.matches('b').count(), 1, "one boot splash only");
    let boot = trace.find('b').unwrap();
    let first_read = trace.find('r').unwrap();
    assert!(boot < first_read, "the boot splash precedes the first read");
    let arm = trace.find('a').unwrap();
    assert!(arm < boot, "the watchdog is armed before the splash");
}

#[test]
fn full_cycle_order_matches_the_design() {
    let (_, trace, _, _) = run_cycles(&[500]);
    // arm, boot, then one full cycle, then the failing read of the second
    assert_eq!(trace, "abfrspfr");
}

#[test]
fn rising_readings_recolor_the_display() {
    let (_, _, backgrounds, labels) = run_cycles(&[300, 900, 3000]);
    assert_eq!(backgrounds, [Color::Blue, Color::Orange, Color::DarkViolet]);
    assert_eq!(labels, ["Fresh", "Moderate", "Hazardous"]);
}

#[test]
fn a_read_failure_stops_the_feeding_for_good() {
    let mut ctl = Controller::new();
    assert!(matches!(ctl.step(Event::Start), Action::ArmWatchdog));
    assert!(matches!(ctl.step(Event::Done), Action::RunBootSequence));
    assert!(matches!(ctl.step(Event::Done), Action::FeedWatchdog));
    assert!(matches!(ctl.step(Event::Done), Action::RaiseIndicator));
    assert!(matches!(ctl.step(Event::Done), Action::ReadSensor));
    let feeds_before = ctl.feeds;
    assert!(matches!(ctl.step(Event::SensorFailed), Action::HaltForReset));
    assert_eq!(ctl.phase, Phase::Halted);
    // whatever is reported afterwards, nothing is ordered and nothing is fed
    for _ in 0..10 {
        assert!(matches!(ctl.step(Event::Done), Action::HaltForReset));
    }
    assert_eq!(ctl.feeds, feeds_before);
}

#[test]
fn a_draw_failure_halts_the_loop() {
    let mut ctl = Controller::new();
    ctl.step(Event::Start);
    ctl.step(Event::Done);
    ctl.step(Event::Done);
    ctl.step(Event::Done);
    ctl.step(Event::Done);
    let r = Reading::new(700, 0, 10000);
    assert!(matches!(
        ctl.step(Event::SensorReading(r)),
        Action::ShowFrame(_)
    ));
    assert!(matches!(ctl.step(Event::DisplayFailed), Action::HaltForReset));
    assert_eq!(ctl.phase, Phase::Halted);
}

#[test]
fn a_boot_failure_halts_before_any_feed() {
    let mut ctl = Controller::new();
    ctl.step(Event::Start);
    assert!(matches!(ctl.step(Event::Done), Action::RunBootSequence));
    assert!(matches!(ctl.step(Event::DisplayFailed), Action::HaltForReset));
    assert_eq!(ctl.phase, Phase::Halted);
    assert_eq!(ctl.feeds, 0);
    assert_eq!(ctl.boots, 1);
}
