use activity_meter::accumulators::{Accumulators, InputEvent};
use activity_meter::report::Report;
use activity_meter::reporter::{Outcome, Phase, Reporter, ReporterKind, Signal};

#[test]
fn fifty_key_releases_then_one_report() {
    let mut acc = Accumulators::new();
    let mut reporter = Reporter::new(ReporterKind::Keypress);
    let mut sent: u32 = 0;
    while sent < 50 {
        acc.record(InputEvent::KeyUp);
        sent += 1;
    }
    let outcome = reporter.step(Signal::Tick, &mut acc);
    assert_eq!(outcome, Outcome::Dispatch(Report::Keypress { counter: 50 }));
    let body = match outcome {
        Outcome::Dispatch(report) => report.body(),
        _ => unreachable!(),
    };
    assert_eq!(body, "{\"counter\":50}");
    assert_eq!(reporter.step(Signal::Delivered, &mut acc), Outcome::Reset);
    assert_eq!(acc.key_count(), 0);
    assert_eq!(reporter.phase(), Phase::Waiting);
}

#[test]
fn two_hundred_pixels_of_travel_then_one_report() {
    let mut acc = Accumulators::new();
    let mut reporter = Reporter::new(ReporterKind::Pointer);
    acc.record(InputEvent::MouseMove { x: 0, y: 0 });
    acc.record(InputEvent::MouseMove { x: 100, y: 0 });
    acc.record(InputEvent::MouseMove { x: 100, y: 100 });
    assert_eq!(acc.travel(), 200_000_000);
    let expected = (200.0_f64 * 0.0002645833).floor() as u64;
    let outcome = reporter.step(Signal::Tick, &mut acc);
    assert_eq!(
        outcome,
        Outcome::Dispatch(Report::Pointer {
            mouse_distance: expected,
            right_click: 0,
            left_click: 0
        })
    );
    let body = match outcome {
        Outcome::Dispatch(report) => report.body(),
        _ => unreachable!(),
    };
    assert_eq!(body, "{\"leftClick\":0,\"mouseDistance\":0,\"rightClick\":0}");
    assert_eq!(reporter.step(Signal::Delivered, &mut acc), Outcome::Reset);
    assert_eq!(acc.travel(), 0);
    assert_eq!(acc.cursor(), (100, 100));
}

#[test]
fn buttons_one_and_three_count_as_right_clicks_only() {
    let mut acc = Accumulators::new();
    let mut reporter = Reporter::new(ReporterKind::Pointer);
    acc.record(InputEvent::MouseDown { button: 1 });
    acc.record(InputEvent::MouseDown { button: 3 });
    assert_eq!(acc.right_click(), 2);
    assert_eq!(acc.left_click(), 0);
    let outcome = reporter.step(Signal::Tick, &mut acc);
    assert_eq!(
        outcome,
        Outcome::Dispatch(Report::Pointer { mouse_distance: 0, right_click: 2, left_click: 0 })
    );
}

#[test]
fn a_long_walk_is_reported_in_meters() {
    let mut acc = Accumulators::new();
    let mut reporter = Reporter::new(ReporterKind::Pointer);
    let mut laps: u32 = 0;
    while laps < 10 {
        acc.record(InputEvent::MouseMove { x: 1_920, y: 0 });
        acc.record(InputEvent::MouseMove { x: 1_920, y: 1_080 });
        acc.record(InputEvent::MouseMove { x: 0, y: 1_080 });
        acc.record(InputEvent::MouseMove { x: 0, y: 0 });
        laps += 1;
    }
    assert_eq!(acc.travel(), 60_000_000_000);
    let expected = (60_000.0_f64 * 0.0002645833) as u64;
    assert_eq!(expected, 15);
    let outcome = reporter.step(Signal::Tick, &mut acc);
    assert_eq!(
        outcome,
        Outcome::Dispatch(Report::Pointer {
            mouse_distance: expected,
            right_click: 0,
            left_click: 0
        })
    );
}
