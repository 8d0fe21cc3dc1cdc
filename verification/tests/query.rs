use ratatui_termina::cell::Position;
use ratatui_termina::query::{cursor_position, query_step, Event, QueryStep, Reading};

#[test]
fn a_report_counts_from_one() {
    let report = Event::PositionReport { line: 3, col: 10 };
    assert!(report.is_position_report());
    assert_eq!(cursor_position(&report), Some(Position::new(9, 2)));
    assert_eq!(
        cursor_position(&Event::PositionReport { line: 1, col: 1 }),
        Some(Position::new(0, 0))
    );
    assert_eq!(
        cursor_position(&Event::PositionReport { line: 65535, col: 65535 }),
        Some(Position::new(65534, 65534))
    );
}

#[test]
fn other_events_are_passed_over() {
    for event in [Event::Key, Event::Mouse, Event::Resize, Event::Other] {
        assert!(!event.is_position_report());
        assert_eq!(cursor_position(&event), None);
    }
}

#[test]
fn a_report_of_line_or_column_zero_is_no_answer() {
    for event in [
        Event::PositionReport { line: 0, col: 1 },
        Event::PositionReport { line: 1, col: 0 },
        Event::PositionReport { line: 0, col: 0 },
    ] {
        assert!(!event.is_position_report());
        assert_eq!(cursor_position(&event), None);
    }
}

#[test]
fn places_and_what_follows_them() {
    let p = Position::new(4, 2);
    assert!(Position::new(5, 2).follows(p));
    assert!(!Position::new(5, 3).follows(p));
    assert!(!Position::new(6, 2).follows(p));
    assert!(!Position::new(4, 2).follows(p));
    assert!(!Position::new(0, 0).follows(Position::new(65535, 0)));
    assert!(Position::new(65534, 65534).addressable());
    assert!(!Position::new(65535, 0).addressable());
    assert!(!Position::new(0, 65535).addressable());
}

#[test]
fn each_reading_has_its_step() {
    let report = Event::PositionReport { line: 3, col: 10 };
    assert_eq!(query_step(&Reading::Event(report)), QueryStep::Done(Position::new(9, 2)));
    assert_eq!(query_step(&Reading::Event(Event::Key)), QueryStep::ReadOn);
    assert_eq!(query_step(&Reading::Event(Event::Resize)), QueryStep::ReadOn);
    assert_eq!(
        query_step(&Reading::Event(Event::PositionReport { line: 0, col: 4 })),
        QueryStep::ReadOn
    );
    assert_eq!(query_step(&Reading::EndOfInput), QueryStep::Abort);
    assert_eq!(query_step(&Reading::Failed), QueryStep::Fail);
}
