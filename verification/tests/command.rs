use ratatui_termina::cell::Position;
use ratatui_termina::color::{WireColor, RgbaColor};
use ratatui_termina::command::{can_encode, encode, Command};
use ratatui_termina::escape::{EraseInDisplay, EraseInLine, SgrAttributes};
use ratatui_termina::modifier::SgrModifiers;

fn attributes(
    foreground: Option<WireColor>,
    background: Option<WireColor>,
    modifiers: u32,
) -> Command {
    let mut codes = SgrModifiers::empty();
    codes.insert(modifiers);
    Command::Attributes(SgrAttributes { foreground, background, modifiers: codes })
}

#[test]
fn cursor_moves_count_from_one_and_name_the_row_first() {
    assert_eq!(Command::MoveTo(Position::new(0, 0)).encode(), "\x1b[1;1H");
    assert_eq!(Command::MoveTo(Position::new(9, 2)).encode(), "\x1b[3;10H");
    assert_eq!(Command::MoveTo(Position::new(65534, 65534)).encode(), "\x1b[65535;65535H");
    assert_eq!(Command::MoveTo(Position::new(99, 1000)).encode(), "\x1b[1001;100H");
}

#[test]
fn reset_text() {
    assert_eq!(Command::ResetStyle.encode(), "\x1b[m");
}

#[test]
fn cursor_visibility_text() {
    assert_eq!(Command::ShowCursor.encode(), "\x1b[?25h");
    assert_eq!(Command::HideCursor.encode(), "\x1b[?25l");
}

#[test]
fn erase_text() {
    assert_eq!(Command::EraseInDisplay(EraseInDisplay::EraseToEndOfDisplay).encode(), "\x1b[0J");
    assert_eq!(Command::EraseInDisplay(EraseInDisplay::EraseToStartOfDisplay).encode(), "\x1b[J");
    assert_eq!(Command::EraseInDisplay(EraseInDisplay::EraseDisplay).encode(), "\x1b[2J");
    assert_eq!(Command::EraseInDisplay(EraseInDisplay::EraseScrollback).encode(), "\x1b[3J");
    assert_eq!(Command::EraseInLine(EraseInLine::EraseToEndOfLine).encode(), "\x1b[0K");
    assert_eq!(Command::EraseInLine(EraseInLine::EraseToStartOfLine).encode(), "\x1b[K");
    assert_eq!(Command::EraseInLine(EraseInLine::EraseLine).encode(), "\x1b[2K");
}

#[test]
fn scroll_margins_text() {
    assert_eq!(Command::ScrollMargins { top: 0, bottom: 9 }.encode(), "\x1b[1;10r");
    assert_eq!(Command::ScrollMargins { top: 4, bottom: 65534 }.encode(), "\x1b[5;65535r");
    assert_eq!(Command::ScrollMargins { top: 0, bottom: 65534 }.encode(), "\x1b[r");
    assert_eq!(Command::ScrollMargins { top: 0, bottom: 65533 }.encode(), "\x1b[1;65534r");
}

#[test]
fn scroll_text() {
    assert_eq!(Command::ScrollUp(0).encode(), "\x1b[0S");
    assert_eq!(Command::ScrollUp(1).encode(), "\x1b[S");
    assert_eq!(Command::ScrollUp(2).encode(), "\x1b[2S");
    assert_eq!(Command::ScrollUp(65535).encode(), "\x1b[65535S");
    assert_eq!(Command::ScrollDown(0).encode(), "\x1b[0T");
    assert_eq!(Command::ScrollDown(1).encode(), "\x1b[T");
    assert_eq!(Command::ScrollDown(12).encode(), "\x1b[12T");
}

#[test]
fn position_request_text() {
    assert_eq!(Command::RequestCursorPosition.encode(), "\x1b[6n");
}

#[test]
fn underline_color_text() {
    assert_eq!(Command::UnderlineColor(WireColor::Reset).encode(), "\x1b[59m");
    assert_eq!(Command::UnderlineColor(WireColor::PaletteIndex(1)).encode(), "\x1b[58:5:1m");
    assert_eq!(Command::UnderlineColor(WireColor::PaletteIndex(208)).encode(), "\x1b[58:5:208m");
    assert_eq!(
        Command::UnderlineColor(WireColor::TrueColor(RgbaColor {
            red: 1,
            green: 20,
            blue: 255,
            alpha: 255
        }))
        .encode(),
        "\x1b[58:2::1:20:255m"
    );
    assert_eq!(
        Command::UnderlineColor(WireColor::TrueColor(RgbaColor {
            red: 1,
            green: 20,
            blue: 255,
            alpha: 7
        }))
        .encode(),
        "\x1b[58:6::1:20:255:7m"
    );
}

#[test]
fn attributes_text() {
    assert_eq!(attributes(Some(WireColor::PaletteIndex(1)), None, 0).encode(), "\x1b[31m");
    assert_eq!(attributes(None, Some(WireColor::PaletteIndex(4)), 0).encode(), "\x1b[44m");
    assert_eq!(attributes(Some(WireColor::PaletteIndex(9)), None, 0).encode(), "\x1b[91m");
    assert_eq!(attributes(Some(WireColor::Reset), Some(WireColor::Reset), 0).encode(), "\x1b[39;49m");
    assert_eq!(attributes(Some(WireColor::PaletteIndex(200)), None, 0).encode(), "\x1b[38;5;200m");
    assert_eq!(
        attributes(
            Some(WireColor::TrueColor(RgbaColor { red: 0, green: 0, blue: 255, alpha: 255 })),
            None,
            0
        )
        .encode(),
        "\x1b[38;2;0;0;255m"
    );
    assert_eq!(
        attributes(Some(WireColor::PaletteIndex(2)), None, SgrModifiers::INTENSITY_BOLD).encode(),
        "\x1b[32;1m"
    );
    assert_eq!(attributes(None, None, SgrModifiers::UNDERLINE_SINGLE).encode(), "\x1b[4m");
    assert_eq!(
        attributes(None, None, SgrModifiers::INTENSITY_NORMAL | SgrModifiers::INTENSITY_BOLD)
            .encode(),
        "\x1b[22;1m"
    );
    assert_eq!(
        attributes(None, None, SgrModifiers::BLINK_NONE | SgrModifiers::BLINK_RAPID).encode(),
        "\x1b[25;6m"
    );
    assert_eq!(
        attributes(None, None, SgrModifiers::NO_ITALIC | SgrModifiers::REVERSE).encode(),
        "\x1b[23;7m"
    );
}

#[test]
fn text_and_line_end() {
    assert_eq!(Command::Print(String::from("äb")).encode(), "äb");
    assert_eq!(Command::NewLine.encode(), "\n");
}

#[test]
fn a_sequence_is_written_in_order() {
    let commands = vec![
        Command::MoveTo(Position::new(0, 0)),
        attributes(Some(WireColor::PaletteIndex(1)), None, 0),
        Command::Print(String::from("A")),
        Command::ResetStyle,
    ];
    assert!(can_encode(&commands));
    assert_eq!(encode(&commands), "\x1b[1;1H\x1b[31mA\x1b[m");
    assert_eq!(encode(&Vec::new()), "");
}

#[test]
fn the_last_column_and_row_have_no_number() {
    assert!(Command::MoveTo(Position::new(65534, 65534)).encodable());
    assert!(!Command::MoveTo(Position::new(65535, 0)).encodable());
    assert!(!Command::MoveTo(Position::new(0, 65535)).encodable());
    assert!(!Command::ScrollMargins { top: 65535, bottom: 3 }.encodable());
    assert!(!Command::ScrollMargins { top: 0, bottom: 65535 }.encodable());
    assert!(Command::ScrollUp(65535).encodable());
    assert!(!can_encode(&vec![Command::ResetStyle, Command::MoveTo(Position::new(65535, 0))]));
}

#[test]
fn every_attribute_code_has_its_number() {
    let table: [(u32, &str); 18] = [
        (SgrModifiers::INTENSITY_NORMAL, "22"),
        (SgrModifiers::INTENSITY_DIM, "2"),
        (SgrModifiers::INTENSITY_BOLD, "1"),
        (SgrModifiers::UNDERLINE_NONE, "24"),
        (SgrModifiers::UNDERLINE_SINGLE, "4"),
        (SgrModifiers::UNDERLINE_DOUBLE, "21"),
        (SgrModifiers::BLINK_NONE, "25"),
        (SgrModifiers::BLINK_SLOW, "5"),
        (SgrModifiers::BLINK_RAPID, "6"),
        (SgrModifiers::ITALIC, "3"),
        (SgrModifiers::NO_ITALIC, "23"),
        (SgrModifiers::REVERSE, "7"),
        (SgrModifiers::NO_REVERSE, "27"),
        (SgrModifiers::INVISIBLE, "8"),
        (SgrModifiers::NO_INVISIBLE, "28"),
        (SgrModifiers::STRIKE_THROUGH, "9"),
        (SgrModifiers::NO_STRIKE_THROUGH, "29"),
        (SgrModifiers::UNDERLINE_CURLY, "4:3"),
    ];
    for (code, number) in table {
        assert_eq!(attributes(None, None, code).encode(), format!("\x1b[{number}m"));
    }
    assert_eq!(SgrModifiers::ALL, table.iter().fold(0, |all, (code, _)| all | code)
        | SgrModifiers::RESET | SgrModifiers::UNDERLINE_DOTTED | SgrModifiers::UNDERLINE_DASHED);
}

#[test]
fn shared_turn_off_codes_are_written_before_turn_on_codes() {
    assert_eq!(
        attributes(None, None, SgrModifiers::INTENSITY_BOLD | SgrModifiers::INTENSITY_NORMAL).encode(),
        "\x1b[22;1m"
    );
    assert_eq!(
        attributes(None, None, SgrModifiers::INTENSITY_DIM | SgrModifiers::INTENSITY_NORMAL).encode(),
        "\x1b[22;2m"
    );
    assert_eq!(
        attributes(None, None, SgrModifiers::BLINK_SLOW | SgrModifiers::BLINK_NONE).encode(),
        "\x1b[25;5m"
    );
    assert_eq!(
        attributes(None, None, SgrModifiers::UNDERLINE_SINGLE | SgrModifiers::UNDERLINE_NONE).encode(),
        "\x1b[24;4m"
    );
}
