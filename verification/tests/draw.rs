use ratatui_termina::backend::Encoder;
use ratatui_termina::cell::{Cell, Position};
use ratatui_termina::color::{Color, WireColor, IntoTermina};
use ratatui_termina::command::Command;
use ratatui_termina::escape::SgrAttributes;
use ratatui_termina::modifier::{Modifier, SgrModifiers};
use ratatui_termina::style::{can_draw, plan_draw, Capabilities, StyleState};

const ALL: Capabilities = Capabilities { underline_color: true, scrolling_regions: true };
const PLAIN: Capabilities = Capabilities { underline_color: false, scrolling_regions: false };

fn cell(symbol: &str, fg: Color) -> Cell {
    let mut cell = Cell::new(symbol);
    cell.fg = fg;
    cell
}

fn set(foreground: Option<WireColor>, background: Option<WireColor>, modifiers: u32) -> Command {
    let mut codes = SgrModifiers::empty();
    codes.insert(modifiers);
    Command::Attributes(SgrAttributes { foreground, background, modifiers: codes })
}

fn print(text: &str) -> Command {
    Command::Print(String::from(text))
}

fn plan(content: &Vec<(u16, u16, Cell)>, capabilities: Capabilities) -> Vec<Command> {
    let mut state = StyleState::new();
    let commands = plan_draw(&mut state, content, capabilities);
    assert_eq!(state, StyleState::new());
    commands
}

#[test]
fn two_red_cells_side_by_side() {
    let content = vec![(0, 0, cell("A", Color::Red)), (1, 0, cell("B", Color::Red))];
    assert_eq!(
        plan(&content, ALL),
        vec![
            Command::MoveTo(Position::new(0, 0)),
            set(Some(WireColor::PaletteIndex(1)), None, 0),
            print("A"),
            print("B"),
            Command::ResetStyle,
        ]
    );
    let mut encoder = Encoder::new(ALL);
    let out = encoder.draw(&content);
    assert_eq!(out.text, "\x1b[1;1H\x1b[31mAB\x1b[m");
    assert!(!out.flush);
    assert_eq!(out.text.matches("\x1b[31m").count(), 1);
}

#[test]
fn the_same_place_in_two_frames_is_moved_to_twice() {
    let mut encoder = Encoder::new(ALL);
    let first = encoder.draw(&vec![(5, 2, cell("X", Color::Red))]);
    assert_eq!(first.text, "\x1b[3;6H\x1b[31mX\x1b[m");
    assert_eq!(encoder.style(), StyleState::new());
    let second = encoder.draw(&vec![(5, 2, cell("X", Color::Blue))]);
    assert_eq!(second.text, "\x1b[3;6H\x1b[34mX\x1b[m");
    assert_eq!(encoder.style(), StyleState::new());
}

#[test]
fn an_empty_frame_is_a_reset() {
    assert_eq!(plan(&Vec::new(), ALL), vec![Command::ResetStyle]);
    assert_eq!(Encoder::new(ALL).draw(&Vec::new()).text, "\x1b[m");
}

#[test]
fn contiguous_cells_take_one_move() {
    let content: Vec<(u16, u16, Cell)> =
        (0..10).map(|i| (3 + i, 7, cell("x", Color::Reset))).collect();
    let commands = plan(&content, ALL);
    let moves = commands.iter().filter(|c| matches!(c, Command::MoveTo(_))).count();
    assert_eq!(moves, 1);
    assert_eq!(commands[0], Command::MoveTo(Position::new(3, 7)));
    assert_eq!(Encoder::new(ALL).draw(&content).text, "\x1b[8;4Hxxxxxxxxxx\x1b[m");
}

#[test]
fn a_gap_a_new_row_or_a_step_back_takes_a_move() {
    let content = vec![
        (0, 0, cell("a", Color::Reset)),
        (2, 0, cell("b", Color::Reset)),
        (3, 1, cell("c", Color::Reset)),
        (3, 1, cell("d", Color::Reset)),
        (2, 1, cell("e", Color::Reset)),
    ];
    assert_eq!(
        Encoder::new(ALL).draw(&content).text,
        "\x1b[1;1Ha\x1b[1;3Hb\x1b[2;4Hc\x1b[2;4Hd\x1b[2;3He\x1b[m"
    );
}

#[test]
fn only_what_changes_is_set() {
    let mut a = cell("a", Color::Red);
    a.bg = Color::Blue;
    a.modifier = Modifier::from_bits_truncate(Modifier::BOLD | Modifier::ITALIC);
    let mut b = cell("b", Color::Red);
    b.bg = Color::Green;
    b.modifier = Modifier::from_bits_truncate(Modifier::ITALIC);
    let mut c = cell("c", Color::Rgb(1, 2, 3));
    c.bg = Color::Green;
    c.modifier = Modifier::from_bits_truncate(Modifier::ITALIC | Modifier::UNDERLINED);
    let content = vec![(0, 0, a), (1, 0, b), (2, 0, c)];
    assert_eq!(
        plan(&content, ALL),
        vec![
            Command::MoveTo(Position::new(0, 0)),
            set(
                Some(WireColor::PaletteIndex(1)),
                Some(WireColor::PaletteIndex(4)),
                SgrModifiers::INTENSITY_BOLD | SgrModifiers::ITALIC
            ),
            print("a"),
            set(None, Some(WireColor::PaletteIndex(2)), SgrModifiers::INTENSITY_NORMAL),
            print("b"),
            set(Some(Color::Rgb(1, 2, 3).into_termina().wire()), None, SgrModifiers::UNDERLINE_SINGLE),
            print("c"),
            Command::ResetStyle,
        ]
    );
    assert_eq!(
        Encoder::new(ALL).draw(&content).text,
        "\x1b[1;1H\x1b[31;44;1;3ma\x1b[42;22mb\x1b[38;2;1;2;3;4mc\x1b[m"
    );
}

#[test]
fn underline_color_is_a_command_of_its_own() {
    let mut a = cell("a", Color::Red);
    a.underline_color = Color::Indexed(100);
    let mut b = cell("b", Color::Red);
    b.underline_color = Color::Indexed(100);
    let content = vec![(0, 0, a), (1, 0, b)];
    assert_eq!(
        plan(&content, ALL),
        vec![
            Command::MoveTo(Position::new(0, 0)),
            Command::UnderlineColor(WireColor::PaletteIndex(100)),
            set(Some(WireColor::PaletteIndex(1)), None, 0),
            print("a"),
            print("b"),
            Command::ResetStyle,
        ]
    );
    assert_eq!(Encoder::new(ALL).draw(&content).text, "\x1b[1;1H\x1b[58:5:100m\x1b[31mab\x1b[m");
    assert_eq!(Encoder::new(PLAIN).draw(&content).text, "\x1b[1;1H\x1b[31mab\x1b[m");
}

#[test]
fn many_parameters_are_split_by_the_formatter() {
    let mut a = cell("a", Color::Rgb(1, 2, 3));
    a.bg = Color::Rgb(4, 5, 6);
    a.modifier = Modifier::from_bits_truncate(Modifier::BOLD);
    let content = vec![(0, 0, a)];
    assert_eq!(
        Encoder::new(ALL).draw(&content).text,
        "\x1b[1;1H\x1b[38;2;1;2;3;48;2;4;5;6m\x1b[1ma\x1b[m"
    );
}

#[test]
fn the_tracker_follows_each_cell() {
    let mut state = StyleState::new();
    let mut a = cell("a", Color::Red);
    a.modifier = Modifier::from_bits_truncate(Modifier::DIM);
    let sent = state.advance(Position::new(4, 4), &a, ALL);
    assert_eq!(
        sent,
        vec![
            Command::MoveTo(Position::new(4, 4)),
            set(Some(WireColor::PaletteIndex(1)), None, SgrModifiers::INTENSITY_DIM),
            print("a"),
        ]
    );
    assert_eq!(state.fg, Color::Red);
    assert_eq!(state.bg, Color::Reset);
    assert_eq!(state.modifier, a.modifier);
    assert_eq!(state.last_pos, Some(Position::new(4, 4)));
    let sent = state.advance(Position::new(5, 4), &a, ALL);
    assert_eq!(sent, vec![print("a")]);
    state.reset();
    assert_eq!(state, StyleState::new());
}

#[test]
fn the_last_column_can_be_reached_by_advancing_only() {
    let content = vec![(65534, 0, cell("a", Color::Reset)), (65535, 0, cell("b", Color::Reset))];
    assert!(can_draw(&StyleState::new(), &content));
    assert!(Encoder::new(ALL).can_draw(&content));
    assert_eq!(Encoder::new(ALL).draw(&content).text, "\x1b[1;65535Hab\x1b[m");
    let alone = vec![(65535, 0, cell("b", Color::Reset))];
    assert!(!can_draw(&StyleState::new(), &alone));
    let last_row = vec![(0, 65535, cell("b", Color::Reset))];
    assert!(!Encoder::new(ALL).can_draw(&last_row));
    let wrapped = vec![(65535, 0, cell("a", Color::Reset)), (0, 0, cell("b", Color::Reset))];
    assert!(!can_draw(&StyleState::new(), &wrapped));
}

#[test]
fn a_named_colour_and_its_index_give_the_same_bytes() {
    let named = vec![(0, 0, cell("a", Color::Red))];
    let indexed = vec![(0, 0, cell("a", Color::Indexed(1)))];
    assert_eq!(Encoder::new(ALL).draw(&named).text, "\x1b[1;1H\x1b[31ma\x1b[m");
    assert_eq!(Encoder::new(ALL).draw(&indexed).text, "\x1b[1;1H\x1b[31ma\x1b[m");
}
