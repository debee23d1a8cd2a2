use phasma::command_palette::{parse_command, Command, CommandPalette};
use phasma::float_text::is_float_chars;
use phasma::keys::{KeyCode, KeyEvent};

fn key(c: KeyCode) -> KeyEvent {
    KeyEvent::plain(c)
}

fn type_text(p: &mut CommandPalette, s: &str) {
    for c in s.chars() {
        assert!(matches!(p.handle_key(key(KeyCode::Char(c))), Ok(None)));
    }
}

#[test]
fn parse_quit_words() {
    assert!(matches!(parse_command("q"), Some(Command::Quit)));
    assert!(matches!(parse_command("quit"), Some(Command::Quit)));
    assert!(matches!(parse_command("  EXIT  "), Some(Command::Quit)));
}

#[test]
fn parse_empty_and_unknown() {
    assert!(parse_command("").is_none());
    assert!(parse_command("   \t ").is_none());
    assert!(parse_command("frobnicate now").is_none());
}

#[test]
fn parse_jump_keeps_argument_text() {
    match parse_command("jump 50.0") {
        Some(Command::JumpToTime(t)) => assert_eq!(t, "50.0"),
        other => panic!("unexpected {other:?}"),
    }
    match parse_command("t   12  ") {
        Some(Command::JumpToTime(t)) => assert_eq!(t, "12"),
        other => panic!("unexpected {other:?}"),
    }
    assert!(parse_command("goto").is_none());
}

#[test]
fn parse_export_defaults_to_csv() {
    match parse_command("export") {
        Some(Command::Export(f)) => assert_eq!(f, "csv"),
        other => panic!("unexpected {other:?}"),
    }
    match parse_command("E json") {
        Some(Command::Export(f)) => assert_eq!(f, "json"),
        other => panic!("unexpected {other:?}"),
    }
}

#[test]
fn parse_colormap_and_theme() {
    match parse_command("cmap viridis") {
        Some(Command::SetColormap(n)) => assert_eq!(n, "viridis"),
        other => panic!("unexpected {other:?}"),
    }
    match parse_command("colormap  Magma Extra") {
        Some(Command::SetColormap(n)) => assert_eq!(n, "Magma Extra"),
        other => panic!("unexpected {other:?}"),
    }
    match parse_command("theme dark") {
        Some(Command::SetTheme(n)) => assert_eq!(n, "dark"),
        other => panic!("unexpected {other:?}"),
    }
    assert!(parse_command("theme").is_none());
    assert!(parse_command("cmap").is_none());
}

#[test]
fn palette_open_and_close_clear_input() {
    let mut p = CommandPalette::default();
    assert!(!p.is_visible());
    p.open();
    assert!(p.is_visible());
    type_text(&mut p, "abc");
    assert_eq!(p.input(), "abc");
    assert_eq!(p.cursor(), 3);
    p.close();
    assert!(!p.is_visible());
    assert_eq!(p.input(), "");
    assert_eq!(p.cursor(), 0);
}

#[test]
fn palette_open_with_prefix_puts_cursor_at_end() {
    let mut p = CommandPalette::default();
    p.open_with("jump ");
    assert!(p.is_visible());
    assert_eq!(p.input(), "jump ");
    assert_eq!(p.cursor(), 5);
}

#[test]
fn palette_edits_at_cursor() {
    let mut p = CommandPalette::default();
    p.open();
    type_text(&mut p, "qit");
    assert!(matches!(p.handle_key(key(KeyCode::Left)), Ok(None)));
    assert!(matches!(p.handle_key(key(KeyCode::Left)), Ok(None)));
    type_text(&mut p, "u");
    assert_eq!(p.input(), "quit");
    assert_eq!(p.cursor(), 2);
    assert!(matches!(p.handle_key(key(KeyCode::Backspace)), Ok(None)));
    assert_eq!(p.input(), "qit");
    assert_eq!(p.cursor(), 1);
    // Right stops at the end.
    for _ in 0..5 {
        let _ = p.handle_key(key(KeyCode::Right));
    }
    assert_eq!(p.cursor(), 3);
    // Left stops at the start, Backspace there does nothing.
    for _ in 0..5 {
        let _ = p.handle_key(key(KeyCode::Left));
    }
    assert_eq!(p.cursor(), 0);
    let _ = p.handle_key(key(KeyCode::Backspace));
    assert_eq!(p.input(), "qit");
}

#[test]
fn palette_char_then_backspace_restores() {
    let mut p = CommandPalette::default();
    p.open_with("abc");
    let _ = p.handle_key(key(KeyCode::Left));
    let _ = p.handle_key(key(KeyCode::Char('x')));
    assert_eq!(p.input(), "abxc");
    let _ = p.handle_key(key(KeyCode::Backspace));
    assert_eq!(p.input(), "abc");
    assert_eq!(p.cursor(), 2);
}

#[test]
fn palette_enter_submits_and_closes() {
    let mut p = CommandPalette::default();
    p.open();
    type_text(&mut p, "theme light");
    match p.handle_key(key(KeyCode::Enter)) {
        Ok(Some(Command::SetTheme(n))) => assert_eq!(n, "light"),
        other => panic!("unexpected {other:?}"),
    }
    assert!(!p.is_visible());
    assert_eq!(p.input(), "");
}

#[test]
fn palette_enter_with_nonsense_gives_nothing() {
    let mut p = CommandPalette::default();
    p.open();
    type_text(&mut p, "nonsense");
    assert!(matches!(p.handle_key(key(KeyCode::Enter)), Ok(None)));
    assert!(!p.is_visible());
}

#[test]
fn palette_escape_closes_without_command() {
    let mut p = CommandPalette::default();
    p.open();
    type_text(&mut p, "q");
    assert!(p.handle_key(key(KeyCode::Esc)).is_err());
    assert!(!p.is_visible());
    assert_eq!(p.input(), "");
}

#[test]
fn palette_ignores_other_keys() {
    let mut p = CommandPalette::default();
    p.open_with("ab");
    assert!(matches!(p.handle_key(key(KeyCode::F(3))), Ok(None)));
    assert!(matches!(p.handle_key(key(KeyCode::Up)), Ok(None)));
    assert_eq!(p.input(), "ab");
    assert_eq!(p.cursor(), 2);
}

#[test]
fn display_line_marks_the_cursor() {
    let mut p = CommandPalette::new();
    p.open();
    type_text(&mut p, "quit");
    assert_eq!(p.display_line(), ":quit│");
    p.handle_key(key(KeyCode::Left));
    p.handle_key(key(KeyCode::Left));
    assert_eq!(p.display_line(), ":qu│it");
}

#[test]
fn jump_needs_a_number() {
    assert!(parse_command("jump abc").is_none());
    assert!(parse_command("goto 1.2.3").is_none());
    assert!(parse_command("t 5e").is_none());
    match parse_command("  GOTO  7 ") {
        Some(Command::JumpToTime(t)) => assert_eq!(t.parse::<f64>().unwrap(), 7.0),
        _ => panic!(),
    }
    match parse_command("jump -1.5E+3") {
        Some(Command::JumpToTime(t)) => assert_eq!(t.parse::<f64>().unwrap(), -1500.0),
        _ => panic!(),
    }
    for input in ["", "   ", "foo 1", "jump", "jump abc", "cmap", "theme"] {
        assert!(parse_command(input).is_none(), "{input:?}");
    }
    assert!(matches!(parse_command("export"), Some(Command::Export(f)) if f == "csv"));
}

#[test]
fn float_texts_follow_std() {
    let samples = [
        "0", "7", "-7", "+7", "1.", ".5", "1.5", ".", "+.", "-", "+", "", "1e5", "1E5", "1e+5", "1e-5", "1e", "1e+",
        "e5", ".e5", "1.e5", ".5e-2", "inf", "INF", "-Infinity", "+nan", "NaN", "infinit", "infinityy", "nan1",
        "1_000", "1,5", " 1", "1 ", "0x10", "1e5.5", "--1", "+-1", "1..2", "١٢", "12a", "a12", "00012.3400",
    ];
    for s in samples {
        let chars: Vec<char> = s.chars().collect();
        assert_eq!(is_float_chars(&chars), s.parse::<f64>().is_ok(), "{s:?}");
    }
}
