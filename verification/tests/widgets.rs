use phasma::keys::{KeyCode, KeyEvent};
use phasma::widgets::data_cursor::DataCursor;
use phasma::widgets::form_field::{pad_right, FormField, Highlight, Piece, PieceKind};
use phasma::widgets::grid_sampling::sample_index;

fn key(c: KeyCode) -> KeyEvent {
    KeyEvent::plain(c)
}

#[test]
fn data_cursor_show_and_hide() {
    let mut c = DataCursor::new();
    assert!(!c.visible);
    c.show(4, 7, "[1,2] = 3.0".to_string());
    assert!(c.visible);
    assert_eq!((c.x, c.y), (4, 7));
    assert_eq!(c.label, "[1,2] = 3.0");
    c.hide_tooltip();
    assert!(!c.visible);
    assert_eq!(c.label, "[1,2] = 3.0");
}

#[test]
fn text_field_edits_only_when_editing() {
    let mut f = FormField::text_with_unit("Grid", "64", "cells");
    assert_eq!(f.label(), "Grid");
    assert_eq!(f.value_str(), "64");
    // Unfocused: ignores keys.
    assert!(!f.handle_key(key(KeyCode::Enter)));
    assert!(!f.is_editing());
    f.set_focused(true);
    // Focused but not editing: typing changes nothing.
    assert!(!f.handle_key(key(KeyCode::Char('1'))));
    assert_eq!(f.value_str(), "64");
    assert!(!f.handle_key(key(KeyCode::Enter)));
    assert!(f.is_editing());
    assert!(f.handle_key(key(KeyCode::Char('0'))));
    assert_eq!(f.value_str(), "640");
    assert!(f.handle_key(key(KeyCode::Backspace)));
    assert!(f.handle_key(key(KeyCode::Backspace)));
    assert_eq!(f.value_str(), "6");
    assert!(!f.handle_key(key(KeyCode::Esc)));
    assert!(!f.is_editing());
    // Losing the focus ends editing.
    f.handle_key(key(KeyCode::Enter));
    assert!(f.is_editing());
    f.set_focused(false);
    assert!(!f.is_editing());
}

#[test]
fn text_field_backspace_on_empty_reports_no_change() {
    let mut f = FormField::text("Name", "");
    f.set_focused(true);
    f.handle_key(key(KeyCode::Enter));
    assert!(!f.handle_key(key(KeyCode::Backspace)));
    assert_eq!(f.value_str(), "");
}

#[test]
fn text_field_error() {
    let mut f = FormField::text("dt", "x");
    f.set_error(Some("not a number".to_string()));
    match &f {
        FormField::TextInput { error, .. } => assert_eq!(error.as_deref(), Some("not a number")),
        _ => panic!(),
    }
    let mut t = FormField::toggle("Log", true);
    t.set_error(Some("ignored".to_string()));
    assert_eq!(t.value_str(), "true");
}

#[test]
fn dropdown_moves_within_options() {
    let opts = vec!["a".to_string(), "b".to_string(), "c".to_string()];
    let mut f = FormField::dropdown("Pick", opts, 0);
    f.set_focused(true);
    assert!(!f.handle_key(key(KeyCode::Left)));
    assert_eq!(f.value_str(), "a");
    assert!(f.handle_key(key(KeyCode::Char('l'))));
    assert!(f.handle_key(key(KeyCode::Right)));
    assert!(!f.handle_key(key(KeyCode::Right)));
    assert_eq!(f.value_str(), "c");
    assert!(f.handle_key(key(KeyCode::Char('h'))));
    assert_eq!(f.value_str(), "b");
    assert!(!f.handle_key(key(KeyCode::Enter)));
}

#[test]
fn dropdown_out_of_range_and_empty() {
    let mut f = FormField::dropdown("Pick", vec!["a".to_string()], 5);
    assert_eq!(f.value_str(), "");
    f.set_focused(true);
    assert!(f.handle_key(key(KeyCode::Right)));
    assert_eq!(f.value_str(), "a");
    let mut e = FormField::dropdown("None", vec![], 0);
    e.set_focused(true);
    assert!(!e.handle_key(key(KeyCode::Right)));
    assert!(!e.handle_key(key(KeyCode::Left)));
    assert_eq!(e.value_str(), "");
}

#[test]
fn toggle_flips_twice() {
    let mut f = FormField::toggle("Log scale", false);
    assert_eq!(f.value_str(), "false");
    f.set_focused(true);
    assert!(f.handle_key(key(KeyCode::Char(' '))));
    assert_eq!(f.value_str(), "true");
    assert!(f.handle_key(key(KeyCode::Enter)));
    assert_eq!(f.value_str(), "false");
    assert!(!f.handle_key(key(KeyCode::Char('x'))));
}

#[test]
fn tooltip_fits_the_frame() {
    let mut c = DataCursor::new();
    c.show(70, 5, "ρ = 1.5".to_string());
    // "ρ = 1.5" is 8 bytes: the tooltip is 12 cells wide, moved left to fit 80 columns.
    let r = c.tooltip_area(80);
    assert_eq!((r.x, r.y, r.width, r.height), (68, 5, 12, 3));
    c.show(3, 1, "x".repeat(50));
    let r = c.tooltip_area(200);
    assert_eq!((r.x, r.width), (3, 40));
    assert_eq!(c.tooltip_area(10).x, 0);
}

fn pieces(v: &[(PieceKind, &str)]) -> Vec<Piece> {
    v.iter().map(|(k, t)| Piece { kind: *k, text: t.to_string() }).collect()
}

#[test]
fn labels_pad_like_format_width() {
    for label in ["", "Grid", "Spatial res.", "exactly sixteen!", "much longer than sixteen", "σ velocity"] {
        assert_eq!(pad_right(label, 16), format!("{:<16}", label));
    }
}

#[test]
fn text_field_line_pieces() {
    let mut f = FormField::text_with_unit("Extent", "4.0", "kpc");
    assert_eq!(
        f.line_pieces(),
        pieces(&[
            (PieceKind::Label, "Extent          "),
            (PieceKind::Value, "4.0"),
            (PieceKind::Cursor, ""),
            (PieceKind::Unit, " kpc"),
        ])
    );
    assert_eq!(f.highlight(), Highlight::Plain);
    f.set_focused(true);
    assert_eq!(f.line_pieces().last().unwrap(), &Piece { kind: PieceKind::EditHint, text: "  [Enter to edit]".to_string() });
    assert_eq!(f.highlight(), Highlight::Focused);
    f.handle_key(key(KeyCode::Enter));
    f.set_error(Some("not a number".to_string()));
    assert_eq!(
        f.line_pieces(),
        pieces(&[
            (PieceKind::ErrorLabel, "Extent          "),
            (PieceKind::EditedValue, "4.0"),
            (PieceKind::Cursor, "▎"),
            (PieceKind::Unit, " kpc"),
            (PieceKind::EditingHint, "  [editing]"),
            (PieceKind::Error, "  ✗ not a number"),
        ])
    );
    assert_eq!(f.highlight(), Highlight::Editing);
}

#[test]
fn dropdown_and_toggle_line_pieces() {
    let d = FormField::dropdown("Integrator", vec!["strang".to_string(), "yoshida".to_string()], 1);
    assert_eq!(
        d.line_pieces(),
        pieces(&[(PieceKind::Label, "Integrator      "), (PieceKind::Choice, "◄ yoshida ►")])
    );
    let past = FormField::dropdown("Integrator", vec![], 3);
    assert_eq!(past.line_pieces()[1].text, "◄ — ►");
    let mut t = FormField::toggle("LoMaC", false);
    assert_eq!(t.line_pieces(), pieces(&[(PieceKind::Label, "LoMaC           "), (PieceKind::Off, "○ OFF")]));
    t.set_focused(true);
    t.handle_key(key(KeyCode::Enter));
    assert_eq!(t.line_pieces()[1], Piece { kind: PieceKind::On, text: "● ON ".to_string() });
    assert_eq!(t.highlight(), Highlight::Focused);
}

#[test]
fn grid_sampling_picks_nearest_cells() {
    for (nx, ny) in [(1usize, 1usize), (3, 5), (16, 16), (100, 7)] {
        for (w, h) in [(1usize, 1usize), (4, 3), (40, 20), (7, 100)] {
            for row in 0..h {
                for col in 0..w {
                    let i = sample_index(col, row, w, h, nx, ny);
                    let expected = (row * ny / h).min(ny - 1) * nx + (col * nx / w).min(nx - 1);
                    assert_eq!(i, expected);
                    assert!(i < nx * ny);
                }
            }
        }
    }
    assert_eq!(sample_index(39, 19, 40, 20, 16, 16), 15 * 16 + 15);
    assert_eq!(sample_index(0, 0, 40, 20, 16, 16), 0);
}
