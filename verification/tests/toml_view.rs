use phasma::tabs::toml_view::{comment_notes, source_rows, toml_title, Note, SourceRow};

fn strings(v: &[&str]) -> Vec<String> {
    v.iter().map(|s| s.to_string()).collect()
}

#[test]
fn notes_take_title_sections_and_blanks() {
    let source = strings(&[
        "#",
        "# Plummer sphere",
        "#   indented note",
        "##no space",
        "[domain]",
        "# box size",
        "#",
        "extent = 4.0",
        "[[species]]",
        "# after array header",
    ]);
    assert_eq!(
        comment_notes(&source),
        vec![
            Note::Title("Plummer sphere".to_string()),
            Note::Text("  indented note".to_string()),
            Note::Text("no space".to_string()),
            Note::Blank,
            Note::Text("box size".to_string()),
            Note::Blank,
            Note::Text("after array header".to_string()),
        ]
    );
}

#[test]
fn notes_blank_before_title_after_section() {
    let source = strings(&["[a]", "#", "# Title"]);
    assert_eq!(
        comment_notes(&source),
        vec![Note::Blank, Note::Title("Title".to_string())]
    );
    assert_eq!(comment_notes(&strings(&["x = 1", "[y]"])), Vec::<Note>::new());
}

#[test]
fn source_rows_skip_comments_and_split_pairs() {
    let source = strings(&[
        "# heading",
        "[domain]",
        "  extent = 4.0",
        "",
        "name=plain",
        "a = b = c",
        "   # indented comment",
    ]);
    assert_eq!(
        source_rows(&source),
        vec![
            SourceRow::Section(2, "[domain]".to_string()),
            SourceRow::Pair(3, "  extent".to_string(), "4.0".to_string()),
            SourceRow::Plain(4, "".to_string()),
            SourceRow::Plain(5, "name=plain".to_string()),
            SourceRow::Pair(6, "a".to_string(), "b = c".to_string()),
        ]
    );
}

#[test]
fn source_rows_multibyte_key() {
    let source = strings(&["σ_v = 0.5"]);
    assert_eq!(
        source_rows(&source),
        vec![SourceRow::Pair(1, "σ_v".to_string(), "0.5".to_string())]
    );
}

#[test]
fn toml_panel_title() {
    assert_eq!(toml_title(0, 0), " TOML ");
    assert_eq!(toml_title(0, 12), " TOML [1/12] ");
    assert_eq!(toml_title(4, 12), " TOML [5/12] ");
    assert_eq!(toml_title(40, 12), " TOML [12/12] ");
}
