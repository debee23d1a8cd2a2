use phasma::cli::{long_version, short_version};

#[test]
fn short_version_forms() {
    assert_eq!(short_version("0.0.5", None, None), "0.0.5 (unknown)");
    assert_eq!(short_version("0.0.5", Some(""), Some("2026-03-10")), "0.0.5 (2026-03-10)");
    assert_eq!(short_version("0.0.5", Some("g1a2b3c"), Some("2026-03-10")), "0.0.5-g1a2b3c (2026-03-10)");
}

#[test]
fn long_version_lists_authors_and_directories() {
    assert_eq!(
        long_version("0.0.5 (unknown)", "A. Author", "/home/u/.config/phasma", "/home/u/.local/share/phasma"),
        "0.0.5 (unknown)\n\nAuthors: A. Author\n\nConfig directory: /home/u/.config/phasma\nData directory: /home/u/.local/share/phasma"
    );
}
