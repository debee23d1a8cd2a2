use phasma::action::Action;
use phasma::export_menu::{format_at, format_key, format_name, ExportFormat, ExportMenu, FORMAT_COUNT};
use phasma::keys::{KeyCode, KeyEvent};

fn key(c: KeyCode) -> KeyEvent {
    KeyEvent::plain(c)
}

#[test]
fn formats_in_menu_order() {
    assert_eq!(FORMAT_COUNT, 12);
    let table = [
        ('1', ExportFormat::Screenshot, "SVG screenshot"),
        ('2', ExportFormat::Csv, "CSV time series"),
        ('3', ExportFormat::Json, "JSON time series"),
        ('4', ExportFormat::Parquet, "Parquet time series"),
        ('5', ExportFormat::Toml, "TOML config"),
        ('6', ExportFormat::Vtk, "VTK snapshot"),
        ('7', ExportFormat::Npy, "NumPy .npy"),
        ('8', ExportFormat::Markdown, "Markdown report"),
        ('9', ExportFormat::Animation, "Frame sequence"),
        ('0', ExportFormat::CsvProfiles, "CSV radial profiles"),
        ('a', ExportFormat::ParquetPerformance, "Parquet performance"),
        ('z', ExportFormat::Zip, "ZIP archive"),
    ];
    for (i, (k, f, name)) in table.iter().enumerate() {
        assert_eq!(format_key(i), *k);
        assert_eq!(format_at(i), *f);
        assert_eq!(format_name(i), *name);
    }
}

#[test]
fn toggle_shows_and_forgets_result() {
    let mut m = ExportMenu::default();
    assert!(!m.is_visible());
    m.set_last_result(Some(Ok("out.csv".to_string())));
    m.toggle();
    assert!(m.is_visible());
    assert!(m.last_result.is_none());
    m.toggle();
    assert!(!m.is_visible());
}

#[test]
fn up_down_stay_in_list() {
    let mut m = ExportMenu::default();
    m.toggle();
    assert_eq!(m.handle_key_event(key(KeyCode::Up)), None);
    assert_eq!(m.selected(), 0);
    for _ in 0..20 {
        assert_eq!(m.handle_key_event(key(KeyCode::Down)), None);
    }
    assert_eq!(m.selected(), 11);
    assert_eq!(m.selected_format(), ExportFormat::Zip);
    m.handle_key_event(key(KeyCode::Up));
    assert_eq!(m.selected_format(), ExportFormat::ParquetPerformance);
}

#[test]
fn enter_closes_and_asks_for_export() {
    let mut m = ExportMenu::default();
    m.toggle();
    m.handle_key_event(key(KeyCode::Down));
    assert_eq!(m.handle_key_event(key(KeyCode::Enter)), Some(Action::ExportMenuClose));
    assert!(!m.is_visible());
    assert_eq!(m.selected_format(), ExportFormat::Csv);
}

#[test]
fn escape_closes_without_export() {
    let mut m = ExportMenu::default();
    m.toggle();
    assert_eq!(m.handle_key_event(key(KeyCode::Esc)), None);
    assert!(!m.is_visible());
}

#[test]
fn shortcut_keys_select_and_export() {
    let mut m = ExportMenu::default();
    m.toggle();
    assert_eq!(m.handle_key_event(key(KeyCode::Char('1'))), Some(Action::ExportMenuClose));
    assert_eq!(m.selected_format(), ExportFormat::Screenshot);
    assert!(!m.is_visible());
    m.toggle();
    assert_eq!(m.handle_key_event(key(KeyCode::Char('0'))), Some(Action::ExportMenuClose));
    assert_eq!(m.selected_format(), ExportFormat::CsvProfiles);
    m.toggle();
    assert_eq!(m.handle_key_event(key(KeyCode::Char('a'))), Some(Action::ExportMenuClose));
    assert_eq!(m.selected_format(), ExportFormat::ParquetPerformance);
    m.toggle();
    assert_eq!(m.handle_key_event(key(KeyCode::Char('z'))), Some(Action::ExportMenuClose));
    assert_eq!(m.selected_format(), ExportFormat::Zip);
    m.toggle();
    assert_eq!(m.handle_key_event(key(KeyCode::Char('x'))), None);
    assert_eq!(m.handle_key_event(key(KeyCode::Char('b'))), None);
    assert!(m.is_visible());
    assert_eq!(m.selected(), 11);
}
