use phasma::config_files::{config_list, has_toml_extension, sort_texts, text_le};
use phasma::history::History;
use phasma::tabs::rank::{format_bytes, per_node_rows};
use phasma::text::{lines, non_blank_lines};

fn strings(v: &[&str]) -> Vec<String> {
    v.iter().map(|s| s.to_string()).collect()
}

#[test]
fn lines_split_like_str_lines() {
    for text in ["", "a", "a\n", "a\r\nb", "\n\nx\r\n", "x\ry\n", "a\n\r\n", "one\ntwo\r\nthree"] {
        let expected: Vec<String> = text.lines().map(|l| l.to_string()).collect();
        assert_eq!(lines(text), expected, "{text:?}");
    }
    assert_eq!(non_blank_lines(" a \n\t\n\nb"), strings(&[" a ", "b"]));
}

#[test]
fn toml_extension() {
    assert!(has_toml_extension("configs/plummer.toml"));
    assert!(has_toml_extension("a.b.toml"));
    assert!(!has_toml_extension("configs/.toml"));
    assert!(!has_toml_extension("configs/plummer.tom"));
    assert!(!has_toml_extension("configs.toml/readme"));
}

#[test]
fn texts_sort_like_strings() {
    let v = strings(&["b", "a", "B", "ab", "", "a", "é", "z"]);
    let mut expected = v.clone();
    expected.sort();
    assert_eq!(sort_texts(v), expected);
    assert!(text_le("ab", "b"));
    assert!(text_le("a", "ab"));
    assert!(!text_le("b", "ab"));
    assert!(text_le("", ""));
    assert_eq!(
        config_list(strings(&["c/z.toml", "c/x.txt", "c/a.toml", "c/a.toml"])),
        strings(&["c/a.toml", "c/a.toml", "c/z.toml"])
    );
}

#[test]
fn history_keeps_the_latest() {
    let mut h: History<u32> = History::new(3);
    for x in 1..=5 {
        h.push(x);
    }
    assert_eq!(h.len(), 3);
    assert_eq!((*h.get(0), *h.get(1), *h.get(2)), (3, 4, 5));
    h.clear();
    assert_eq!(h.len(), 0);
}

fn float_format_bytes(bytes: usize) -> String {
    const KB: f64 = 1024.0;
    const MB: f64 = 1024.0 * 1024.0;
    const GB: f64 = 1024.0 * 1024.0 * 1024.0;
    let b = bytes as f64;
    if b >= GB {
        format!("{:.2} GB", b / GB)
    } else if b >= MB {
        format!("{:.2} MB", b / MB)
    } else if b >= KB {
        format!("{:.1} KB", b / KB)
    } else {
        format!("{bytes} B")
    }
}

#[test]
fn byte_counts() {
    assert_eq!(format_bytes(0), "0 B");
    assert_eq!(format_bytes(1023), "1023 B");
    assert_eq!(format_bytes(1024), "1.0 KB");
    assert_eq!(format_bytes(1536), "1.5 KB");
    assert_eq!(format_bytes(3 * 1024 * 1024 + 262144), "3.25 MB");
    assert_eq!(format_bytes(1 << 30), "1.00 GB");
    let mut samples: Vec<usize> = vec![1280, 1331, 1382, 4608, 10240, 1048575, 1048576, 5767168, 1073741823, usize::MAX];
    let mut x: usize = 1;
    while x < usize::MAX / 3 {
        samples.push(x);
        samples.push(x + x / 2);
        samples.push(x * 5 / 4);
        x = x * 3 + 7;
    }
    for k in 40..64usize {
        let unit = if k >= 53 { 1usize << (k - 53) } else { 1 };
        samples.push((1usize << k) + unit / 2);
        samples.push((1usize << k) + unit + unit / 2);
        samples.push((1usize << k) - 1);
    }
    for b in 1000..5000 {
        samples.push(b);
        samples.push(b * 1000 + 12345);
    }
    for b in samples {
        assert_eq!(format_bytes(b), float_format_bytes(b), "{b}");
    }
}

#[test]
fn listing_order_does_not_matter() {
    let listing = strings(&["c/king.toml", "c/a.txt", "c/nfw.toml", "c/debug.toml", "c/nfw.toml"]);
    let mut reversed = listing.clone();
    reversed.reverse();
    assert_eq!(config_list(listing), config_list(reversed));
}

#[test]
fn per_node_rank_table() {
    let labels = ["x₁", "x₂", "x₃", "v₁", "v₂", "v₃", "{x₂,x₃}", "{v₂,v₃}", "{x₁..x₃}", "{v₁..v₃}", "root"];
    let ranks = vec![4, 4, 4, 8, 8, 8, 12, 16];
    let rows = per_node_rows(&ranks);
    assert_eq!(rows.len(), 11);
    for (i, row) in rows.iter().enumerate() {
        assert_eq!(row.0, format!("{i:>2}"));
        assert_eq!(row.1, labels[i]);
        let rank = ranks.get(i).copied().unwrap_or(0);
        assert_eq!(row.2, format!("{rank}"));
    }
    assert_eq!(rows[10], ("10".to_string(), "root", "0".to_string()));
}
