use pixfetch::cli::Info;
use pixfetch::compose::{compose, styled_fact};

#[test]
fn line_count_is_max_of_both() {
    let no_lines: Vec<String> = vec![];
    let no_facts: Vec<(Info, String)> = vec![];
    assert_eq!(compose(&no_lines, &no_facts, 30, 2, 3, true).len(), 0);

    let img = vec!["a".to_string(), "b".to_string(), "c".to_string()];
    let facts = vec![(Info::OS, "x".to_string())];
    assert_eq!(compose(&img, &facts, 30, 2, 3, true).len(), 3);

    let img = vec!["a".to_string()];
    let facts = vec![
        (Info::OS, "x".to_string()),
        (Info::Host, "y".to_string()),
        (Info::Kernel, "z".to_string()),
        (Info::Shell, "w".to_string()),
    ];
    assert_eq!(compose(&img, &facts, 30, 2, 3, true).len(), 4);
}

#[test]
fn labelled_fact_cell() {
    assert_eq!(
        styled_fact(Info::OS, "Arch Linux", 4, true),
        "\u{1b}[1;34mOS:      \u{1b}[0m Arch Linux"
    );
    assert_eq!(
        styled_fact(Info::OS, "Arch Linux", 4, false),
        "\u{1b}[1;34mOS       \u{1b}[0m Arch Linux"
    );
}

#[test]
fn long_labels_are_not_truncated() {
    assert_eq!(
        styled_fact(Info::Terminal, "kitty", 1, true),
        "\u{1b}[1;31mTerminal:\u{1b}[0m kitty"
    );
}

#[test]
fn identity_uses_next_color() {
    assert_eq!(
        styled_fact(Info::UserAtHostname, "u@h", 4, true),
        "\u{1b}[1;35mu@h\u{1b}[0m"
    );
    // The next color wraps around the palette.
    assert_eq!(
        styled_fact(Info::UserAtHostname, "u@h", 7, true),
        "\u{1b}[1;30mu@h\u{1b}[0m"
    );
}

#[test]
fn palette_and_separator_cells() {
    assert_eq!(styled_fact(Info::Colors1, "RAW", 4, true), "RAW");
    assert_eq!(styled_fact(Info::Seperator, "ignored", 4, true), "");
}

#[test]
fn image_column_pads_and_gaps() {
    let img = vec!["IMG".to_string()];
    let facts = vec![
        (Info::Seperator, String::new()),
        (Info::OS, "Arch".to_string()),
    ];
    let lines = compose(&img, &facts, 5, 2, 4, true);
    assert_eq!(lines.len(), 2);
    // First line: the image cell, the gap, and an empty separator cell.
    assert_eq!(lines[0], "IMG  ");
    // Second line: five padding spaces, the gap, then the styled fact.
    assert_eq!(lines[1], "       \u{1b}[1;34mOS:      \u{1b}[0m Arch");
}

#[test]
fn gap_width_is_configurable() {
    let img = vec!["I".to_string()];
    let facts: Vec<(Info, String)> = vec![];
    let lines = compose(&img, &facts, 5, 0, 4, true);
    assert_eq!(lines[0], "I");
    let lines = compose(&img, &facts, 5, 10, 4, true);
    assert_eq!(lines[0], "I          ");
}
