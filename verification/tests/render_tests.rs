use pixfetch::cache::{store, Cache};
use pixfetch::cli::Info;
use pixfetch::config::Config;
use pixfetch::render::{build_report, image_lines, render_with_cache};

// A 5x2 image: the top row red, the bottom row blue, all opaque.
const TEST_PNG: &[u8] = &[
    137, 80, 78, 71, 13, 10, 26, 10, 0, 0, 0, 13, 73, 72, 68, 82, 0, 0, 0, 5, 0, 0, 0, 2, 8, 6,
    0, 0, 0, 144, 106, 22, 93, 0, 0, 0, 19, 73, 68, 65, 84, 120, 156, 99, 248, 207, 192, 240, 31,
    29, 51, 96, 17, 251, 15, 0, 152, 159, 19, 237, 109, 54, 246, 219, 0, 0, 0, 0, 73, 69, 78, 68,
    174, 66, 96, 130,
];

// One rendered cell of that image: blue foreground under a red background,
// drawn with the lower-half block.
const CELL: &str = "\u{1b}[38;2;0;0;255;48;2;255;0;0m\u{2584}\u{1b}[0m";

fn five_wide() -> Config {
    let mut c = Config::default();
    c.max_width = Some(5);
    c
}

#[test]
fn rendering_converts_the_bytes() {
    let mut config = five_wide();
    config.skip_cache = Some(true);
    let bytes = TEST_PNG.to_vec();
    let (img, used_cache) = render_with_cache(&config, &bytes, None).unwrap();
    assert!(!used_cache);
    let expected: String = format!("{}{}{}{}{}\n", CELL, CELL, CELL, CELL, CELL);
    assert_eq!(img, expected);
}

#[test]
fn undecodable_bytes_fail() {
    let mut config = five_wide();
    config.skip_cache = Some(true);
    let bytes = vec![1u8, 2, 3, 4];
    assert!(render_with_cache(&config, &bytes, None).is_err());
}

#[test]
fn cache_hit_answers_without_rendering() {
    // The bytes are no image at all: only the matching record can answer.
    let config = five_wide();
    let bytes = vec![42u8; 16];
    let rec = store(&config, &bytes, "cached art".to_string());
    let (img, used_cache) = render_with_cache(&config, &bytes, rec).unwrap();
    assert!(used_cache);
    assert_eq!(img, "cached art");
}

#[test]
fn stale_record_forces_a_render() {
    let config = five_wide();
    let bytes = TEST_PNG.to_vec();
    let stale = Cache {
        image_hash: 1,
        max_width: 5,
        alpha_threshold: 50,
        aliasing: false,
        image: "stale".to_string(),
    };
    let (img, used_cache) = render_with_cache(&config, &bytes, Some(stale)).unwrap();
    assert!(!used_cache);
    assert!(img.starts_with("\u{1b}[38;2;0;0;255"));
}

#[test]
fn image_lines_trim_and_split() {
    let lines = image_lines("\n\nrow one\nrow two\n\n");
    assert_eq!(lines, vec!["row one".to_string(), "row two".to_string()]);
    let empty = image_lines("");
    assert_eq!(empty, vec!["".to_string()]);
}

#[test]
fn report_zips_image_and_facts() {
    let mut config = five_wide();
    config.gap = Some(2);
    let bytes = TEST_PNG.to_vec();
    let facts = vec![
        (Info::OS, "Arch Linux".to_string()),
        (Info::Kernel, "6.1".to_string()),
    ];
    let (report, record) = build_report(&config, &bytes, None, &facts, 4).unwrap();
    assert_eq!(report.len(), 2);
    let row: String = format!("{}{}{}{}{}", CELL, CELL, CELL, CELL, CELL);
    assert_eq!(
        report[0],
        format!("{}  \u{1b}[1;34mOS:      \u{1b}[0m Arch Linux", row)
    );
    assert_eq!(report[1], "       \u{1b}[1;34mKernel:  \u{1b}[0m 6.1");
    // A miss renders afresh, so a record is handed back for persisting.
    let rec = record.unwrap();
    assert_eq!(rec.max_width, 5);
    assert_eq!(rec.image, format!("{}\n", row));
}

#[test]
fn report_honors_color_override() {
    let mut config = five_wide();
    config.color_override = Some(1);
    config.skip_cache = Some(true);
    let bytes = TEST_PNG.to_vec();
    let facts = vec![(Info::OS, "X".to_string())];
    let (report, record) = build_report(&config, &bytes, None, &facts, 4).unwrap();
    assert!(report[0].contains("\u{1b}[1;31mOS:"));
    assert!(record.is_none());
}

#[test]
fn cached_report_stores_nothing() {
    let config = five_wide();
    let bytes = vec![7u8; 8];
    let rec = store(&config, &bytes, "art\n".to_string());
    let facts: Vec<(Info, String)> = vec![];
    let (report, record) = build_report(&config, &bytes, rec, &facts, 3).unwrap();
    assert_eq!(report, vec!["art  ".to_string()]);
    assert!(record.is_none());
}
