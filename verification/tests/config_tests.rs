use pixfetch::cli;
use pixfetch::config::{config_path, expand_path, Config};
use pixfetch::error::Error;

fn file_config() -> Config {
    Config::default()
}

#[test]
fn validated_accepts_defaults() {
    let c = file_config();
    assert!(c.validated().is_ok());
}

#[test]
fn validated_accepts_bounds() {
    let mut c = file_config();
    c.max_width = Some(5);
    c.color_override = Some(7);
    c.gap = Some(10);
    assert!(c.validated().is_ok());
    let mut c = file_config();
    c.max_width = Some(50);
    c.color_override = Some(0);
    c.gap = Some(0);
    assert!(c.validated().is_ok());
}

#[test]
fn validated_rejects_width() {
    let mut c = file_config();
    c.max_width = Some(4);
    match c.validated() {
        Err(Error::InvalidConfig(m)) => {
            assert_eq!(m, "The specified max_width `4` is not between 5 and 50")
        }
        _ => panic!("expected an invalid-config error"),
    }
    let mut c = file_config();
    c.max_width = Some(51);
    assert!(c.validated().is_err());
}

#[test]
fn validated_rejects_color() {
    let mut c = file_config();
    c.color_override = Some(8);
    match c.validated() {
        Err(Error::InvalidConfig(m)) => {
            assert_eq!(m, "The specified color `8` is not between 0 and 7")
        }
        _ => panic!("expected an invalid-config error"),
    }
}

#[test]
fn validated_rejects_gap() {
    let mut c = file_config();
    c.gap = Some(11);
    match c.validated() {
        Err(Error::InvalidConfig(m)) => {
            assert_eq!(m, "The specified gap `11` is not between 0 and 10")
        }
        _ => panic!("expected an invalid-config error"),
    }
}

#[test]
fn validated_reports_width_first() {
    let mut c = file_config();
    c.max_width = Some(100);
    c.color_override = Some(9);
    match c.validated() {
        Err(Error::InvalidConfig(m)) => {
            assert_eq!(m, "The specified max_width `100` is not between 5 and 50")
        }
        _ => panic!("expected an invalid-config error"),
    }
}

#[test]
fn merged_prefers_flags() {
    let mut flags = cli::Config::default();
    flags.max_width = Some(40);
    flags.show_colons = Some(false);
    let mut file = file_config();
    file.max_width = Some(20);
    file.alpha_threshold = Some(99);
    let m = Config::merged(flags, file);
    assert_eq!(m.max_width, Some(40));
    assert_eq!(m.show_colons, Some(false));
    assert_eq!(m.alpha_threshold, Some(99));
    assert_eq!(m.gap, None);
}

#[test]
fn config_path_conventions() {
    assert_eq!(
        config_path(Some("/xdg".into()), Some("/home/u".into())).unwrap(),
        "/xdg/pixfetch/config.toml"
    );
    assert_eq!(
        config_path(None, Some("/home/u".into())).unwrap(),
        "/home/u/.config/pixfetch/config.toml"
    );
    match config_path(None, None) {
        Err(e) => assert_eq!(
            e.message(),
            "Neither an XDG_CONFIG_HOME nor a HOME environment variable is set"
        ),
        Ok(_) => panic!("expected an error without base directories"),
    }
}

#[test]
fn error_messages_carry_their_text() {
    assert_eq!(Error::IO("io failed".to_string()).message(), "io failed");
    assert_eq!(Error::Parse("bad toml".to_string()).message(), "bad toml");
    assert_eq!(
        Error::InvalidConfig("out of range".to_string()).message(),
        "out of range"
    );
}

#[test]
fn expand_path_tilde() {
    assert_eq!(
        expand_path("~/img.png", Some("/home/u")),
        Some("/home/u/img.png".to_string())
    );
    assert_eq!(expand_path("~/img.png", None), None);
    assert_eq!(
        expand_path("/abs/img.png", None),
        Some("/abs/img.png".to_string())
    );
    assert_eq!(expand_path("~", None), Some("~".to_string()));
}
