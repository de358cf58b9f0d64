use pixfetch::cli::Info;
use pixfetch::info::{
    battery_line, colors1, colors2, filter_kinds, format_uptime, host_line, is_blacklisted,
    memory_line, os_string, packages_line, shell_name, swap_line, user_host, BatteryCharge,
    HostLine, Probe,
};

#[test]
fn uptime_zero_seconds() {
    assert_eq!(format_uptime(0), "0m");
}

#[test]
fn uptime_one_day_one_hour() {
    assert_eq!(format_uptime(90000), "1d 1h 0m");
}

#[test]
fn uptime_one_hour() {
    assert_eq!(format_uptime(3600), "1h 0m");
}

#[test]
fn uptime_middle_units() {
    assert_eq!(format_uptime(59), "0m");
    assert_eq!(format_uptime(60), "1m");
    // Only leading zero units are omitted: a zero hour count after a
    // nonzero day count is kept.
    assert_eq!(format_uptime(86460), "1d 0h 1m");
    assert_eq!(format_uptime(86400), "1d 0h 0m");
    assert_eq!(format_uptime(2 * 86400 + 3 * 3600 + 4 * 60), "2d 3h 4m");
}

#[test]
fn memory_two_decimals() {
    assert_eq!(
        memory_line(1073741824, 2147483648),
        "1.00GB / 2.00GB"
    );
    assert_eq!(memory_line(1610612736, 4294967296), "1.50GB / 4.00GB");
    assert_eq!(memory_line(0, 1073741824), "0.00GB / 1.00GB");
}

#[test]
fn swap_absent_when_unconfigured() {
    assert_eq!(swap_line(0, 0), None);
    assert_eq!(
        swap_line(536870912, 1073741824),
        Some("0.50GB / 1.00GB".to_string())
    );
}

#[test]
fn os_joins_name_and_version() {
    assert_eq!(
        os_string(Some("Debian GNU/Linux".into()), Some("11".into()), false),
        Some("Debian GNU/Linux 11".to_string())
    );
}

#[test]
fn os_rolling_release_keeps_name_only() {
    assert_eq!(
        os_string(Some("Arch Linux".into()), Some("rolling".into()), false),
        Some("Arch Linux".to_string())
    );
}

#[test]
fn os_android_special_case() {
    assert_eq!(
        os_string(Some("ignored".into()), Some("13".into()), true),
        Some("Android 13".to_string())
    );
}

#[test]
fn os_missing_pieces() {
    assert_eq!(os_string(None, Some("11".into()), false), None);
    assert_eq!(
        os_string(Some("Gentoo".into()), None, false),
        Some("Gentoo".to_string())
    );
    assert_eq!(os_string(None, None, false), None);
}

#[test]
fn identity_line() {
    assert_eq!(user_host("user", "host"), "user@host");
}

#[test]
fn shell_is_path_basename() {
    assert_eq!(shell_name("/bin/zsh"), Some("zsh".to_string()));
    assert_eq!(shell_name("zsh"), None);
}

#[test]
fn host_placeholder_words_are_filtered() {
    assert!(is_blacklisted("To"));
    assert!(is_blacklisted("O.E.M."));
    assert!(!is_blacklisted("ThinkPad"));
    match host_line(Some("ThinkPad X1\n".into()), Some("Gen 9".into()), None) {
        HostLine::Text(t) => assert_eq!(t, "ThinkPad X1 Gen 9 "),
        _ => panic!("expected a host text"),
    }
}

#[test]
fn host_all_placeholders_fall_back() {
    // Every word of every source is a placeholder; an absent source would
    // contribute empty words, which survive the filter.
    match host_line(
        Some("To Be Filled\n".into()),
        Some("By".into()),
        Some("O.E.M.".into()),
    ) {
        HostLine::ArchFallback => {}
        _ => panic!("expected the architecture fallback"),
    }
}

#[test]
fn host_missing_sources_leave_empty_words() {
    // A missing source still contributes its separator, and the empty words
    // are not placeholders: the join is just a space, not the fallback.
    match host_line(Some("To Be Filled By O.E.M.".into()), None, None) {
        HostLine::Text(t) => assert_eq!(t, " "),
        _ => panic!("expected a host text"),
    }
}

#[test]
fn host_without_sources_is_absent() {
    match host_line(None, None, None) {
        HostLine::NoSource => {}
        _ => panic!("expected no source"),
    }
}

#[test]
fn packages_first_success_wins() {
    let probes = vec![
        Probe {
            manager: "pacman".to_string(),
            output: None,
        },
        Probe {
            manager: "dpkg".to_string(),
            output: Some("a\nb\nc\n".to_string()),
        },
        Probe {
            manager: "rpm".to_string(),
            output: Some("x\n".to_string()),
        },
    ];
    assert_eq!(packages_line(&probes), Some("3 (dpkg)".to_string()));
}

#[test]
fn packages_empty_output_counts_one() {
    let probes = vec![Probe {
        manager: "kiss".to_string(),
        output: Some("".to_string()),
    }];
    assert_eq!(packages_line(&probes), Some("1 (kiss)".to_string()));
}

#[test]
fn packages_absent_without_success() {
    let probes = vec![
        Probe {
            manager: "pacman".to_string(),
            output: None,
        },
        Probe {
            manager: "dpkg".to_string(),
            output: None,
        },
    ];
    assert_eq!(packages_line(&probes), None);
}

#[test]
fn battery_suffixes() {
    assert_eq!(battery_line("85", BatteryCharge::Charging), "85%, charging");
    assert_eq!(
        battery_line("23", BatteryCharge::Discharging),
        "23%, discharging"
    );
    assert_eq!(battery_line("100", BatteryCharge::Other), "100%");
}

#[test]
fn palette_lines_are_fixed() {
    assert_eq!(
        colors1(),
        "\u{1b}[40m   \u{1b}[41m   \u{1b}[42m   \u{1b}[43m   \u{1b}[44m   \u{1b}[45m   \u{1b}[46m   \u{1b}[47m   \u{1b}[0m"
    );
    assert_eq!(
        colors2(),
        "\u{1b}[48;5;8m   \u{1b}[48;5;9m   \u{1b}[48;5;10m   \u{1b}[48;5;11m   \u{1b}[48;5;12m   \u{1b}[48;5;13m   \u{1b}[48;5;14m   \u{1b}[48;5;15m   \u{1b}[0m"
    );
}

#[test]
fn kind_labels() {
    assert_eq!(Info::OS.label(), "OS");
    assert_eq!(Info::UserAtHostname.label(), "UserAtHostname");
    assert_eq!(Info::Seperator.label(), "Seperator");
}

#[test]
fn all_kinds_in_report_order() {
    let all = Info::value_variants();
    assert_eq!(all.len(), 15);
    assert_eq!(all[0], Info::UserAtHostname);
    assert_eq!(all[1], Info::OS);
    assert_eq!(all[12], Info::Seperator);
    assert_eq!(all[14], Info::Colors2);
}

#[test]
fn filtering_without_lists_keeps_all() {
    let kinds = filter_kinds(&None, &None);
    assert_eq!(kinds, Info::value_variants());
}

#[test]
fn deny_list_excludes() {
    let kinds = filter_kinds(&None, &Some(vec![Info::CPU, Info::Swap]));
    assert!(!kinds.contains(&Info::CPU));
    assert!(!kinds.contains(&Info::Swap));
    assert_eq!(kinds.len(), 13);
}

#[test]
fn allow_list_restricts() {
    let kinds = filter_kinds(&Some(vec![Info::CPU, Info::OS]), &None);
    assert_eq!(kinds, vec![Info::OS, Info::CPU]);
}

#[test]
fn deny_beats_allow() {
    // A kind on both lists is excluded.
    let kinds = filter_kinds(&Some(vec![Info::CPU]), &Some(vec![Info::CPU]));
    assert!(!kinds.contains(&Info::CPU));
    assert!(kinds.is_empty());
}
