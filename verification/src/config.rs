//! The effective configuration: the config-file values, their merge with the
//! command-line flags (a flag always wins), the range validation, and the
//! path conventions for the config file.

use vstd::prelude::*;

use crate::cli;
use crate::error::Error;
use crate::strutil::{dec_str, u64_dec};

verus! {

/// The configuration read from the config file. Field for field the same
/// surface as the flags; a missing field defers to the built-in default.
#[derive(Debug, Default)]
pub struct Config {
    pub max_width: Option<u8>,
    pub alpha_threshold: Option<u8>,
    pub show_colons: Option<bool>,
    pub skip_cache: Option<bool>,
    pub aliasing: Option<bool>,
    pub gap: Option<u8>,
    pub color_override: Option<u8>,
    pub image_override: Option<String>,
    pub info_whitelist: Option<Vec<cli::Info>>,
    pub info_blacklist: Option<Vec<cli::Info>>,
}

/// `a` when present, else `b`.
pub open spec fn first_some<T>(a: Option<T>, b: Option<T>) -> Option<T> {
    match a {
        Option::Some(_) => a,
        Option::None => b,
    }
}

fn pick<T>(a: Option<T>, b: Option<T>) -> (r: Option<T>)
    ensures
        r == first_some(a, b),
{
    match a {
        Option::Some(v) => Option::Some(v),
        Option::None => b,
    }
}

/// Whether the bounded fields all lie in their documented ranges.
pub open spec fn in_range(c: Config) -> bool {
    &&& match c.max_width {
        Option::Some(w) => 5 <= w <= 50,
        Option::None => true,
    }
    &&& match c.color_override {
        Option::Some(col) => col <= 7,
        Option::None => true,
    }
    &&& match c.gap {
        Option::Some(g) => g <= 10,
        Option::None => true,
    }
}

/// The message reported for a `max_width` out of range.
pub open spec fn width_msg(w: u8) -> Seq<char> {
    "The specified max_width `"@ + dec_str(w as nat) + "` is not between 5 and 50"@
}

/// The message reported for a `color_override` out of range.
pub open spec fn color_msg(col: u8) -> Seq<char> {
    "The specified color `"@ + dec_str(col as nat) + "` is not between 0 and 7"@
}

/// The message reported for a `gap` out of range.
pub open spec fn gap_msg(g: u8) -> Seq<char> {
    "The specified gap `"@ + dec_str(g as nat) + "` is not between 0 and 10"@
}

/// The message `validated` reports: the first out-of-range field, checked in
/// the order max_width, color_override, gap.
pub open spec fn invalid_msg(c: Config) -> Seq<char> {
    if c.max_width is Some && !(5 <= c.max_width->0 <= 50) {
        width_msg(c.max_width->0)
    } else if c.color_override is Some && !(c.color_override->0 <= 7) {
        color_msg(c.color_override->0)
    } else {
        gap_msg(c.gap->0)
    }
}

impl Config {
    /// Merge flags over file values: a present flag field wins, an absent one
    /// defers to the file.
    pub fn merged(flags: cli::Config, file: Config) -> (r: Config)
        ensures
            r.max_width == first_some(flags.max_width, file.max_width),
            r.alpha_threshold == first_some(flags.alpha_threshold, file.alpha_threshold),
            r.show_colons == first_some(flags.show_colons, file.show_colons),
            r.skip_cache == first_some(flags.skip_cache, file.skip_cache),
            r.aliasing == first_some(flags.aliasing, file.aliasing),
            r.gap == first_some(flags.gap, file.gap),
            r.color_override == first_some(flags.color_override, file.color_override),
            r.image_override == first_some(flags.image_override, file.image_override),
            r.info_whitelist == first_some(flags.info_whitelist, file.info_whitelist),
            r.info_blacklist == first_some(flags.info_blacklist, file.info_blacklist),
    {
        Config {
            max_width: pick(flags.max_width, file.max_width),
            alpha_threshold: pick(flags.alpha_threshold, file.alpha_threshold),
            show_colons: pick(flags.show_colons, file.show_colons),
            skip_cache: pick(flags.skip_cache, file.skip_cache),
            aliasing: pick(flags.aliasing, file.aliasing),
            gap: pick(flags.gap, file.gap),
            color_override: pick(flags.color_override, file.color_override),
            image_override: pick(flags.image_override, file.image_override),
            info_whitelist: pick(flags.info_whitelist, file.info_whitelist),
            info_blacklist: pick(flags.info_blacklist, file.info_blacklist),
        }
    }

    /// Check every bounded field; out-of-range values are a fatal
    /// configuration error, never clamped. Whether `image_override` names a
    /// regular file is for the caller to check: it takes I/O.
    pub fn validated(self) -> (r: Result<Config, Error>)
        ensures
            match r {
                Result::Ok(c) => in_range(self) && c == self,
                Result::Err(e) => !in_range(self) && (e matches Error::InvalidConfig(m) && m@
                    == invalid_msg(self)),
            },
    {
        if let Option::Some(w) = self.max_width {
            if !(5 <= w && w <= 50) {
                let mut m = String::from_str("The specified max_width `");
                m.append(u64_dec(w as u64).as_str());
                m.append("` is not between 5 and 50");
                return Result::Err(Error::InvalidConfig(m));
            }
        }
        if let Option::Some(col) = self.color_override {
            if !(col <= 7) {
                let mut m = String::from_str("The specified color `");
                m.append(u64_dec(col as u64).as_str());
                m.append("` is not between 0 and 7");
                return Result::Err(Error::InvalidConfig(m));
            }
        }
        if let Option::Some(g) = self.gap {
            if !(g <= 10) {
                let mut m = String::from_str("The specified gap `");
                m.append(u64_dec(g as u64).as_str());
                m.append("` is not between 0 and 10");
                return Result::Err(Error::InvalidConfig(m));
            }
        }
        Result::Ok(self)
    }
}

/// The gap the run composes with.
pub open spec fn eff_gap(c: Config) -> u8 {
    match c.gap {
        Option::Some(g) => g,
        Option::None => crate::DEFAULT_GAP,
    }
}

/// Whether the run's labels carry colons.
pub open spec fn eff_show_colons(c: Config) -> bool {
    match c.show_colons {
        Option::Some(b) => b,
        Option::None => crate::DEFAULT_SHOW_COLONS,
    }
}

/// The accent color the run styles with: the override when one is given,
/// else the resolver's color.
pub open spec fn eff_color(c: Config, accent: u8) -> u8 {
    match c.color_override {
        Option::Some(col) => col,
        Option::None => accent,
    }
}

/// Where the config file lives: under an explicit config base directory when
/// one is given, else under a home directory, else nowhere.
pub open spec fn config_path_spec(xdg: Option<Seq<char>>, home: Option<Seq<char>>) -> Option<
    Seq<char>,
> {
    match xdg {
        Option::Some(x) => Option::Some(x + "/pixfetch/config.toml"@),
        Option::None => match home {
            Option::Some(h) => Option::Some(h + "/.config/pixfetch/config.toml"@),
            Option::None => Option::None,
        },
    }
}

/// Derive the config-file path from the two base-directory conventions, the
/// first taking precedence.
pub fn config_path(xdg: Option<String>, home: Option<String>) -> (r: Result<String, Error>)
    ensures
        match r {
            Result::Ok(p) => config_path_spec(option_view(xdg), option_view(home)) == Option::Some(
                p@,
            ),
            Result::Err(e) => config_path_spec(option_view(xdg), option_view(home)) is None && (
            e matches Error::IO(m) && m@
                == "Neither an XDG_CONFIG_HOME nor a HOME environment variable is set"@),
        },
{
    if let Option::Some(x) = xdg {
        let mut p = x;
        p.append("/pixfetch/config.toml");
        Result::Ok(p)
    } else if let Option::Some(h) = home {
        let mut p = h;
        p.append("/.config/pixfetch/config.toml");
        Result::Ok(p)
    } else {
        Result::Err(Error::IO(String::from_str(
            "Neither an XDG_CONFIG_HOME nor a HOME environment variable is set",
        )))
    }
}

/// The view of an optional string.
pub open spec fn option_view(s: Option<String>) -> Option<Seq<char>> {
    match s {
        Option::Some(v) => Option::Some(v@),
        Option::None => Option::None,
    }
}

/// What a leading `~/` expands to: the home directory followed by the rest of
/// the path, or nothing when no home directory is known.
pub open spec fn expand_path_spec(path: Seq<char>, home: Option<Seq<char>>) -> Option<Seq<char>> {
    if path.len() >= 2 && path.subrange(0, 2) == "~/"@ {
        match home {
            Option::Some(h) => Option::Some(h + path.subrange(1, path.len() as int)),
            Option::None => Option::None,
        }
    } else {
        Option::Some(path)
    }
}

/// Expand a leading `~/` to the home directory; any other path passes
/// through. Nothing is returned when the path needs a home directory and none
/// is known.
pub fn expand_path(path: &str, home: Option<&str>) -> (r: Option<String>)
    ensures
        match r {
            Option::Some(p) => expand_path_spec(path@, option_str_view(home)) == Option::Some(p@),
            Option::None => expand_path_spec(path@, option_str_view(home)) is None,
        },
{
    let l = path.unicode_len();
    let tilde = l >= 2 && {
        let head = path.substring_char(0, 2);
        crate::strutil::eq_str(head, "~/")
    };
    if tilde {
        match home {
            Option::Some(h) => {
                let mut p = String::from_str(h);
                p.append(path.substring_char(1, l));
                Option::Some(p)
            },
            Option::None => Option::None,
        }
    } else {
        Option::Some(String::from_str(path))
    }
}

/// The view of an optional string slice.
pub open spec fn option_str_view(s: Option<&str>) -> Option<Seq<char>> {
    match s {
        Option::Some(v) => Option::Some(v@),
        Option::None => Option::None,
    }
}

} // verus!
