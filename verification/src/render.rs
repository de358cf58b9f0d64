//! The render step and the run's orchestration: answer from the cache when
//! the record matches, render the image bytes otherwise, split the text into
//! lines, compose the report, and say what record to persist.

use vstd::prelude::*;

use crate::cache::{
    eff_aliasing, eff_threshold, eff_width, fnv1a_spec, lookup, lookup_spec, store, store_spec,
    stored_view, Cache,
};
use crate::cli::Info;
use crate::compose::{compose, infos_view, report_line};
use crate::config::{eff_color, eff_gap, eff_show_colons, in_range, Config};
use crate::strutil::{split_spec, split_string, trim_char, trimmed, views_of};

verus! {

/// The height bound handed to the renderer: in effect unbounded, the width
/// alone decides the scale.
pub const MAX_RENDER_HEIGHT: usize = 1000;

/// What the image renderer returns for given bytes and parameters: colored
/// half-block text for a decodable image, nothing for an undecodable one.
/// The result depends on the arguments alone.
pub uninterp spec fn rendered_image(
    bytes: Seq<u8>,
    max_width: usize,
    max_height: usize,
    threshold: u8,
    aliasing: bool,
    raw: bool,
) -> Option<Seq<char>>;

/// Relies on ansipix::of_image_bytes_with_filter: converts image bytes to
/// colored text, deterministically in its arguments, and fails exactly on
/// bytes it cannot decode as an image. The error case carries that error's
/// text.
#[verifier::external_body]
fn render_image(
    bytes: &Vec<u8>,
    max_width: usize,
    max_height: usize,
    threshold: u8,
    aliasing: bool,
    raw: bool,
) -> (r: Result<String, String>)
    ensures
        match r {
            Result::Ok(s) => rendered_image(bytes@, max_width, max_height, threshold, aliasing, raw)
                == Option::Some(s@),
            Result::Err(_) => rendered_image(
                bytes@,
                max_width,
                max_height,
                threshold,
                aliasing,
                raw,
            ) is None,
        },
{
    let filter = if aliasing {
        ansipix::FilterType::Triangle
    } else {
        ansipix::FilterType::Nearest
    };
    match ansipix::of_image_bytes_with_filter(
        bytes.as_slice(),
        (max_width, max_height),
        threshold,
        raw,
        filter,
    ) {
        Ok(s) => Ok(s),
        Err(e) => Err(format!("{}", e)),
    }
}

/// The text this run shows for the image: the cached text on a hit, else
/// what the renderer returns, nothing when it fails.
pub open spec fn report_text(
    c: Config,
    bytes: Seq<u8>,
    stored: Option<crate::cache::CacheView>,
) -> Option<Seq<char>> {
    match lookup_spec(c, bytes, stored) {
        Option::Some(t) => Option::Some(t),
        Option::None => rendered_image(
            bytes,
            eff_width(c) as usize,
            MAX_RENDER_HEIGHT,
            eff_threshold(c),
            eff_aliasing(c),
            false,
        ),
    }
}

/// Answer from the cache or render afresh. The flag says whether the cache
/// answered; a render failure is the fatal error case.
pub fn render_with_cache(config: &Config, bytes: &Vec<u8>, stored: Option<Cache>) -> (r: Result<
    (String, bool),
    String,
>)
    ensures
        match r {
            Result::Ok(p) => report_text(*config, bytes@, stored_view(stored)) == Option::Some(
                p.0@,
            ) && p.1 == lookup_spec(*config, bytes@, stored_view(stored)) is Some,
            Result::Err(_) => report_text(*config, bytes@, stored_view(stored)) is None,
        },
{
    match lookup(config, bytes, stored) {
        Option::Some(text) => Result::Ok((text, true)),
        Option::None => {
            let width = match config.max_width {
                Option::Some(w) => w,
                Option::None => crate::DEFAULT_MAX_WIDTH,
            };
            let threshold = match config.alpha_threshold {
                Option::Some(t) => t,
                Option::None => crate::DEFAULT_ALPHA_THRESHOLD,
            };
            let aliasing = match config.aliasing {
                Option::Some(a) => a,
                Option::None => crate::DEFAULT_ALIASING,
            };
            match render_image(
                bytes,
                width as usize,
                MAX_RENDER_HEIGHT,
                threshold,
                aliasing,
                false,
            ) {
                Result::Ok(img) => Result::Ok((img, false)),
                Result::Err(e) => Result::Err(e),
            }
        },
    }
}

/// The rendered text's lines: split at newlines after trimming the leading
/// and trailing blank lines.
pub fn image_lines(img: &str) -> (r: Vec<String>)
    ensures
        views_of(r@) == split_spec(trimmed(img@, '\n'), '\n'),
{
    let t = trim_char(img, '\n');
    split_string(t.as_str(), '\n')
}

/// One run's whole report: the image text from cache or renderer, its lines
/// zipped with the resolved facts, and the record to persist — a fresh one
/// exactly when the text had to be rendered, none when the cache answered or
/// caching is off.
pub fn build_report(
    config: &Config,
    bytes: &Vec<u8>,
    stored: Option<Cache>,
    infos: &Vec<(Info, String)>,
    accent: u8,
) -> (r: Result<(Vec<String>, Option<Cache>), String>)
    requires
        in_range(*config),
        accent <= 7,
    ensures
        match r {
            Result::Ok(p) => {
                &&& report_text(*config, bytes@, stored_view(stored)) is Some
                &&& {
                    let text = report_text(*config, bytes@, stored_view(stored))->0;
                    let lines = split_spec(trimmed(text, '\n'), '\n');
                    &&& p.0@.len() == if lines.len() > infos@.len() {
                        lines.len()
                    } else {
                        infos@.len()
                    }
                    &&& forall|i: int|
                        0 <= i < p.0@.len() ==> (#[trigger] p.0@[i])@ == report_line(
                            lines,
                            infos_view(infos@),
                            i,
                            eff_width(*config) as nat,
                            eff_gap(*config) as nat,
                            eff_color(*config, accent),
                            eff_show_colons(*config),
                        )
                    &&& stored_view(p.1) == if lookup_spec(
                        *config,
                        bytes@,
                        stored_view(stored),
                    ) is Some {
                        Option::<crate::cache::CacheView>::None
                    } else {
                        store_spec(*config, bytes@, text)
                    }
                }
            },
            Result::Err(_) => report_text(*config, bytes@, stored_view(stored)) is None,
        },
{
    let (img_str, used_cache) = match render_with_cache(config, bytes, stored) {
        Result::Ok(p) => p,
        Result::Err(e) => {
            return Result::Err(e);
        },
    };
    let lines = image_lines(img_str.as_str());
    let width = match config.max_width {
        Option::Some(w) => w,
        Option::None => crate::DEFAULT_MAX_WIDTH,
    };
    let gap = match config.gap {
        Option::Some(g) => g,
        Option::None => crate::DEFAULT_GAP,
    };
    let col = match config.color_override {
        Option::Some(c) => c,
        Option::None => accent,
    };
    let show_colons = match config.show_colons {
        Option::Some(b) => b,
        Option::None => crate::DEFAULT_SHOW_COLONS,
    };
    let report = compose(&lines, infos, width, gap, col, show_colons);
    let record = if !used_cache {
        store(config, bytes, img_str)
    } else {
        Option::None
    };
    Result::Ok((report, record))
}

} // verus!
