//! The content-addressed render cache. A record is valid for reuse iff its
//! stored image fingerprint and all three rendering parameters equal the
//! current run's; any mismatch is a full miss. Reading and writing the single
//! persisted record is the caller's I/O; the decisions live here.

use vstd::prelude::*;

use crate::config::Config;
use crate::{DEFAULT_ALIASING, DEFAULT_ALPHA_THRESHOLD, DEFAULT_MAX_WIDTH, DEFAULT_SKIP_CACHE};

verus! {

/// Offset basis of the 64-bit FNV-1a hash.
pub const FNV_OFFSET: u64 = 0xcbf29ce484222325;

/// Prime of the 64-bit FNV-1a hash.
pub const FNV_PRIME: u64 = 0x100000001b3;

/// One FNV-1a step: fold one byte into the running hash.
pub open spec fn fnv_step(h: u64, b: u8) -> u64 {
    (h ^ (b as u64)).wrapping_mul(FNV_PRIME)
}

/// The 64-bit FNV-1a hash of a byte sequence: the image fingerprint.
pub open spec fn fnv1a_spec(bytes: Seq<u8>) -> u64
    decreases bytes.len(),
{
    if bytes.len() == 0 {
        FNV_OFFSET
    } else {
        fnv_step(fnv1a_spec(bytes.drop_last()), bytes.last())
    }
}

/// The 64-bit FNV-1a hash of the image bytes.
pub fn fnv1a(bytes: &Vec<u8>) -> (r: u64)
    ensures
        r == fnv1a_spec(bytes@),
{
    let mut h: u64 = FNV_OFFSET;
    let mut i: usize = 0;
    proof {
        assert(bytes@.subrange(0, 0) =~= Seq::<u8>::empty());
    }
    while i < bytes.len()
        invariant
            i <= bytes@.len(),
            h == fnv1a_spec(bytes@.subrange(0, i as int)),
        decreases bytes@.len() - i,
    {
        h = (h ^ (bytes[i] as u64)).wrapping_mul(FNV_PRIME);
        proof {
            assert(bytes@.subrange(0, i + 1).drop_last() =~= bytes@.subrange(0, i as int));
        }
        i = i + 1;
    }
    proof {
        assert(bytes@.subrange(0, bytes@.len() as int) =~= bytes@);
    }
    h
}

/// One persisted render: the image fingerprint, the three parameters that
/// determined the rendered text, and that text.
#[derive(Debug)]
pub struct Cache {
    pub image_hash: u64,
    pub max_width: u8,
    pub alpha_threshold: u8,
    pub aliasing: bool,
    pub image: String,
}

/// The mathematical shape of a cache record.
pub struct CacheView {
    pub image_hash: u64,
    pub max_width: u8,
    pub alpha_threshold: u8,
    pub aliasing: bool,
    pub image: Seq<char>,
}

impl View for Cache {
    type V = CacheView;

    open spec fn view(&self) -> CacheView {
        CacheView {
            image_hash: self.image_hash,
            max_width: self.max_width,
            alpha_threshold: self.alpha_threshold,
            aliasing: self.aliasing,
            image: self.image@,
        }
    }
}

/// The image width the run renders with.
pub open spec fn eff_width(c: Config) -> u8 {
    match c.max_width {
        Option::Some(w) => w,
        Option::None => DEFAULT_MAX_WIDTH,
    }
}

/// The alpha threshold the run renders with.
pub open spec fn eff_threshold(c: Config) -> u8 {
    match c.alpha_threshold {
        Option::Some(t) => t,
        Option::None => DEFAULT_ALPHA_THRESHOLD,
    }
}

/// The antialiasing setting the run renders with.
pub open spec fn eff_aliasing(c: Config) -> bool {
    match c.aliasing {
        Option::Some(a) => a,
        Option::None => DEFAULT_ALIASING,
    }
}

/// Whether the run skips the cache.
pub open spec fn eff_skip(c: Config) -> bool {
    match c.skip_cache {
        Option::Some(s) => s,
        Option::None => DEFAULT_SKIP_CACHE,
    }
}

/// What `lookup` returns: the stored text exactly when caching is on, a
/// record is at hand, and its fingerprint and all three parameters equal the
/// run's; every mismatch is a miss.
pub open spec fn lookup_spec(c: Config, image: Seq<u8>, stored: Option<CacheView>) -> Option<
    Seq<char>,
> {
    if eff_skip(c) {
        Option::None
    } else {
        match stored {
            Option::None => Option::None,
            Option::Some(rec) => {
                if rec.max_width == eff_width(c) && rec.alpha_threshold == eff_threshold(c)
                    && rec.aliasing == eff_aliasing(c) && rec.image_hash == fnv1a_spec(image) {
                    Option::Some(rec.image)
                } else {
                    Option::None
                }
            },
        }
    }
}

/// What `store` persists: nothing when caching is off, else a fresh record of
/// the run's fingerprint, parameters and rendered text.
pub open spec fn store_spec(c: Config, image: Seq<u8>, text: Seq<char>) -> Option<CacheView> {
    if eff_skip(c) {
        Option::None
    } else {
        Option::Some(
            CacheView {
                image_hash: fnv1a_spec(image),
                max_width: eff_width(c),
                alpha_threshold: eff_threshold(c),
                aliasing: eff_aliasing(c),
                image: text,
            },
        )
    }
}

/// The view of an optional record.
pub open spec fn stored_view(stored: Option<Cache>) -> Option<CacheView> {
    match stored {
        Option::Some(rec) => Option::Some(rec@),
        Option::None => Option::None,
    }
}

/// Decide whether a persisted record answers this run: the stored text on a
/// full match of fingerprint and parameters, nothing otherwise or when
/// caching is off. The record comes from the caller, who read (or failed to
/// read) the single persisted file.
pub fn lookup(config: &Config, image: &Vec<u8>, stored: Option<Cache>) -> (r: Option<String>)
    ensures
        match r {
            Option::Some(t) => lookup_spec(*config, image@, stored_view(stored)) == Option::Some(
                t@,
            ),
            Option::None => lookup_spec(*config, image@, stored_view(stored)) is None,
        },
{
    let skip = match config.skip_cache {
        Option::Some(s) => s,
        Option::None => DEFAULT_SKIP_CACHE,
    };
    if skip {
        return Option::None;
    }
    let rec = match stored {
        Option::Some(rec) => rec,
        Option::None => {
            return Option::None;
        },
    };
    let width = match config.max_width {
        Option::Some(w) => w,
        Option::None => DEFAULT_MAX_WIDTH,
    };
    let threshold = match config.alpha_threshold {
        Option::Some(t) => t,
        Option::None => DEFAULT_ALPHA_THRESHOLD,
    };
    let aliasing = match config.aliasing {
        Option::Some(a) => a,
        Option::None => DEFAULT_ALIASING,
    };
    if rec.max_width == width && rec.alpha_threshold == threshold && rec.aliasing == aliasing
        && rec.image_hash == fnv1a(image) {
        Option::Some(rec.image)
    } else {
        Option::None
    }
}

/// Build the record to persist for this run, or nothing when caching is off.
/// Writing it over the previous record is the caller's I/O, and a failure to
/// write is to be ignored there.
pub fn store(config: &Config, image: &Vec<u8>, image_str: String) -> (r: Option<Cache>)
    ensures
        stored_view(r) == store_spec(*config, image@, image_str@),
{
    let skip = match config.skip_cache {
        Option::Some(s) => s,
        Option::None => DEFAULT_SKIP_CACHE,
    };
    if skip {
        return Option::None;
    }
    let width = match config.max_width {
        Option::Some(w) => w,
        Option::None => DEFAULT_MAX_WIDTH,
    };
    let threshold = match config.alpha_threshold {
        Option::Some(t) => t,
        Option::None => DEFAULT_ALPHA_THRESHOLD,
    };
    let aliasing = match config.aliasing {
        Option::Some(a) => a,
        Option::None => DEFAULT_ALIASING,
    };
    Option::Some(
        Cache {
            image_hash: fnv1a(image),
            max_width: width,
            alpha_threshold: threshold,
            aliasing: aliasing,
            image: image_str,
        },
    )
}

/// Looking a record up right after storing it, with the same image bytes and
/// the same parameters, gives back exactly the stored text. (With the cache
/// skipped, nothing is stored and nothing found.)
pub proof fn lemma_cache_round_trip(c: Config, image: Seq<u8>, text: Seq<char>)
    requires
        !eff_skip(c),
    ensures
        store_spec(c, image, text) is Some,
        lookup_spec(c, image, store_spec(c, image, text)) == Option::Some(text),
{
}

/// The cache key is complete: between store and lookup, a drift in any one of
/// max_width, alpha_threshold, antialiasing or the image fingerprint forces a
/// miss.
pub proof fn lemma_cache_key_complete(
    c1: Config,
    c2: Config,
    b1: Seq<u8>,
    b2: Seq<u8>,
    text: Seq<char>,
)
    requires
        eff_width(c2) != eff_width(c1) || eff_threshold(c2) != eff_threshold(c1) || eff_aliasing(
            c2,
        ) != eff_aliasing(c1) || fnv1a_spec(b2) != fnv1a_spec(b1),
    ensures
        lookup_spec(c2, b2, store_spec(c1, b1, text)) is None,
{
}

/// Where the cache file lives: under an explicit cache base directory when
/// one is given, else under a home directory, else nowhere — and with no
/// location, caching is unavailable.
pub open spec fn cache_path_spec(xdg: Option<Seq<char>>, home: Option<Seq<char>>) -> Option<
    Seq<char>,
> {
    match xdg {
        Option::Some(x) => Option::Some(x + "/pixfetch/cache.toml"@),
        Option::None => match home {
            Option::Some(h) => Option::Some(h + "/.cache/pixfetch/cache.toml"@),
            Option::None => Option::None,
        },
    }
}

/// Derive the cache-file path from the two base-directory conventions, the
/// first taking precedence.
pub fn cache_path(xdg: Option<String>, home: Option<String>) -> (r: Option<String>)
    ensures
        match r {
            Option::Some(p) => cache_path_spec(
                crate::config::option_view(xdg),
                crate::config::option_view(home),
            ) == Option::Some(p@),
            Option::None => cache_path_spec(
                crate::config::option_view(xdg),
                crate::config::option_view(home),
            ) is None,
        },
{
    if let Option::Some(x) = xdg {
        let mut p = x;
        p.append("/pixfetch/cache.toml");
        Option::Some(p)
    } else if let Option::Some(h) = home {
        let mut p = h;
        p.append("/.cache/pixfetch/cache.toml");
        Option::Some(p)
    } else {
        Option::None
    }
}

} // verus!
