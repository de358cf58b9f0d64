use pixfetch::cache::{cache_path, fnv1a, lookup, store, Cache};
use pixfetch::config::Config;

fn caching_config() -> Config {
    Config::default()
}

#[test]
fn fingerprint_is_fnv1a() {
    // Published FNV-1a 64-bit test vectors.
    assert_eq!(fnv1a(&vec![]), 0xcbf29ce484222325);
    assert_eq!(fnv1a(&vec![b'a']), 0xaf63dc4c8601ec8c);
    assert_eq!(fnv1a(&b"foobar".to_vec()), 0x85944171f73967e8);
}

#[test]
fn fingerprint_separates_inputs() {
    assert_ne!(fnv1a(&vec![1, 2, 3]), fnv1a(&vec![1, 2, 4]));
    assert_ne!(fnv1a(&vec![]), fnv1a(&vec![0]));
}

#[test]
fn round_trip_returns_stored_text() {
    let config = caching_config();
    let bytes = vec![9u8, 8, 7];
    let rec = store(&config, &bytes, "rendered text".to_string());
    assert!(rec.is_some());
    assert_eq!(
        lookup(&config, &bytes, rec),
        Some("rendered text".to_string())
    );
}

#[test]
fn width_drift_misses() {
    // Store with width 30, look up with width 31: a full miss.
    let mut config = caching_config();
    config.max_width = Some(30);
    config.alpha_threshold = Some(50);
    config.aliasing = Some(false);
    let bytes = vec![1u8, 2, 3];
    let rec = store(&config, &bytes, "X".to_string());
    let mut changed = caching_config();
    changed.max_width = Some(31);
    changed.alpha_threshold = Some(50);
    changed.aliasing = Some(false);
    assert_eq!(lookup(&changed, &bytes, rec), None);
}

#[test]
fn threshold_drift_misses() {
    let config = caching_config();
    let bytes = vec![1u8];
    let rec = store(&config, &bytes, "X".to_string());
    let mut changed = caching_config();
    changed.alpha_threshold = Some(51);
    assert_eq!(lookup(&changed, &bytes, rec), None);
}

#[test]
fn aliasing_drift_misses() {
    let config = caching_config();
    let bytes = vec![1u8];
    let rec = store(&config, &bytes, "X".to_string());
    let mut changed = caching_config();
    changed.aliasing = Some(true);
    assert_eq!(lookup(&changed, &bytes, rec), None);
}

#[test]
fn image_drift_misses() {
    let config = caching_config();
    let rec = store(&config, &vec![1u8, 2, 3], "X".to_string());
    assert_eq!(lookup(&config, &vec![1u8, 2, 4], rec), None);
}

#[test]
fn skip_cache_disables_both() {
    let mut config = caching_config();
    config.skip_cache = Some(true);
    let bytes = vec![1u8];
    assert!(store(&config, &bytes, "X".to_string()).is_none());
    let rec = Cache {
        image_hash: fnv1a(&bytes),
        max_width: 30,
        alpha_threshold: 50,
        aliasing: false,
        image: "X".to_string(),
    };
    assert_eq!(lookup(&config, &bytes, Some(rec)), None);
}

#[test]
fn defaults_match_explicit_parameters() {
    // A record stored under the defaults answers a lookup that spells the
    // same parameters out.
    let config = caching_config();
    let bytes = vec![5u8, 5];
    let rec = store(&config, &bytes, "Y".to_string());
    let mut explicit = caching_config();
    explicit.max_width = Some(30);
    explicit.alpha_threshold = Some(50);
    explicit.aliasing = Some(false);
    assert_eq!(lookup(&explicit, &bytes, rec), Some("Y".to_string()));
}

#[test]
fn cache_path_conventions() {
    assert_eq!(
        cache_path(Some("/xdg".into()), None),
        Some("/xdg/pixfetch/cache.toml".to_string())
    );
    assert_eq!(
        cache_path(None, Some("/home/u".into())),
        Some("/home/u/.cache/pixfetch/cache.toml".to_string())
    );
    assert_eq!(cache_path(None, None), None);
}
