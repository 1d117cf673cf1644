use mutagen_core::runtime_config::parse_u32;
use mutagen_core::MutagenRuntimeConfig;

#[test]
fn parse_plain_number() {
    assert_eq!(parse_u32(b"7"), Some(7));
    assert_eq!(parse_u32(b"42"), Some(42));
    assert_eq!(parse_u32(b"0"), Some(0));
    assert_eq!(parse_u32(b"007"), Some(7));
}

#[test]
fn parse_plus_sign() {
    assert_eq!(parse_u32(b"+42"), Some(42));
    assert_eq!(parse_u32(b"+"), None);
    assert_eq!(parse_u32(b"++1"), None);
}

#[test]
fn parse_rejects_malformed() {
    assert_eq!(parse_u32(b""), None);
    assert_eq!(parse_u32(b"abc"), None);
    assert_eq!(parse_u32(b"12x"), None);
    assert_eq!(parse_u32(b"-1"), None);
    assert_eq!(parse_u32(b" 1"), None);
    assert_eq!(parse_u32(b"1 "), None);
}

#[test]
fn parse_bounds() {
    assert_eq!(parse_u32(b"4294967295"), Some(u32::MAX));
    assert_eq!(parse_u32(b"4294967296"), None);
    assert_eq!(parse_u32(b"99999999999999999999"), None);
}

#[test]
fn from_env_value_defaults_to_baseline() {
    assert_eq!(MutagenRuntimeConfig::from_env_value(None).mutation_id, 0);
    assert_eq!(
        MutagenRuntimeConfig::from_env_value(Some(b"junk")).mutation_id,
        0
    );
    assert_eq!(
        MutagenRuntimeConfig::from_env_value(Some(b"3")).mutation_id,
        3
    );
}

#[test]
fn get_default_initializes_once() {
    let mut cache: Option<MutagenRuntimeConfig> = None;
    let first = MutagenRuntimeConfig::get_default(&mut cache, Some(b"5"));
    assert_eq!(first.mutation_id, 5);
    // a later environment value no longer matters: the cached one wins
    let second = MutagenRuntimeConfig::get_default(&mut cache, Some(b"9"));
    assert_eq!(second.mutation_id, 5);
    let third = MutagenRuntimeConfig::get_default(&mut cache, None);
    assert_eq!(third.mutation_id, 5);
}

#[test]
fn is_mutation_active_exact_match() {
    let config = MutagenRuntimeConfig::with_mutation_id(3);
    assert!(config.is_mutation_active(3));
    assert!(!config.is_mutation_active(0));
    assert!(!config.is_mutation_active(2));
    assert!(!config.is_mutation_active(4));
    let baseline = MutagenRuntimeConfig::without_mutation();
    assert!(!baseline.is_mutation_active(1));
    assert!(!baseline.is_mutation_active(2));
}

#[test]
fn in_bounds_half_open_range() {
    let config = MutagenRuntimeConfig::with_mutation_id(5);
    assert!(config.in_bounds(5, 1));
    assert!(config.in_bounds(5, 3));
    assert!(config.in_bounds(3, 3));
    assert!(!config.in_bounds(5, 0));
    assert!(!config.in_bounds(6, 3));
    assert!(!config.in_bounds(2, 3));
    assert!(!config.in_bounds(u32::MAX, 1));
}

#[test]
fn get_mutation_offsets_into_slice() {
    let config = MutagenRuntimeConfig::with_mutation_id(5);
    let records = ["first", "second", "third"];
    assert_eq!(config.get_mutation(5, &records), Some(&"first"));
    assert_eq!(config.get_mutation(4, &records), Some(&"second"));
    assert_eq!(config.get_mutation(3, &records), Some(&"third"));
    // the active id precedes the site's range
    assert_eq!(config.get_mutation(6, &records), None);
    // the active id overshoots the site's range
    assert_eq!(config.get_mutation(2, &records), None);
}
