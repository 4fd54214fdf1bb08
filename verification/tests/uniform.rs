use spectrum::config::ConfigError;
use spectrum::uniform::{flatten, uniform_len};

#[test]
fn sources_are_laid_out_one_after_the_other() {
    let quads: Vec<[f32; 4]> = vec![[1.0, 2.0, 1.0, 0.0], [3.5, 4.5, 0.0, 1.0], [9.0, 8.0, -1.0, 0.0]];
    let flat = flatten(&quads);
    assert_eq!(
        flat,
        vec![1.0, 2.0, 1.0, 0.0, 3.5, 4.5, 0.0, 1.0, 9.0, 8.0, -1.0, 0.0]
    );
}

#[test]
fn source_i_starts_at_entry_four_i() {
    let quads: Vec<[u32; 4]> = (0..50u32).map(|i| [i, 100 + i, 200 + i, 300 + i]).collect();
    let flat = flatten(&quads);
    assert_eq!(flat.len(), 200);
    for i in 0..50usize {
        assert_eq!(flat[4 * i], i as u32);
        assert_eq!(flat[4 * i + 1], 100 + i as u32);
        assert_eq!(flat[4 * i + 2], 200 + i as u32);
        assert_eq!(flat[4 * i + 3], 300 + i as u32);
    }
}

#[test]
fn no_sources_give_an_empty_array() {
    let quads: Vec<[f64; 4]> = Vec::new();
    assert!(flatten(&quads).is_empty());
}

#[test]
fn the_array_has_four_entries_for_each_source() {
    assert_eq!(uniform_len(1, 4), Ok(4));
    assert_eq!(uniform_len(10, 1024), Ok(40));
    assert_eq!(uniform_len(256, 1024), Ok(1024));
}

#[test]
fn sources_beyond_the_capacity_are_refused() {
    assert_eq!(uniform_len(257, 1024), Err(ConfigError::TooManySources));
    assert_eq!(uniform_len(1, 3), Err(ConfigError::TooManySources));
    assert_eq!(uniform_len(1, 0), Err(ConfigError::TooManySources));
    assert_eq!(uniform_len(u32::MAX, u32::MAX), Err(ConfigError::TooManySources));
}

#[test]
fn an_array_for_no_source_is_refused() {
    assert_eq!(uniform_len(0, 1024), Err(ConfigError::NoSources));
    assert_eq!(uniform_len(0, 0), Err(ConfigError::NoSources));
}

#[test]
fn the_largest_capacity_takes_a_quarter_of_it() {
    assert_eq!(uniform_len(u32::MAX / 4, u32::MAX), Ok(u32::MAX - 3));
    assert_eq!(uniform_len(u32::MAX / 4 + 1, u32::MAX), Err(ConfigError::TooManySources));
}
