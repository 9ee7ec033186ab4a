use osubot::cache::BeatmapCache;
use osubot::error::PipelineError;

#[test]
fn empty_cache_misses() {
    let cache = BeatmapCache::new();
    assert_eq!(cache.lookup(1), None);
}

#[test]
fn second_get_after_successful_fetch_is_a_hit() {
    let mut cache = BeatmapCache::new();
    assert_eq!(cache.lookup(75), None);
    let first = cache.complete_fetch(75, Some("chart text".to_string()));
    assert_eq!(first, Ok("chart text".to_string()));
    assert_eq!(cache.lookup(75), Some("chart text".to_string()));
    assert_eq!(cache.lookup(75), Some("chart text".to_string()));
    assert_eq!(cache.lookup(76), None);
}

#[test]
fn failed_fetch_is_not_cached() {
    let mut cache = BeatmapCache::new();
    let r = cache.complete_fetch(9, None);
    assert_eq!(r, Err(PipelineError::BeatmapUnavailable));
    assert_eq!(cache.lookup(9), None);
    let r = cache.complete_fetch(9, Some("later".to_string()));
    assert_eq!(r, Ok("later".to_string()));
    assert_eq!(cache.lookup(9), Some("later".to_string()));
}

#[test]
fn stored_charts_are_served() {
    let mut cache = BeatmapCache::new();
    cache.store(3, "from disk".to_string());
    assert_eq!(cache.lookup(3), Some("from disk".to_string()));
}

#[test]
fn first_kept_chart_stays() {
    let mut cache = BeatmapCache::new();
    cache.store(4, "first".to_string());
    cache.store(4, "second".to_string());
    assert_eq!(cache.lookup(4), Some("first".to_string()));
    let r = cache.complete_fetch(4, Some("third".to_string()));
    assert_eq!(r, Ok("first".to_string()));
    assert_eq!(cache.lookup(4), Some("first".to_string()));
}
