use meteo_station::image_cache::{ChartKey, ImageCache};

fn key(version: u64, width: u16, height: u16) -> ChartKey {
    ChartKey { version, width, height }
}

#[test]
fn image_cache_starts_empty() {
    let cache: ImageCache<String> = ImageCache::new();
    assert!(!cache.is_current("temp", key(0, 10, 5)));
    assert_eq!(cache.get("temp"), None);
}

#[test]
fn image_cache_store_then_read_back() {
    let mut cache = ImageCache::new();
    cache.store("temp", key(3, 40, 10), "esc-temp".to_string());
    cache.store("sky", key(3, 40, 10), "esc-sky".to_string());
    assert!(cache.is_current("temp", key(3, 40, 10)));
    assert_eq!(cache.get("temp"), Some(&"esc-temp".to_string()));
    assert_eq!(cache.get("sky"), Some(&"esc-sky".to_string()));
    assert!(!cache.is_current("temp", key(4, 40, 10)));
    assert!(!cache.is_current("temp", key(3, 41, 10)));
    assert!(!cache.is_current("temp", key(3, 40, 11)));
    cache.store("temp", key(4, 40, 10), "esc-temp-2".to_string());
    assert_eq!(cache.get("temp"), Some(&"esc-temp-2".to_string()));
    assert_eq!(cache.get("sky"), Some(&"esc-sky".to_string()));
}

#[test]
fn image_cache_refresh_rebuilds_only_on_key_change() {
    let mut cache = ImageCache::new();
    let mut builds = 0_u32;
    cache.refresh("press", key(1, 20, 8), || {
        builds += 1;
        format!("img-{builds}")
    });
    assert_eq!(builds, 1);
    cache.refresh("press", key(1, 20, 8), || {
        builds += 1;
        format!("img-{builds}")
    });
    assert_eq!(builds, 1, "same version and size must not re-rasterize");
    assert_eq!(cache.get("press"), Some(&"img-1".to_string()));
    cache.refresh("press", key(2, 20, 8), || {
        builds += 1;
        format!("img-{builds}")
    });
    assert_eq!(builds, 2, "a new data version re-rasterizes");
    cache.refresh("press", key(2, 21, 8), || {
        builds += 1;
        format!("img-{builds}")
    });
    assert_eq!(builds, 3, "a resize re-rasterizes");
    assert_eq!(cache.get("press"), Some(&"img-3".to_string()));
}
