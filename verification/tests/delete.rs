use rendition_cache::delete::{delete_complete, DeleteOutcome, OriginDelete};
use rendition_cache::fetch::{
    fetch_begin, fetch_complete, FetchOutcome, FetchRequest, FetchStep, OriginFetch, ServingConfig,
};
use rendition_cache::format::ImageFormat;
use rendition_cache::key::CacheKey;
use rendition_cache::preset::PresetTable;
use rendition_cache::store::CacheStore;

fn config() -> ServingConfig {
    let mut presets = PresetTable::new();
    presets.insert("thumb".to_string());
    ServingConfig {
        default_preset: "original".to_string(),
        default_format: ImageFormat::Png,
        presets,
    }
}

fn key(resource_id: u64, preset: &str, format: ImageFormat) -> CacheKey {
    CacheKey::new(resource_id, preset.to_string(), format)
}

#[test]
fn delete_purges_all_four_renditions() {
    let cfg = config();
    let mut cache = CacheStore::new(16);
    let presets = ["original", "thumb"];
    let formats = [ImageFormat::Png, ImageFormat::Jpeg];
    for preset in presets {
        for format in formats {
            cache.set(key(9, preset, format), b"old".to_vec());
        }
    }
    cache.set(key(10, "thumb", ImageFormat::Png), b"other".to_vec());

    let outcome = delete_complete(&mut cache, 9, OriginDelete::Deleted);
    assert_eq!(outcome, DeleteOutcome::Deleted { resource_id: 9 });
    assert_eq!(cache.len(), 1);

    for preset in presets {
        for format in formats {
            let request = FetchRequest {
                resource_id: 9,
                preset: Some(preset.to_string()),
                format: Some(format),
                encode: None,
            };
            // The cache no longer answers; the origin is asked, and what it
            // still returns is what the client gets.
            let asked = match fetch_begin(&cache, &cfg, &request) {
                FetchStep::AskOrigin(key) => key,
                other => panic!("served from cache after delete: {:?}", other),
            };
            assert_eq!(asked, key(9, preset, format));
            let outcome = fetch_complete(&mut cache, asked, OriginFetch::Bytes(b"new".to_vec()));
            assert_eq!(outcome, FetchOutcome::Found { payload: b"new".to_vec(), format });
        }
    }
    assert_eq!(cache.get(&key(10, "thumb", ImageFormat::Png)), Some(b"other".to_vec()));
}

#[test]
fn delete_of_a_resource_never_seen_succeeds() {
    let mut cache = CacheStore::new(4);
    cache.set(key(1, "original", ImageFormat::Png), vec![1]);
    let outcome = delete_complete(&mut cache, 12345, OriginDelete::Deleted);
    assert_eq!(outcome, DeleteOutcome::Deleted { resource_id: 12345 });
    assert_eq!(cache.len(), 1);
    assert_eq!(cache.get(&key(1, "original", ImageFormat::Png)), Some(vec![1]));
}

#[test]
fn delete_on_an_empty_cache_succeeds() {
    let mut cache = CacheStore::new(1);
    assert_eq!(
        delete_complete(&mut cache, 0, OriginDelete::Deleted),
        DeleteOutcome::Deleted { resource_id: 0 }
    );
    assert_eq!(cache.len(), 0);
}

#[test]
fn deleting_twice_succeeds_twice() {
    let mut cache = CacheStore::new(4);
    cache.set(key(3, "thumb", ImageFormat::Gif), vec![1]);
    assert_eq!(
        delete_complete(&mut cache, 3, OriginDelete::Deleted),
        DeleteOutcome::Deleted { resource_id: 3 }
    );
    assert_eq!(
        delete_complete(&mut cache, 3, OriginDelete::Deleted),
        DeleteOutcome::Deleted { resource_id: 3 }
    );
    assert_eq!(cache.len(), 0);
}

#[test]
fn failed_delete_keeps_the_cache() {
    let mut cache = CacheStore::new(4);
    cache.set(key(3, "thumb", ImageFormat::Gif), vec![1]);
    cache.set(key(3, "original", ImageFormat::Gif), vec![2]);
    let outcome =
        delete_complete(&mut cache, 3, OriginDelete::Failed("storage unavailable".to_string()));
    assert_eq!(outcome, DeleteOutcome::Error("storage unavailable".to_string()));
    assert_eq!(cache.len(), 2);
    assert_eq!(cache.get(&key(3, "thumb", ImageFormat::Gif)), Some(vec![1]));
    assert_eq!(cache.get(&key(3, "original", ImageFormat::Gif)), Some(vec![2]));
}
