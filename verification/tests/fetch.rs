use rendition_cache::codec::is_encodable;
use rendition_cache::fetch::{
    fetch_begin, fetch_complete, fetch_respond, key_of_request, respond_with, FetchOutcome,
    FetchRequest, FetchResponse, FetchStep, OriginFetch, ServingConfig,
};
use rendition_cache::format::ImageFormat;
use rendition_cache::key::CacheKey;
use rendition_cache::preset::PresetTable;
use rendition_cache::store::CacheStore;

fn config() -> ServingConfig {
    let mut presets = PresetTable::new();
    presets.insert("thumb".to_string());
    presets.insert("small".to_string());
    ServingConfig {
        default_preset: "thumb".to_string(),
        default_format: ImageFormat::WebP,
        presets,
    }
}

fn request(resource_id: u64, preset: Option<&str>, format: Option<ImageFormat>) -> FetchRequest {
    FetchRequest { resource_id, preset: preset.map(|p| p.to_string()), format, encode: None }
}

fn key(resource_id: u64, preset: &str, format: ImageFormat) -> CacheKey {
    CacheKey::new(resource_id, preset.to_string(), format)
}

fn found(payload: &[u8], format: ImageFormat) -> FetchOutcome {
    FetchOutcome::Found { payload: payload.to_vec(), format }
}

#[test]
fn request_key_uses_defaults_for_what_is_absent() {
    assert_eq!(
        key_of_request(&config(), &request(5, None, None)),
        key(5, "thumb", ImageFormat::WebP)
    );
}

#[test]
fn request_key_takes_what_is_given() {
    assert_eq!(
        key_of_request(&config(), &request(5, Some("small"), Some(ImageFormat::Png))),
        key(5, "small", ImageFormat::Png)
    );
    assert_eq!(
        key_of_request(&config(), &request(5, Some("original"), Some(ImageFormat::Gif))),
        key(5, "original", ImageFormat::Gif)
    );
}

#[test]
fn request_key_never_names_an_unknown_preset() {
    assert_eq!(
        key_of_request(&config(), &request(5, Some("huge"), Some(ImageFormat::Png))),
        key(5, "original", ImageFormat::Png)
    );
}

#[test]
fn hit_returns_the_cached_payload_without_the_origin() {
    let mut cache = CacheStore::new(4);
    cache.set(key(5, "small", ImageFormat::Png), vec![1, 2, 3]);
    let step = fetch_begin(&cache, &config(), &request(5, Some("small"), Some(ImageFormat::Png)));
    assert_eq!(step, FetchStep::Done(found(&[1, 2, 3], ImageFormat::Png)));
    assert_eq!(cache.len(), 1);
}

#[test]
fn hit_through_defaults() {
    let mut cache = CacheStore::new(4);
    cache.set(key(5, "thumb", ImageFormat::WebP), vec![4]);
    let step = fetch_begin(&cache, &config(), &request(5, None, None));
    assert_eq!(step, FetchStep::Done(found(&[4], ImageFormat::WebP)));
}

#[test]
fn miss_asks_the_origin_under_the_resolved_key() {
    let cache = CacheStore::new(4);
    let step = fetch_begin(&cache, &config(), &request(5, Some("huge"), None));
    assert_eq!(step, FetchStep::AskOrigin(key(5, "original", ImageFormat::WebP)));
}

#[test]
fn miss_on_another_format_of_a_cached_resource() {
    let mut cache = CacheStore::new(4);
    cache.set(key(5, "thumb", ImageFormat::WebP), vec![4]);
    let step = fetch_begin(&cache, &config(), &request(5, None, Some(ImageFormat::Png)));
    assert_eq!(step, FetchStep::AskOrigin(key(5, "thumb", ImageFormat::Png)));
}

#[test]
fn bytes_from_the_origin_populate_the_cache() {
    let mut cache = CacheStore::new(4);
    let cfg = config();
    let req = request(5, Some("small"), Some(ImageFormat::Jpeg));
    let asked = match fetch_begin(&cache, &cfg, &req) {
        FetchStep::AskOrigin(key) => key,
        other => panic!("expected a miss, got {:?}", other),
    };
    let outcome = fetch_complete(&mut cache, asked, OriginFetch::Bytes(vec![7, 7]));
    assert_eq!(outcome, found(&[7, 7], ImageFormat::Jpeg));
    assert_eq!(fetch_begin(&cache, &cfg, &req), FetchStep::Done(found(&[7, 7], ImageFormat::Jpeg)));
    assert_eq!(cache.len(), 1);
}

#[test]
fn unknown_preset_shares_the_entry_of_original() {
    let mut cache = CacheStore::new(4);
    let cfg = config();
    let unknown = request(5, Some("nonexistent-xyz"), Some(ImageFormat::Png));
    let original = request(5, Some("original"), Some(ImageFormat::Png));
    assert_eq!(key_of_request(&cfg, &unknown), key_of_request(&cfg, &original));
    assert_eq!(fetch_begin(&cache, &cfg, &unknown), fetch_begin(&cache, &cfg, &original));

    let asked = key_of_request(&cfg, &unknown);
    fetch_complete(&mut cache, asked, OriginFetch::Bytes(vec![1]));
    let hit = FetchStep::Done(found(&[1], ImageFormat::Png));
    assert_eq!(fetch_begin(&cache, &cfg, &original), hit);
    assert_eq!(fetch_begin(&cache, &cfg, &unknown), hit);
    assert!(!cache.contains(&key(5, "nonexistent-xyz", ImageFormat::Png)));
}

#[test]
fn absence_is_not_cached() {
    let mut cache = CacheStore::new(4);
    let cfg = config();
    let req = request(404, None, None);
    let miss = FetchStep::AskOrigin(key(404, "thumb", ImageFormat::WebP));

    assert_eq!(fetch_begin(&cache, &cfg, &req), miss);
    let first = fetch_complete(&mut cache, key_of_request(&cfg, &req), OriginFetch::Absent);
    assert_eq!(first, FetchOutcome::NotFound);
    assert_eq!(cache.len(), 0);

    assert_eq!(fetch_begin(&cache, &cfg, &req), miss);
    let second = fetch_complete(&mut cache, key_of_request(&cfg, &req), OriginFetch::Absent);
    assert_eq!(second, FetchOutcome::NotFound);
    assert_eq!(cache.len(), 0);
}

#[test]
fn origin_failure_is_passed_on_and_not_cached() {
    let mut cache = CacheStore::new(4);
    cache.set(key(1, "thumb", ImageFormat::WebP), vec![1]);
    let outcome = fetch_complete(
        &mut cache,
        key(5, "thumb", ImageFormat::WebP),
        OriginFetch::Failed("backend timed out".to_string()),
    );
    assert_eq!(outcome, FetchOutcome::Error("backend timed out".to_string()));
    assert_eq!(cache.len(), 1);
    assert_eq!(cache.get(&key(1, "thumb", ImageFormat::WebP)), Some(vec![1]));
    assert!(!cache.contains(&key(5, "thumb", ImageFormat::WebP)));
}

#[test]
fn later_completion_of_the_same_key_wins() {
    let mut cache = CacheStore::new(2);
    let k = key(5, "thumb", ImageFormat::WebP);
    cache.set(key(1, "thumb", ImageFormat::WebP), vec![1]);
    fetch_complete(&mut cache, k.clone(), OriginFetch::Bytes(vec![2]));
    fetch_complete(&mut cache, k.clone(), OriginFetch::Bytes(vec![3, 3]));
    assert_eq!(cache.len(), 2);
    assert_eq!(cache.get(&k), Some(vec![3, 3]));
    assert_eq!(cache.get(&key(1, "thumb", ImageFormat::WebP)), Some(vec![1]));
}

#[test]
fn population_at_capacity_evicts_the_oldest() {
    let mut cache = CacheStore::new(1);
    fetch_complete(&mut cache, key(1, "thumb", ImageFormat::WebP), OriginFetch::Bytes(vec![1]));
    fetch_complete(&mut cache, key(2, "thumb", ImageFormat::WebP), OriginFetch::Bytes(vec![2]));
    assert_eq!(cache.get(&key(1, "thumb", ImageFormat::WebP)), None);
    assert_eq!(cache.get(&key(2, "thumb", ImageFormat::WebP)), Some(vec![2]));
}

#[test]
fn response_is_binary_unless_encoding_is_asked_for() {
    let image = FetchResponse::Image { format: ImageFormat::Png, bytes: b"hello".to_vec() };
    assert_eq!(fetch_respond(found(b"hello", ImageFormat::Png), None), image);
    assert_eq!(fetch_respond(found(b"hello", ImageFormat::Png), Some(false)), image);
}

#[test]
fn response_is_base64_text_when_asked_for() {
    assert_eq!(
        fetch_respond(found(b"hello", ImageFormat::Png), Some(true)),
        FetchResponse::EncodedImage { text: "aGVsbG8=".to_string() }
    );
    assert_eq!(
        fetch_respond(found(&[0xff, 0xd8, 0xff, 0xe0], ImageFormat::Jpeg), Some(true)),
        FetchResponse::EncodedImage { text: "/9j/4A==".to_string() }
    );
    assert_eq!(
        fetch_respond(found(&[], ImageFormat::Jpeg), Some(true)),
        FetchResponse::EncodedImage { text: String::new() }
    );
}

#[test]
fn encoding_does_not_touch_other_outcomes() {
    assert_eq!(fetch_respond(FetchOutcome::NotFound, Some(true)), FetchResponse::NotFound);
    assert_eq!(
        fetch_respond(FetchOutcome::Error("boom".to_string()), Some(true)),
        FetchResponse::Error("boom".to_string())
    );
    assert_eq!(fetch_respond(FetchOutcome::NotFound, None), FetchResponse::NotFound);
}

#[test]
fn cache_holds_the_binary_form_whatever_the_client_asked() {
    let mut cache = CacheStore::new(2);
    let cfg = config();
    let mut req = request(5, None, None);
    req.encode = Some(true);
    let outcome = fetch_complete(
        &mut cache,
        key_of_request(&cfg, &req),
        OriginFetch::Bytes(b"hello".to_vec()),
    );
    assert_eq!(
        fetch_respond(outcome, req.encode),
        FetchResponse::EncodedImage { text: "aGVsbG8=".to_string() }
    );
    assert_eq!(cache.get(&key(5, "thumb", ImageFormat::WebP)), Some(b"hello".to_vec()));
}

#[test]
fn encoded_text_has_four_symbols_per_three_bytes() {
    let lengths = [(0usize, 0usize), (1, 4), (2, 4), (3, 4), (4, 8), (5, 8), (6, 8), (7, 12)];
    for (bytes, symbols) in lengths {
        let payload = vec![0xa5u8; bytes];
        match fetch_respond(found(&payload, ImageFormat::Png), Some(true)) {
            FetchResponse::EncodedImage { text } => assert_eq!(text.len(), symbols),
            other => panic!("expected encoded text, got {:?}", other),
        }
    }
}

#[test]
fn encodable_lengths() {
    let limit = (isize::MAX as usize / 4) * 3;
    assert!(is_encodable(0));
    assert!(is_encodable(1));
    assert!(is_encodable(limit));
    assert!(!is_encodable(limit + 1));
    assert!(!is_encodable(isize::MAX as usize));
    assert!(!is_encodable(usize::MAX));
}

#[test]
fn found_payload_goes_out_as_the_text_it_is_given() {
    assert_eq!(
        respond_with(found(b"hello", ImageFormat::Png), Some("aGVsbG8=".to_string())),
        FetchResponse::EncodedImage { text: "aGVsbG8=".to_string() }
    );
    assert_eq!(
        respond_with(found(b"hello", ImageFormat::Gif), None),
        FetchResponse::Image { format: ImageFormat::Gif, bytes: b"hello".to_vec() }
    );
}

#[test]
fn text_is_dropped_where_nothing_was_found() {
    assert_eq!(
        respond_with(FetchOutcome::NotFound, Some("aGVsbG8=".to_string())),
        FetchResponse::NotFound
    );
    assert_eq!(
        respond_with(FetchOutcome::Error("boom".to_string()), Some("aGVsbG8=".to_string())),
        FetchResponse::Error("boom".to_string())
    );
}
