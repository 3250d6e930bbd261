//! What holds of the flows taken together. Each statement here is proved
//! from the models that the flows' contracts are written over.

use vstd::prelude::*;
use crate::codec::base64_decoding;
use crate::delete::{cache_after_delete, outcome_of_delete, DeleteOutcomeModel, OriginDeleteModel};
use crate::fetch::{
    cache_after_fetch,
    fetch_begin_model,
    outcome_of_fetch,
    request_key,
    ConfigModel,
    FetchOutcomeModel,
    FetchStepModel,
    OriginFetchModel,
    RequestModel,
};
use crate::format::ImageFormat;
use crate::ingest::{
    ingest_begin_model,
    ClientFaultModel,
    EnvelopeModel,
    IngestOutcomeModel,
    IngestStepModel,
};
use crate::key::KeyModel;
use crate::preset::original;
use crate::store::{survives, CacheModel, EntryModel};

verus! {

/// `request` with its preset replaced by `name`.
pub open spec fn with_preset(request: RequestModel, name: Seq<char>) -> RequestModel {
    RequestModel { preset: Some(name), ..request }
}

/// A fetch whose key is cached ends at once with exactly the cached payload;
/// the origin is not asked.
pub proof fn law_hit_is_served_from_cache(
    cache: CacheModel,
    config: ConfigModel,
    request: RequestModel,
    payload: Seq<u8>,
)
    requires
        cache.lookup(request_key(config, request)) == Some(payload),
    ensures
        fetch_begin_model(cache, config, request) == FetchStepModel::Done(
            FetchOutcomeModel::Found { payload, format: request_key(config, request).format },
        ),
{
}

/// After a miss that the origin answers with bytes, the same request is a
/// hit: it ends at once with those bytes and the origin is not asked again.
pub proof fn law_miss_populates_cache(
    cache: CacheModel,
    config: ConfigModel,
    request: RequestModel,
    bytes: Seq<u8>,
)
    requires
        cache.wf(),
        cache.lookup(request_key(config, request)) is None,
    ensures
        ({
            let key = request_key(config, request);
            let reply = OriginFetchModel::Bytes(bytes);
            let found = FetchOutcomeModel::Found { payload: bytes, format: key.format };
            &&& fetch_begin_model(cache, config, request) == FetchStepModel::AskOrigin(key)
            &&& outcome_of_fetch(key, reply) == found
            &&& cache_after_fetch(cache, key, reply).wf()
            &&& fetch_begin_model(cache_after_fetch(cache, key, reply), config, request)
                == FetchStepModel::Done(found)
        }),
{
    let key = request_key(config, request);
    cache.lemma_set(key, bytes);
}

/// A preset name that is neither `"original"` nor configured is served as
/// `"original"`: the request has the same key, so the same first step on
/// every cache, and the same outcome and cache for every answer of the
/// origin.
pub proof fn law_unknown_preset_is_original(
    cache: CacheModel,
    config: ConfigModel,
    request: RequestModel,
    name: Seq<char>,
)
    requires
        name != original(),
        !config.presets.contains(name),
    ensures
        request_key(config, with_preset(request, name)) == request_key(
            config,
            with_preset(request, original()),
        ),
        fetch_begin_model(cache, config, with_preset(request, name)) == fetch_begin_model(
            cache,
            config,
            with_preset(request, original()),
        ),
        forall|reply: OriginFetchModel|
            #![trigger outcome_of_fetch(request_key(config, with_preset(request, name)), reply)]
            outcome_of_fetch(request_key(config, with_preset(request, name)), reply)
                == outcome_of_fetch(request_key(config, with_preset(request, original())), reply),
        forall|reply: OriginFetchModel|
            #![trigger cache_after_fetch(cache, request_key(config, with_preset(request, name)), reply)]
            cache_after_fetch(cache, request_key(config, with_preset(request, name)), reply)
                == cache_after_fetch(
                cache,
                request_key(config, with_preset(request, original())),
                reply,
            ),
{
}

/// Every key a request is served under names `"original"` or a configured
/// preset, provided the default preset does.
pub proof fn law_served_preset_is_known(config: ConfigModel, request: RequestModel)
    requires
        config.default_preset == original() || config.presets.contains(config.default_preset),
    ensures
        ({
            let preset = request_key(config, request).preset;
            preset == original() || config.presets.contains(preset)
        }),
{
}

/// Absence is not cached. When the origin has no rendition, the fetch ends
/// as not found and the cache is unchanged, so the same request asks the
/// origin again.
pub proof fn law_absence_is_not_cached(
    cache: CacheModel,
    config: ConfigModel,
    request: RequestModel,
)
    requires
        cache.lookup(request_key(config, request)) is None,
    ensures
        ({
            let key = request_key(config, request);
            let after = cache_after_fetch(cache, key, OriginFetchModel::Absent);
            &&& fetch_begin_model(cache, config, request) == FetchStepModel::AskOrigin(key)
            &&& outcome_of_fetch(key, OriginFetchModel::Absent) == FetchOutcomeModel::NotFound
            &&& after == cache
            &&& fetch_begin_model(after, config, request) == FetchStepModel::AskOrigin(key)
        }),
{
}

/// A failing origin changes nothing in the cache, on fetch and on delete,
/// and its message is the outcome.
pub proof fn law_failure_leaves_cache(
    cache: CacheModel,
    key: KeyModel,
    resource_id: u64,
    message: Seq<char>,
)
    ensures
        cache_after_fetch(cache, key, OriginFetchModel::Failed(message)) == cache,
        outcome_of_fetch(key, OriginFetchModel::Failed(message)) == FetchOutcomeModel::Error(
            message,
        ),
        cache_after_delete(cache, resource_id, OriginDeleteModel::Failed(message)) == cache,
        outcome_of_delete(resource_id, OriginDeleteModel::Failed(message))
            == DeleteOutcomeModel::Error(message),
{
}

/// After a successful delete nothing of the resource is cached: every
/// request for it, whatever its preset and format, asks the origin, and
/// every other key holds what it held.
pub proof fn law_delete_purges_resource(
    cache: CacheModel,
    config: ConfigModel,
    request: RequestModel,
)
    requires
        cache.wf(),
    ensures
        ({
            let after = cache_after_delete(
                cache,
                request.resource_id,
                OriginDeleteModel::Deleted,
            );
            &&& after.wf()
            &&& fetch_begin_model(after, config, request) == FetchStepModel::AskOrigin(
                request_key(config, request),
            )
            &&& forall|key: KeyModel|
                #![trigger after.lookup(key)]
                after.lookup(key) == (if key.resource_id == request.resource_id {
                    None
                } else {
                    cache.lookup(key)
                })
        }),
{
    cache.lemma_invalidate(request.resource_id);
}

/// Entries that all survive an invalidation are all kept.
proof fn lemma_nothing_to_purge(entries: Seq<EntryModel>, resource_id: u64)
    requires
        forall|i: int| 0 <= i < entries.len() ==> survives(resource_id)(#[trigger] entries[i]),
    ensures
        entries.filter(survives(resource_id)) == entries,
    decreases entries.len(),
{
    let keep = survives(resource_id);
    if entries.len() == 0 {
        entries.lemma_filter_len(keep);
        assert(entries.filter(keep) =~= entries);
    } else {
        let init = entries.drop_last();
        assert(entries =~= init.push(entries.last()));
        assert forall|i: int| 0 <= i < init.len() implies keep(#[trigger] init[i]) by {
            assert(init[i] == entries[i]);
        }
        lemma_nothing_to_purge(init, resource_id);
        init.lemma_filter_push(entries.last(), keep);
    }
}

/// Deleting succeeds whether or not the resource was ever cached. Where the
/// cache holds nothing of it, the delete leaves the cache as it is.
pub proof fn law_delete_of_unknown_resource(cache: CacheModel, resource_id: u64)
    requires
        forall|key: KeyModel| key.resource_id == resource_id ==> !(#[trigger] cache.holds(key)),
    ensures
        outcome_of_delete(resource_id, OriginDeleteModel::Deleted) == (DeleteOutcomeModel::Deleted {
            resource_id,
        }),
        cache_after_delete(cache, resource_id, OriginDeleteModel::Deleted) == cache,
{
    assert forall|i: int| 0 <= i < cache.entries.len() implies survives(resource_id)(
        #[trigger] cache.entries[i],
    ) by {
        let key = cache.entries[i].key;
        if key.resource_id == resource_id {
            assert(cache.holds_at(key, i));
            assert(cache.holds(key));
        }
    }
    lemma_nothing_to_purge(cache.entries, resource_id);
}

/// Deleting a resource twice leaves the cache as deleting it once.
pub proof fn law_delete_is_idempotent(cache: CacheModel, resource_id: u64)
    ensures
        cache_after_delete(
            cache_after_delete(cache, resource_id, OriginDeleteModel::Deleted),
            resource_id,
            OriginDeleteModel::Deleted,
        ) == cache_after_delete(cache, resource_id, OriginDeleteModel::Deleted),
{
    let keep = survives(resource_id);
    let once = cache.entries.filter(keep);
    assert forall|i: int| 0 <= i < once.len() implies keep(#[trigger] once[i]) by {
        cache.entries.lemma_filter_pred(keep, i);
    }
    lemma_nothing_to_purge(once, resource_id);
}

/// When two fetches of one key both miss and then complete one after the
/// other, the cache ends exactly as if only the later had completed, and
/// the key holds the later payload whole.
pub proof fn law_last_completion_wins(
    cache: CacheModel,
    key: KeyModel,
    first: Seq<u8>,
    last: Seq<u8>,
)
    requires
        cache.wf(),
    ensures
        cache_after_fetch(
            cache_after_fetch(cache, key, OriginFetchModel::Bytes(first)),
            key,
            OriginFetchModel::Bytes(last),
        ) == cache_after_fetch(cache, key, OriginFetchModel::Bytes(last)),
        cache_after_fetch(cache, key, OriginFetchModel::Bytes(last)).lookup(key) == Some(last),
{
    let once = cache.set(key, first);
    cache.lemma_set(key, first);
    cache.lemma_set(key, last);
    once.lemma_slot(key, once.entries.len() - 1);
    assert(once.set(key, last).entries =~= cache.set(key, last).entries);
}

/// What the origin would answer for each key, were it asked now.
pub type Origin = spec_fn(KeyModel) -> OriginFetchModel;

/// The cache agrees with the origin: whatever it holds under a key is
/// exactly the bytes the origin would produce for that key.
pub open spec fn agrees(cache: CacheModel, origin: Origin) -> bool {
    forall|key: KeyModel| #[trigger]
        cache.holds(key) ==> origin(key) == OriginFetchModel::Bytes(cache.lookup(key)->0)
}

/// A cache that agrees with the origin serves from its entries only what
/// the origin would have produced.
pub proof fn law_hit_agrees_with_origin(
    cache: CacheModel,
    origin: Origin,
    config: ConfigModel,
    request: RequestModel,
)
    requires
        agrees(cache, origin),
        fetch_begin_model(cache, config, request) is Done,
    ensures
        fetch_begin_model(cache, config, request) == FetchStepModel::Done(
            outcome_of_fetch(
                request_key(config, request),
                origin(request_key(config, request)),
            ),
        ),
{
    let key = request_key(config, request);
    assert(cache.holds(key));
}

/// Completing a fetch with the origin's answer keeps the cache in agreement
/// with the origin.
pub proof fn law_fetch_keeps_agreement(cache: CacheModel, origin: Origin, key: KeyModel)
    requires
        cache.wf(),
        agrees(cache, origin),
    ensures
        agrees(cache_after_fetch(cache, key, origin(key)), origin),
{
    let after = cache_after_fetch(cache, key, origin(key));
    match origin(key) {
        OriginFetchModel::Bytes(bytes) => {
            cache.lemma_set(key, bytes);
            assert forall|other: KeyModel| #[trigger] after.holds(other) implies origin(other)
                == OriginFetchModel::Bytes(after.lookup(other)->0) by {
                if other != key {
                    assert(after.lookup(other) == cache.lookup(other));
                    assert(cache.holds(other));
                }
            }
        },
        _ => {},
    }
}

/// A successful delete keeps the cache in agreement with the origin,
/// however the origin's answers for the deleted resource have changed.
pub proof fn law_delete_keeps_agreement(
    cache: CacheModel,
    before: Origin,
    after: Origin,
    resource_id: u64,
)
    requires
        cache.wf(),
        agrees(cache, before),
        forall|key: KeyModel| key.resource_id != resource_id ==> #[trigger] after(key) == before(key),
    ensures
        agrees(cache_after_delete(cache, resource_id, OriginDeleteModel::Deleted), after),
{
    let purged = cache_after_delete(cache, resource_id, OriginDeleteModel::Deleted);
    cache.lemma_invalidate(resource_id);
    assert forall|key: KeyModel| #[trigger] purged.holds(key) implies after(key)
        == OriginFetchModel::Bytes(purged.lookup(key)->0) by {
        assert(purged.lookup(key) is Some);
        assert(key.resource_id != resource_id);
        assert(purged.lookup(key) == cache.lookup(key));
        assert(cache.holds(key));
        assert(after(key) == before(key));
    }
}

/// An upload whose payload is not valid base64 ends as a client error
/// before the origin is asked.
pub proof fn law_bad_encoding_is_rejected(format: ImageFormat, data: Seq<char>)
    requires
        base64_decoding(data) is None,
    ensures
        ingest_begin_model(EnvelopeModel::Upload { format, data }) == IngestStepModel::Done(
            IngestOutcomeModel::ClientError(ClientFaultModel::BadEncoding),
        ),
{
}

} // verus!
