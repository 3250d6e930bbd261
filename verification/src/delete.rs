//! The delete flow: once the origin has dropped a resource, every cached
//! rendition of it goes too.

use vstd::prelude::*;
use crate::key::KeyModel;
use crate::store::{CacheModel, CacheStore};

verus! {

/// The origin's answer to a delete. It reports `Deleted` whether or not the
/// resource existed.
#[derive(Clone, Debug, PartialEq, Eq)]
pub enum OriginDelete {
    Deleted,
    Failed(String),
}

/// How a delete ended.
#[derive(Clone, Debug, PartialEq, Eq)]
pub enum DeleteOutcome {
    /// The resource is gone, if it was ever there.
    Deleted { resource_id: u64 },
    Error(String),
}

pub ghost enum OriginDeleteModel {
    Deleted,
    Failed(Seq<char>),
}

pub ghost enum DeleteOutcomeModel {
    Deleted { resource_id: u64 },
    Error(Seq<char>),
}

impl View for OriginDelete {
    type V = OriginDeleteModel;

    open spec fn view(&self) -> OriginDeleteModel {
        match self {
            OriginDelete::Deleted => OriginDeleteModel::Deleted,
            OriginDelete::Failed(message) => OriginDeleteModel::Failed(message@),
        }
    }
}

impl View for DeleteOutcome {
    type V = DeleteOutcomeModel;

    open spec fn view(&self) -> DeleteOutcomeModel {
        match self {
            DeleteOutcome::Deleted { resource_id } => DeleteOutcomeModel::Deleted {
                resource_id: *resource_id,
            },
            DeleteOutcome::Error(message) => DeleteOutcomeModel::Error(message@),
        }
    }
}

/// The cache once the origin has answered a delete: purged of the resource
/// where the origin deleted, untouched where it failed.
pub open spec fn cache_after_delete(
    cache: CacheModel,
    resource_id: u64,
    reply: OriginDeleteModel,
) -> CacheModel {
    match reply {
        OriginDeleteModel::Deleted => cache.invalidate(resource_id),
        OriginDeleteModel::Failed(_) => cache,
    }
}

/// The outcome of a delete once the origin has answered.
pub open spec fn outcome_of_delete(resource_id: u64, reply: OriginDeleteModel) -> DeleteOutcomeModel {
    match reply {
        OriginDeleteModel::Deleted => DeleteOutcomeModel::Deleted { resource_id },
        OriginDeleteModel::Failed(message) => DeleteOutcomeModel::Error(message),
    }
}

/// Ends a delete with the origin's answer. A successful delete purges every
/// cached rendition of the resource and reports success, whether or not
/// anything was there. A failed one is passed on and the cache keeps its
/// entries, since the resource may still exist.
pub fn delete_complete(cache: &mut CacheStore, resource_id: u64, reply: OriginDelete) -> (outcome:
    DeleteOutcome)
    ensures
        final(cache)@.wf(),
        final(cache)@ == cache_after_delete(old(cache)@, resource_id, reply@),
        outcome@ == outcome_of_delete(resource_id, reply@),
        reply is Deleted ==> forall|key: KeyModel|
            key.resource_id == resource_id ==> (#[trigger] final(cache)@.lookup(key)) is None,
{
    proof {
        use_type_invariant(&*cache);
    }
    match reply {
        OriginDelete::Deleted => {
            cache.invalidate(resource_id);
            DeleteOutcome::Deleted { resource_id }
        },
        OriginDelete::Failed(message) => DeleteOutcome::Error(message),
    }
}

} // verus!
