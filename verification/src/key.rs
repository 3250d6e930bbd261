//! The identity of a cached rendition.

use vstd::prelude::*;
use crate::format::ImageFormat;

verus! {

/// Names one rendition: which resource, under which preset, in which format.
#[derive(Debug, Hash)]
pub struct CacheKey {
    pub resource_id: u64,
    pub preset: String,
    pub format: ImageFormat,
}

/// A key as a mathematical value: two keys are the same exactly when all
/// three parts are.
pub ghost struct KeyModel {
    pub resource_id: u64,
    pub preset: Seq<char>,
    pub format: ImageFormat,
}

impl View for CacheKey {
    type V = KeyModel;

    open spec fn view(&self) -> KeyModel {
        KeyModel { resource_id: self.resource_id, preset: self.preset@, format: self.format }
    }
}

impl Clone for CacheKey {
    fn clone(&self) -> (copy: CacheKey)
        ensures
            copy@ == self@,
    {
        CacheKey {
            resource_id: self.resource_id,
            preset: self.preset.clone(),
            format: self.format,
        }
    }
}

impl PartialEq for CacheKey {
    fn eq(&self, other: &CacheKey) -> (same: bool) {
        self.resource_id == other.resource_id && self.preset == other.preset && self.format
            == other.format
    }
}

impl Eq for CacheKey {

}

impl vstd::std_specs::cmp::PartialEqSpecImpl for CacheKey {
    open spec fn obeys_eq_spec() -> bool {
        true
    }

    open spec fn eq_spec(&self, other: &CacheKey) -> bool {
        self@ == other@
    }
}

impl CacheKey {
    /// Builds the key for `resource_id` under `preset` in `format`.
    pub fn new(resource_id: u64, preset: String, format: ImageFormat) -> (key: CacheKey)
        ensures
            key@ == (KeyModel { resource_id, preset: preset@, format }),
    {
        CacheKey { resource_id, preset, format }
    }
}

} // verus!
