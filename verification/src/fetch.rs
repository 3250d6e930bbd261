//! The fetch flow: a rendition is served from the cache where it is there,
//! and from the origin otherwise, which then populates the cache.
//!
//! The origin is slow and lives outside this library, so a fetch is two
//! decisions around one question. [`fetch_begin`] either ends the flow with
//! a cached payload or names the rendition to ask the origin for;
//! [`fetch_complete`] takes the origin's answer, updates the cache and gives
//! the outcome. [`fetch_respond`] then shapes the outcome for the client.

use vstd::prelude::*;
use crate::codec::{base64_encoding, encodable, encode_base64};
use crate::format::ImageFormat;
use crate::key::{CacheKey, KeyModel};
use crate::preset::{resolve, resolve_model, text_of, PresetTable};
use crate::store::{CacheModel, CacheStore};

verus! {

/// What a request falls back on, and which presets exist.
#[derive(Clone, Debug)]
pub struct ServingConfig {
    pub default_preset: String,
    pub default_format: ImageFormat,
    pub presets: PresetTable,
}

/// A request for one rendition. Everything but the resource is optional.
#[derive(Clone, Debug, PartialEq, Eq)]
pub struct FetchRequest {
    pub resource_id: u64,
    pub preset: Option<String>,
    pub format: Option<ImageFormat>,
    /// Whether the client wants the payload as base64 text; absent means no.
    pub encode: Option<bool>,
}

/// The origin's answer to a fetch.
#[derive(Clone, Debug, PartialEq, Eq)]
pub enum OriginFetch {
    Bytes(Vec<u8>),
    Absent,
    Failed(String),
}

/// How a fetch ended.
#[derive(Clone, Debug, PartialEq, Eq)]
pub enum FetchOutcome {
    Found { payload: Vec<u8>, format: ImageFormat },
    NotFound,
    Error(String),
}

/// What to do next with a fetch.
#[derive(Clone, Debug, PartialEq, Eq)]
pub enum FetchStep {
    /// The flow is over; the origin is not asked.
    Done(FetchOutcome),
    /// The cache has nothing under this key: ask the origin for it.
    AskOrigin(CacheKey),
}

/// What the client is sent.
#[derive(Clone, Debug, PartialEq, Eq)]
pub enum FetchResponse {
    /// The payload as it is, with its format.
    Image { format: ImageFormat, bytes: Vec<u8> },
    /// The payload as base64 text.
    EncodedImage { text: String },
    NotFound,
    Error(String),
}

pub ghost struct ConfigModel {
    pub default_preset: Seq<char>,
    pub default_format: ImageFormat,
    pub presets: Set<Seq<char>>,
}

pub ghost struct RequestModel {
    pub resource_id: u64,
    pub preset: Option<Seq<char>>,
    pub format: Option<ImageFormat>,
    pub encode: Option<bool>,
}

pub ghost enum OriginFetchModel {
    Bytes(Seq<u8>),
    Absent,
    Failed(Seq<char>),
}

pub ghost enum FetchOutcomeModel {
    Found { payload: Seq<u8>, format: ImageFormat },
    NotFound,
    Error(Seq<char>),
}

pub ghost enum FetchStepModel {
    Done(FetchOutcomeModel),
    AskOrigin(KeyModel),
}

pub ghost enum FetchResponseModel {
    Image { format: ImageFormat, bytes: Seq<u8> },
    EncodedImage { text: Seq<char> },
    NotFound,
    Error(Seq<char>),
}

impl View for ServingConfig {
    type V = ConfigModel;

    open spec fn view(&self) -> ConfigModel {
        ConfigModel {
            default_preset: self.default_preset@,
            default_format: self.default_format,
            presets: self.presets@,
        }
    }
}

impl View for FetchRequest {
    type V = RequestModel;

    open spec fn view(&self) -> RequestModel {
        RequestModel {
            resource_id: self.resource_id,
            preset: text_of(self.preset),
            format: self.format,
            encode: self.encode,
        }
    }
}

impl View for OriginFetch {
    type V = OriginFetchModel;

    open spec fn view(&self) -> OriginFetchModel {
        match self {
            OriginFetch::Bytes(bytes) => OriginFetchModel::Bytes(bytes@),
            OriginFetch::Absent => OriginFetchModel::Absent,
            OriginFetch::Failed(message) => OriginFetchModel::Failed(message@),
        }
    }
}

impl View for FetchOutcome {
    type V = FetchOutcomeModel;

    open spec fn view(&self) -> FetchOutcomeModel {
        match self {
            FetchOutcome::Found { payload, format } => FetchOutcomeModel::Found {
                payload: payload@,
                format: *format,
            },
            FetchOutcome::NotFound => FetchOutcomeModel::NotFound,
            FetchOutcome::Error(message) => FetchOutcomeModel::Error(message@),
        }
    }
}

impl View for FetchStep {
    type V = FetchStepModel;

    open spec fn view(&self) -> FetchStepModel {
        match self {
            FetchStep::Done(outcome) => FetchStepModel::Done(outcome@),
            FetchStep::AskOrigin(key) => FetchStepModel::AskOrigin(key@),
        }
    }
}

impl View for FetchResponse {
    type V = FetchResponseModel;

    open spec fn view(&self) -> FetchResponseModel {
        match self {
            FetchResponse::Image { format, bytes } => FetchResponseModel::Image {
                format: *format,
                bytes: bytes@,
            },
            FetchResponse::EncodedImage { text } => FetchResponseModel::EncodedImage { text: text@ },
            FetchResponse::NotFound => FetchResponseModel::NotFound,
            FetchResponse::Error(message) => FetchResponseModel::Error(message@),
        }
    }
}

/// The key a request is served under: its resource, its preset after
/// resolution, and its format or the default one.
pub open spec fn request_key(config: ConfigModel, request: RequestModel) -> KeyModel {
    KeyModel {
        resource_id: request.resource_id,
        preset: resolve_model(request.preset, config.default_preset, config.presets),
        format: match request.format {
            Some(format) => format,
            None => config.default_format,
        },
    }
}

/// The first step of a fetch: a cached payload ends the flow, a miss asks
/// the origin under the request's key.
pub open spec fn fetch_begin_model(
    cache: CacheModel,
    config: ConfigModel,
    request: RequestModel,
) -> FetchStepModel {
    let key = request_key(config, request);
    match cache.lookup(key) {
        Some(payload) => FetchStepModel::Done(
            FetchOutcomeModel::Found { payload, format: key.format },
        ),
        None => FetchStepModel::AskOrigin(key),
    }
}

/// The cache once the origin has answered a fetch for `key`: bytes are
/// written under the key, and any other answer leaves the cache alone.
pub open spec fn cache_after_fetch(
    cache: CacheModel,
    key: KeyModel,
    reply: OriginFetchModel,
) -> CacheModel {
    match reply {
        OriginFetchModel::Bytes(bytes) => cache.set(key, bytes),
        _ => cache,
    }
}

/// The outcome of a fetch for `key` once the origin has answered.
pub open spec fn outcome_of_fetch(key: KeyModel, reply: OriginFetchModel) -> FetchOutcomeModel {
    match reply {
        OriginFetchModel::Bytes(bytes) => FetchOutcomeModel::Found {
            payload: bytes,
            format: key.format,
        },
        OriginFetchModel::Absent => FetchOutcomeModel::NotFound,
        OriginFetchModel::Failed(message) => FetchOutcomeModel::Error(message),
    }
}

/// What the client is sent for an outcome, given the payload's base64 text
/// where the client asked for it. A found payload goes out as that text, or
/// as it is where there is none; the other outcomes go out unchanged.
pub open spec fn shaped(outcome: FetchOutcomeModel, text: Option<Seq<char>>) -> FetchResponseModel {
    match outcome {
        FetchOutcomeModel::Found { payload, format } => match text {
            Some(text) => FetchResponseModel::EncodedImage { text },
            None => FetchResponseModel::Image { format, bytes: payload },
        },
        FetchOutcomeModel::NotFound => FetchResponseModel::NotFound,
        FetchOutcomeModel::Error(message) => FetchResponseModel::Error(message),
    }
}

/// The base64 text an outcome is sent as: that of a found payload whose
/// client asked for it, and none otherwise.
pub open spec fn text_to_send(outcome: FetchOutcomeModel, encode: Option<bool>) -> Option<
    Seq<char>,
> {
    match outcome {
        FetchOutcomeModel::Found { payload, .. } => if encode == Some(true) {
            Some(base64_encoding(payload))
        } else {
            None
        },
        _ => None,
    }
}

/// What the client is sent for an outcome. Only a found payload whose
/// client asked for it is encoded.
pub open spec fn response_model(
    outcome: FetchOutcomeModel,
    encode: Option<bool>,
) -> FetchResponseModel {
    shaped(outcome, text_to_send(outcome, encode))
}

/// Builds the key a request is served under.
pub fn key_of_request(config: &ServingConfig, request: &FetchRequest) -> (key: CacheKey)
    ensures
        key@ == request_key(config@, request@),
{
    let requested = match &request.preset {
        Some(name) => Some(name.clone()),
        None => None,
    };
    let preset = resolve(requested, config.default_preset.as_str(), &config.presets);
    let format = match request.format {
        Some(format) => format,
        None => config.default_format,
    };
    CacheKey::new(request.resource_id, preset, format)
}

/// Starts a fetch. A cached rendition is returned as it is and the origin is
/// left alone; otherwise the step names the key to ask the origin for. The
/// cache is only read.
pub fn fetch_begin(cache: &CacheStore, config: &ServingConfig, request: &FetchRequest) -> (step:
    FetchStep)
    ensures
        step@ == fetch_begin_model(cache@, config@, request@),
{
    let key = key_of_request(config, request);
    match cache.get(&key) {
        Some(payload) => FetchStep::Done(FetchOutcome::Found { payload, format: key.format }),
        None => FetchStep::AskOrigin(key),
    }
}

/// Ends a fetch that missed the cache. Bytes from the origin are cached
/// under `key` and returned; an absent rendition is not remembered, and a
/// failure is passed on. In both of the latter the cache stays as it was.
pub fn fetch_complete(cache: &mut CacheStore, key: CacheKey, reply: OriginFetch) -> (outcome:
    FetchOutcome)
    ensures
        final(cache)@.wf(),
        final(cache)@ == cache_after_fetch(old(cache)@, key@, reply@),
        outcome@ == outcome_of_fetch(key@, reply@),
        reply@ matches OriginFetchModel::Bytes(bytes) ==> final(cache)@.lookup(key@) == Some(bytes),
{
    proof {
        use_type_invariant(&*cache);
    }
    match reply {
        OriginFetch::Bytes(bytes) => {
            let format = key.format;
            let stored = bytes.clone();
            cache.set(key, stored);
            FetchOutcome::Found { payload: bytes, format }
        },
        OriginFetch::Absent => FetchOutcome::NotFound,
        OriginFetch::Failed(message) => FetchOutcome::Error(message),
    }
}

/// Shapes an outcome for the client, with the payload's base64 text where
/// it is to go out encoded.
pub fn respond_with(outcome: FetchOutcome, text: Option<String>) -> (response: FetchResponse)
    ensures
        response@ == shaped(outcome@, text_of(text)),
{
    match outcome {
        FetchOutcome::Found { payload, format } => match text {
            Some(text) => FetchResponse::EncodedImage { text },
            None => FetchResponse::Image { format, bytes: payload },
        },
        FetchOutcome::NotFound => FetchResponse::NotFound,
        FetchOutcome::Error(message) => FetchResponse::Error(message),
    }
}

/// Shapes an outcome for the client. The payload is encoded only here,
/// after the outcome is settled, so what the cache holds is never encoded.
/// A payload that is to be encoded must be short enough for its text to be
/// allocated.
pub fn fetch_respond(outcome: FetchOutcome, encode: Option<bool>) -> (response: FetchResponse)
    requires
        encode == Some(true) ==> (outcome@ matches FetchOutcomeModel::Found { payload, .. }
            ==> encodable(payload.len())),
    ensures
        response@ == response_model(outcome@, encode),
{
    let wanted = match encode {
        Some(flag) => flag,
        None => false,
    };
    let text = match &outcome {
        FetchOutcome::Found { payload, .. } => if wanted {
            Some(encode_base64(payload.as_slice()))
        } else {
            None
        },
        _ => None,
    };
    respond_with(outcome, text)
}

} // verus!
