//! The ingest flow: an upload is checked, handed to the origin, and the
//! origin's answer becomes the outcome. Nothing is cached on ingest; the
//! first fetch of the new resource populates the cache.

use vstd::prelude::*;
use crate::codec::{base64_decoding, decode_base64};
use crate::format::ImageFormat;

verus! {

/// An upload as the client sent it: the declared source format and the image
/// bytes as base64 text.
#[derive(Clone, Debug, PartialEq, Eq)]
pub struct UploadRequest {
    pub format: ImageFormat,
    pub data: String,
}

/// What the transport layer made of the request body.
#[derive(Clone, Debug, PartialEq, Eq)]
pub enum Envelope {
    /// The body was not a well-formed upload; the text says why.
    Malformed(String),
    Upload(UploadRequest),
}

/// Why an upload was turned away before it reached the origin.
#[derive(Clone, Debug, PartialEq, Eq)]
pub enum ClientFault {
    /// The envelope did not parse; carries the transport's diagnostic.
    MalformedEnvelope(String),
    /// The payload is not valid base64.
    BadEncoding,
}

/// A stored upload: the identifier the origin assigned and the formats it
/// generated.
#[derive(Clone, Debug, PartialEq, Eq)]
pub struct UploadResult {
    pub resource_id: u64,
    pub generated_formats: Vec<ImageFormat>,
}

/// The origin's answer to an ingest.
#[derive(Clone, Debug, PartialEq, Eq)]
pub enum OriginIngest {
    Stored { resource_id: u64, formats: Vec<ImageFormat> },
    Failed(String),
}

/// How an ingest ended.
#[derive(Clone, Debug, PartialEq, Eq)]
pub enum IngestOutcome {
    Stored(UploadResult),
    ClientError(ClientFault),
    ServerError(String),
}

/// What to do next with an upload.
#[derive(Clone, Debug, PartialEq, Eq)]
pub enum IngestStep {
    /// The flow is over.
    Done(IngestOutcome),
    /// Hand these decoded bytes to the origin.
    AskOrigin { format: ImageFormat, bytes: Vec<u8> },
}

pub ghost enum ClientFaultModel {
    MalformedEnvelope(Seq<char>),
    BadEncoding,
}

pub ghost enum IngestOutcomeModel {
    Stored { resource_id: u64, generated_formats: Seq<ImageFormat> },
    ClientError(ClientFaultModel),
    ServerError(Seq<char>),
}

pub ghost enum IngestStepModel {
    Done(IngestOutcomeModel),
    AskOrigin { format: ImageFormat, bytes: Seq<u8> },
}

pub ghost enum EnvelopeModel {
    Malformed(Seq<char>),
    Upload { format: ImageFormat, data: Seq<char> },
}

pub ghost enum OriginIngestModel {
    Stored { resource_id: u64, formats: Seq<ImageFormat> },
    Failed(Seq<char>),
}

impl View for ClientFault {
    type V = ClientFaultModel;

    open spec fn view(&self) -> ClientFaultModel {
        match self {
            ClientFault::MalformedEnvelope(reason) => ClientFaultModel::MalformedEnvelope(reason@),
            ClientFault::BadEncoding => ClientFaultModel::BadEncoding,
        }
    }
}

impl View for IngestOutcome {
    type V = IngestOutcomeModel;

    open spec fn view(&self) -> IngestOutcomeModel {
        match self {
            IngestOutcome::Stored(result) => IngestOutcomeModel::Stored {
                resource_id: result.resource_id,
                generated_formats: result.generated_formats@,
            },
            IngestOutcome::ClientError(fault) => IngestOutcomeModel::ClientError(fault@),
            IngestOutcome::ServerError(message) => IngestOutcomeModel::ServerError(message@),
        }
    }
}

impl View for IngestStep {
    type V = IngestStepModel;

    open spec fn view(&self) -> IngestStepModel {
        match self {
            IngestStep::Done(outcome) => IngestStepModel::Done(outcome@),
            IngestStep::AskOrigin { format, bytes } => IngestStepModel::AskOrigin {
                format: *format,
                bytes: bytes@,
            },
        }
    }
}

impl View for Envelope {
    type V = EnvelopeModel;

    open spec fn view(&self) -> EnvelopeModel {
        match self {
            Envelope::Malformed(reason) => EnvelopeModel::Malformed(reason@),
            Envelope::Upload(upload) => EnvelopeModel::Upload {
                format: upload.format,
                data: upload.data@,
            },
        }
    }
}

impl View for OriginIngest {
    type V = OriginIngestModel;

    open spec fn view(&self) -> OriginIngestModel {
        match self {
            OriginIngest::Stored { resource_id, formats } => OriginIngestModel::Stored {
                resource_id: *resource_id,
                formats: formats@,
            },
            OriginIngest::Failed(message) => OriginIngestModel::Failed(message@),
        }
    }
}

/// The step that follows once the payload's decoding is known: decoded bytes
/// go to the origin under the declared format, and a payload without a
/// decoding is a client fault.
pub open spec fn step_after_decoding(format: ImageFormat, decoding: Option<Seq<u8>>) -> IngestStepModel {
    match decoding {
        Some(bytes) => IngestStepModel::AskOrigin { format, bytes },
        None => IngestStepModel::Done(
            IngestOutcomeModel::ClientError(ClientFaultModel::BadEncoding),
        ),
    }
}

/// The first step of an ingest. A malformed envelope ends the flow with its
/// diagnostic; an upload proceeds according to its payload's decoding.
pub open spec fn ingest_begin_model(envelope: EnvelopeModel) -> IngestStepModel {
    match envelope {
        EnvelopeModel::Malformed(reason) => IngestStepModel::Done(
            IngestOutcomeModel::ClientError(ClientFaultModel::MalformedEnvelope(reason)),
        ),
        EnvelopeModel::Upload { format, data } => step_after_decoding(format, base64_decoding(data)),
    }
}

/// The outcome once the origin has answered.
pub open spec fn ingest_complete_model(reply: OriginIngestModel) -> IngestOutcomeModel {
    match reply {
        OriginIngestModel::Stored { resource_id, formats } => IngestOutcomeModel::Stored {
            resource_id,
            generated_formats: formats,
        },
        OriginIngestModel::Failed(message) => IngestOutcomeModel::ServerError(message),
    }
}

/// Decides what follows the decoding of an upload's payload.
pub fn ingest_decoded(format: ImageFormat, decoded: Result<Vec<u8>, base64::DecodeError>) -> (step:
    IngestStep)
    ensures
        step@ == step_after_decoding(
            format,
            match decoded {
                Ok(bytes) => Some(bytes@),
                Err(_) => None,
            },
        ),
{
    match decoded {
        Ok(bytes) => IngestStep::AskOrigin { format, bytes },
        Err(_) => IngestStep::Done(IngestOutcome::ClientError(ClientFault::BadEncoding)),
    }
}

/// Starts an ingest. The origin is asked only for an upload whose payload
/// decodes; every other envelope ends here as a client error.
pub fn ingest_begin(envelope: Envelope) -> (step: IngestStep)
    ensures
        step@ == ingest_begin_model(envelope@),
{
    match envelope {
        Envelope::Malformed(reason) => IngestStep::Done(
            IngestOutcome::ClientError(ClientFault::MalformedEnvelope(reason)),
        ),
        Envelope::Upload(upload) => {
            let decoded = decode_base64(upload.data.as_str());
            ingest_decoded(upload.format, decoded)
        },
    }
}

/// Ends an ingest with the origin's answer: the new identifier with its
/// formats, or a server error that surfaces no identifier.
pub fn ingest_complete(reply: OriginIngest) -> (outcome: IngestOutcome)
    ensures
        outcome@ == ingest_complete_model(reply@),
{
    match reply {
        OriginIngest::Stored { resource_id, formats } => IngestOutcome::Stored(
            UploadResult { resource_id, generated_formats: formats },
        ),
        OriginIngest::Failed(message) => IngestOutcome::ServerError(message),
    }
}

} // verus!
