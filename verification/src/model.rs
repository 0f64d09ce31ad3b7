//! Requests to the application manager, which stores, deploys and
//! undeploys application manifests on behalf of a lattice.
//!
//! Every operation is one request on a message-bus topic and one reply.
//! This module frames the request: the topic, the body, and the time the
//! caller is to wait. Sending it is the caller's part; `reply` reads what
//! came back.

use crate::codec::{
    delete_request_json, deploy_request_json, encode_delete_request, encode_deploy_request,
    encode_get_request, encode_undeploy_request, get_request_json, json_error_text,
    undeploy_request_json,
};
use vstd::prelude::*;
use vstd::string::StringSliceAdditionalSpecFns;

verus! {

/// The topic prefix the manager's API listens on.
pub const WADM_API_PREFIX: &'static str = "wadm.api";

/// The lattice addressed when the caller names none.
pub const DEFAULT_LATTICE_PREFIX: &'static str = "default";

/// How long a caller waits for the reply to a request, in milliseconds.
pub const REQUEST_TIMEOUT_MS: u64 = 2000;

/// The operations of the manager on application models.
#[derive(Clone, Copy, Debug, PartialEq, Eq, Structural)]
pub enum ModelOperation {
    List,
    Get,
    History,
    Delete,
    Put,
    Deploy,
    Undeploy,
}

impl ModelOperation {
    /// The word that stands for the operation in a topic.
    pub open spec fn word(self) -> Seq<char> {
        match self {
            ModelOperation::List => "list"@,
            ModelOperation::Get => "get"@,
            ModelOperation::History => "versions"@,
            ModelOperation::Delete => "del"@,
            ModelOperation::Put => "put"@,
            ModelOperation::Deploy => "deploy"@,
            ModelOperation::Undeploy => "undeploy"@,
        }
    }

    /// Writes the word that stands for the operation in a topic.
    pub fn to_string(&self) -> (text: String)
        ensures
            text@ == self.word(),
    {
        match self {
            ModelOperation::List => String::from_str("list"),
            ModelOperation::Get => String::from_str("get"),
            ModelOperation::History => String::from_str("versions"),
            ModelOperation::Delete => String::from_str("del"),
            ModelOperation::Put => String::from_str("put"),
            ModelOperation::Deploy => String::from_str("deploy"),
            ModelOperation::Undeploy => String::from_str("undeploy"),
        }
    }
}

/// The topic of a request:
/// `wadm.api.<lattice>.model.<operation>`, followed by `.<object name>`
/// where the operation is on one object. The lattice is `default` where
/// none is given.
pub open spec fn topic_of(
    operation: ModelOperation,
    lattice_prefix: Option<Seq<char>>,
    object_name: Option<Seq<char>>,
) -> Seq<char> {
    let lattice = match lattice_prefix {
        Some(lattice) => lattice,
        None => DEFAULT_LATTICE_PREFIX@,
    };
    let base = WADM_API_PREFIX@ + "."@ + lattice + ".model."@ + operation.word();
    match object_name {
        Some(name) => base + "."@ + name,
        None => base,
    }
}

/// A request, ready to be sent.
#[derive(Clone, Debug, PartialEq, Eq)]
pub struct ModelRequest {
    pub topic: String,
    pub payload: Vec<u8>,
    /// How long to wait for the reply before giving up, in milliseconds.
    pub timeout_ms: u64,
}

/// A `ModelRequest` as contracts see it.
pub struct ModelRequestView {
    pub topic: Seq<char>,
    pub payload: Seq<u8>,
    pub timeout_ms: u64,
}

impl View for ModelRequest {
    type V = ModelRequestView;

    open spec fn view(&self) -> ModelRequestView {
        ModelRequestView {
            topic: self.topic@,
            payload: self.payload@,
            timeout_ms: self.timeout_ms,
        }
    }
}

/// The request that carries `payload` for `operation`. The wait is the
/// same for every request.
pub open spec fn framed(
    operation: ModelOperation,
    lattice_prefix: Option<Seq<char>>,
    object_name: Option<Seq<char>>,
    payload: Seq<u8>,
) -> ModelRequestView {
    ModelRequestView {
        topic: topic_of(operation, lattice_prefix, object_name),
        payload,
        timeout_ms: REQUEST_TIMEOUT_MS,
    }
}

/// Every request waits the same: whatever the operation, the lattice, the
/// object and the body, the caller is to give up after two seconds.
pub proof fn lemma_every_request_waits_the_same(
    operation: ModelOperation,
    lattice_prefix: Option<Seq<char>>,
    object_name: Option<Seq<char>>,
    payload: Seq<u8>,
)
    ensures
        framed(operation, lattice_prefix, object_name, payload).timeout_ms == REQUEST_TIMEOUT_MS,
        REQUEST_TIMEOUT_MS == 2000,
{
}

/// Why a call to the manager failed.
#[derive(Clone, Debug, PartialEq, Eq)]
pub enum ModelError {
    /// The request body could not be written. The codec never gives up
    /// on the bodies the requests of this module have, so none of them
    /// fails so; the kind is there for `frame_json`, which takes what
    /// the codec returned.
    Encoding(String),
    /// No reply came within the wait.
    TransportTimeout(String),
    /// The message bus failed to carry the request or the reply.
    TransportError(String),
    /// The manager replied that it could not do what was asked. The text
    /// is the manager's.
    RemoteError(String),
    /// A reply came that is no reply to this operation.
    InvalidResponse(String),
}

/// A `ModelError` as contracts see it.
pub enum ModelErrorView {
    Encoding(Seq<char>),
    TransportTimeout(Seq<char>),
    TransportError(Seq<char>),
    RemoteError(Seq<char>),
    InvalidResponse(Seq<char>),
}

impl View for ModelError {
    type V = ModelErrorView;

    open spec fn view(&self) -> ModelErrorView {
        match self {
            ModelError::Encoding(detail) => ModelErrorView::Encoding(detail@),
            ModelError::TransportTimeout(detail) => ModelErrorView::TransportTimeout(detail@),
            ModelError::TransportError(detail) => ModelErrorView::TransportError(detail@),
            ModelError::RemoteError(detail) => ModelErrorView::RemoteError(detail@),
            ModelError::InvalidResponse(detail) => ModelErrorView::InvalidResponse(detail@),
        }
    }
}

impl ModelErrorView {
    /// The text shown to the user.
    pub open spec fn message(self) -> Seq<char> {
        match self {
            ModelErrorView::Encoding(detail) => detail,
            ModelErrorView::TransportTimeout(detail) => "model_request timed out:  "@ + detail,
            ModelErrorView::TransportError(detail) => "Error making model request: "@ + detail,
            ModelErrorView::RemoteError(detail) => detail,
            ModelErrorView::InvalidResponse(detail) => detail,
        }
    }
}

impl ModelError {
    /// Writes the text shown to the user.
    pub fn message(&self) -> (text: String)
        ensures
            text@ == self@.message(),
    {
        match self {
            ModelError::Encoding(detail) => detail.clone(),
            ModelError::TransportTimeout(detail) => {
                String::from_str("model_request timed out:  ").concat(detail.as_str())
            },
            ModelError::TransportError(detail) => {
                String::from_str("Error making model request: ").concat(detail.as_str())
            },
            ModelError::RemoteError(detail) => detail.clone(),
            ModelError::InvalidResponse(detail) => detail.clone(),
        }
    }
}

/// Frames a request: the topic for `operation`, the body as given, and
/// the fixed wait.
pub fn model_request(
    operation: ModelOperation,
    lattice_prefix: Option<String>,
    object_name: Option<&str>,
    bytes: Vec<u8>,
) -> (request: ModelRequest)
    ensures
        request@ == framed(operation, lattice_prefix.deep_view(), object_name.deep_view(), bytes@),
{
    let mut topic = String::from_str(WADM_API_PREFIX);
    topic.append(".");
    match lattice_prefix {
        Some(lattice) => topic.append(lattice.as_str()),
        None => topic.append(DEFAULT_LATTICE_PREFIX),
    }
    topic.append(".model.");
    topic.append(operation.to_string().as_str());
    match object_name {
        Some(name) => {
            topic.append(".");
            topic.append(name);
        },
        None => {},
    }
    ModelRequest { topic, payload: bytes, timeout_ms: REQUEST_TIMEOUT_MS }
}

/// Frames the request for an operation on a model whose body was to be
/// written as JSON: the request for the bytes where there are bytes, and
/// the `Encoding` failure where the codec gave up.
pub fn frame_json(
    operation: ModelOperation,
    lattice_prefix: Option<String>,
    model_name: &str,
    encoded: Result<Vec<u8>, serde_json::Error>,
) -> (request: Result<ModelRequest, ModelError>)
    ensures
        (match encoded {
            Ok(bytes) => request matches Ok(framed_request) && framed_request@ == framed(
                operation,
                lattice_prefix.deep_view(),
                Some(model_name@),
                bytes@,
            ),
            Err(_) => request matches Err(ModelError::Encoding(_)),
        }),
{
    match encoded {
        Ok(bytes) => Ok(model_request(operation, lattice_prefix, Some(model_name), bytes)),
        Err(error) => Err(ModelError::Encoding(json_error_text(&error))),
    }
}

/// The request to undeploy a model, after which the manager no longer
/// manages the application. By default the manager removes what it
/// manages; `non_destructive` asks it to leave that in place.
pub fn undeploy_model(
    lattice_prefix: Option<String>,
    model_name: &str,
    non_destructive: bool,
) -> (request: Result<ModelRequest, ModelError>)
    ensures
        request matches Ok(framed_request) && framed_request@ == framed(
            ModelOperation::Undeploy,
            lattice_prefix.deep_view(),
            Some(model_name@),
            undeploy_request_json(non_destructive),
        ),
{
    let encoded = encode_undeploy_request(non_destructive);
    frame_json(ModelOperation::Undeploy, lattice_prefix, model_name, encoded)
}

/// The request to deploy a model. Without a version the manager deploys
/// the latest one that was put.
pub fn deploy_model(
    lattice_prefix: Option<String>,
    model_name: &str,
    version: Option<String>,
) -> (request: Result<ModelRequest, ModelError>)
    ensures
        request matches Ok(framed_request) && framed_request@ == framed(
            ModelOperation::Deploy,
            lattice_prefix.deep_view(),
            Some(model_name@),
            deploy_request_json(version.deep_view()),
        ),
{
    let encoded = encode_deploy_request(version);
    frame_json(ModelOperation::Deploy, lattice_prefix, model_name, encoded)
}

/// The request to store a manifest for later deploys. The body is the
/// manifest's text as it stands, YAML or JSON.
pub fn put_model(lattice_prefix: Option<String>, model: &str) -> (request: ModelRequest)
    ensures
        request@ == framed(
            ModelOperation::Put,
            lattice_prefix.deep_view(),
            None,
            model.spec_bytes(),
        ),
{
    model_request(ModelOperation::Put, lattice_prefix, None, model.as_bytes_vec())
}

/// The request for the versions of a model. It has no body.
pub fn get_model_history(lattice_prefix: Option<String>, model_name: &str) -> (request:
    ModelRequest)
    ensures
        request@ == framed(
            ModelOperation::History,
            lattice_prefix.deep_view(),
            Some(model_name@),
            Seq::<u8>::empty(),
        ),
{
    model_request(ModelOperation::History, lattice_prefix, Some(model_name), Vec::new())
}

/// The request for the details of a model. Without a version the manager
/// answers with the latest one that was put.
pub fn get_model_details(
    lattice_prefix: Option<String>,
    model_name: &str,
    version: Option<String>,
) -> (request: Result<ModelRequest, ModelError>)
    ensures
        request matches Ok(framed_request) && framed_request@ == framed(
            ModelOperation::Get,
            lattice_prefix.deep_view(),
            Some(model_name@),
            get_request_json(version.deep_view()),
        ),
{
    let encoded = encode_get_request(version);
    frame_json(ModelOperation::Get, lattice_prefix, model_name, encoded)
}

/// The version text of a delete request: the version given, or the empty
/// text, which the manager reads as the latest.
pub open spec fn version_or_latest(version: Option<Seq<char>>) -> Seq<char> {
    match version {
        Some(version) => version,
        None => Seq::<char>::empty(),
    }
}

/// The request to delete a version of a model, or all of them.
pub fn delete_model_version(
    lattice_prefix: Option<String>,
    model_name: &str,
    version: Option<String>,
    delete_all: bool,
) -> (request: Result<ModelRequest, ModelError>)
    ensures
        request matches Ok(framed_request) && framed_request@ == framed(
            ModelOperation::Delete,
            lattice_prefix.deep_view(),
            Some(model_name@),
            delete_request_json(version_or_latest(version.deep_view()), delete_all),
        ),
{
    let version = match version {
        Some(version) => version,
        None => String::new(),
    };
    let encoded = encode_delete_request(version, delete_all);
    frame_json(ModelOperation::Delete, lattice_prefix, model_name, encoded)
}

/// The request for the list of all models. It has no body.
pub fn get_models(lattice_prefix: Option<String>) -> (request: ModelRequest)
    ensures
        request@ == framed(
            ModelOperation::List,
            lattice_prefix.deep_view(),
            None,
            Seq::<u8>::empty(),
        ),
{
    model_request(ModelOperation::List, lattice_prefix, None, Vec::new())
}

} // verus!
