//! Replies of the application manager: what came back for a request, how
//! its body is read, and when the manager's answer counts as a failure.
//!
//! A call can fail in three ways that a user has to tell apart: no reply
//! came in time, the message bus failed, or the manager replied that it
//! could not do what was asked. A reply that cannot be read at all is a
//! fourth.

use crate::codec::{
    decode_delete_response, decode_deploy_response, decode_get_response, decode_model_list,
    decode_put_response, decode_version_response, json_error_text, parsed_delete_response,
    parsed_deploy_response, parsed_get_response, parsed_model_list, parsed_put_response,
    parsed_version_response,
};
use crate::model::{ModelError, ModelErrorView};
use vstd::prelude::*;

verus! {

/// What became of a request that was sent.
#[derive(Clone, Debug, PartialEq, Eq)]
pub enum Delivery {
    /// A reply came in time; these are its bytes.
    Reply(Vec<u8>),
    /// The message bus reported a failure.
    TransportFailed(String),
    /// The wait ran out before a reply came.
    TimedOut(String),
}

/// A `Delivery` as contracts see it.
pub enum DeliveryView {
    Reply(Seq<u8>),
    TransportFailed(Seq<char>),
    TimedOut(Seq<char>),
}

impl View for Delivery {
    type V = DeliveryView;

    open spec fn view(&self) -> DeliveryView {
        match self {
            Delivery::Reply(payload) => DeliveryView::Reply(payload@),
            Delivery::TransportFailed(detail) => DeliveryView::TransportFailed(detail@),
            Delivery::TimedOut(detail) => DeliveryView::TimedOut(detail@),
        }
    }
}

/// The body that arrived, or the transport's failure: a timeout where the
/// wait ran out, a transport error where the bus failed.
pub open spec fn arrival(delivery: DeliveryView) -> Result<Seq<u8>, ModelErrorView> {
    match delivery {
        DeliveryView::Reply(payload) => Ok(payload),
        DeliveryView::TransportFailed(detail) => Err(ModelErrorView::TransportError(detail)),
        DeliveryView::TimedOut(detail) => Err(ModelErrorView::TransportTimeout(detail)),
    }
}

/// How a reply that was read is settled: as the manager's failure where
/// it says so, with the manager's text, and as the reply itself
/// otherwise.
pub open spec fn settled<V>(response: V, refusal: Option<Seq<char>>) -> Result<V, ModelErrorView> {
    match refusal {
        Some(text) => Err(ModelErrorView::RemoteError(text)),
        None => Ok(response),
    }
}

/// A result of this module taken by the views of what it holds.
pub open spec fn outcome_view<T: View>(result: Result<T, ModelError>) -> Result<
    T::V,
    ModelErrorView,
> {
    match result {
        Ok(response) => Ok(response@),
        Err(error) => Err(error@),
    }
}

/// Takes the body out of a delivery.
pub fn receive(delivery: Delivery) -> (body: Result<Vec<u8>, ModelError>)
    ensures
        (match arrival(delivery@) {
            Ok(payload) => body matches Ok(bytes) && bytes@ == payload,
            Err(error) => body matches Err(failure) && failure@ == error,
        }),
{
    match delivery {
        Delivery::Reply(payload) => Ok(payload),
        Delivery::TransportFailed(detail) => Err(ModelError::TransportError(detail)),
        Delivery::TimedOut(detail) => Err(ModelError::TransportTimeout(detail)),
    }
}

/// The transport's failures and the manager's are never taken for one
/// another: a delivery is a timeout exactly where the wait ran out, a
/// transport error exactly where the bus failed, and whatever a reply
/// says, settling it gives the reply or the manager's own failure.
pub proof fn lemma_failures_are_told_apart<V>(
    delivery: DeliveryView,
    response: V,
    refusal: Option<Seq<char>>,
)
    ensures
        arrival(delivery) matches Err(ModelErrorView::TransportTimeout(_)) <==> delivery is TimedOut,
        arrival(delivery) matches Err(ModelErrorView::TransportError(_))
            <==> delivery is TransportFailed,
        arrival(delivery) is Ok <==> delivery is Reply,
        settled(response, refusal) matches Err(error) ==> error is RemoteError,
        settled(response, refusal) is Err <==> refusal is Some,
{
}

/// How a deploy or undeploy request fared.
#[derive(Clone, Copy, Debug, PartialEq, Eq, Structural)]
pub enum DeployResult {
    Error,
    Acknowledged,
    NotFound,
}

/// The reply to a deploy or an undeploy request.
#[derive(Clone, Debug, PartialEq, Eq)]
pub struct DeployModelResponse {
    pub result: DeployResult,
    pub message: String,
}

/// A `DeployModelResponse` as contracts see it.
pub struct DeployModelResponseView {
    pub result: DeployResult,
    pub message: Seq<char>,
}

impl View for DeployModelResponse {
    type V = DeployModelResponseView;

    open spec fn view(&self) -> DeployModelResponseView {
        DeployModelResponseView { result: self.result, message: self.message@ }
    }
}

impl DeployModelResponseView {
    /// The manager's words where it reports an error.
    pub open spec fn refusal(self) -> Option<Seq<char>> {
        if self.result is Error {
            Some(self.message)
        } else {
            None
        }
    }
}

/// How a put request fared.
#[derive(Clone, Copy, Debug, PartialEq, Eq, Structural)]
pub enum PutResult {
    Error,
    Created,
    NewVersion,
}

/// The reply to a put request.
#[derive(Clone, Debug, PartialEq, Eq)]
pub struct PutModelResponse {
    pub result: PutResult,
    pub total_versions: usize,
    pub current_version: String,
    pub message: String,
    pub name: String,
}

/// A `PutModelResponse` as contracts see it.
pub struct PutModelResponseView {
    pub result: PutResult,
    pub total_versions: usize,
    pub current_version: Seq<char>,
    pub message: Seq<char>,
    pub name: Seq<char>,
}

impl View for PutModelResponse {
    type V = PutModelResponseView;

    open spec fn view(&self) -> PutModelResponseView {
        PutModelResponseView {
            result: self.result,
            total_versions: self.total_versions,
            current_version: self.current_version@,
            message: self.message@,
            name: self.name@,
        }
    }
}

impl PutModelResponseView {
    /// The manager's words where it reports an error.
    pub open spec fn refusal(self) -> Option<Seq<char>> {
        if self.result is Error {
            Some(self.message)
        } else {
            None
        }
    }
}

/// How a request that reads a model fared.
#[derive(Clone, Copy, Debug, PartialEq, Eq, Structural)]
pub enum GetResult {
    Error,
    Success,
    NotFound,
}

/// One version of a model.
#[derive(Clone, Debug, PartialEq, Eq)]
pub struct VersionInfo {
    pub version: String,
    pub deployed: bool,
}

/// A `VersionInfo` as contracts see it.
pub struct VersionInfoView {
    pub version: Seq<char>,
    pub deployed: bool,
}

impl View for VersionInfo {
    type V = VersionInfoView;

    open spec fn view(&self) -> VersionInfoView {
        VersionInfoView { version: self.version@, deployed: self.deployed }
    }
}

/// The reply to a request for the versions of a model.
#[derive(Clone, Debug, PartialEq, Eq)]
pub struct VersionResponse {
    pub result: GetResult,
    pub message: String,
    pub versions: Vec<VersionInfo>,
}

/// A `VersionResponse` as contracts see it.
pub struct VersionResponseView {
    pub result: GetResult,
    pub message: Seq<char>,
    pub versions: Seq<VersionInfoView>,
}

impl View for VersionResponse {
    type V = VersionResponseView;

    open spec fn view(&self) -> VersionResponseView {
        VersionResponseView {
            result: self.result,
            message: self.message@,
            versions: self.versions@.map_values(|info: VersionInfo| info@),
        }
    }
}

impl VersionResponseView {
    /// The manager's words where it reports an error.
    pub open spec fn refusal(self) -> Option<Seq<char>> {
        if self.result is Error {
            Some(self.message)
        } else {
            None
        }
    }
}

/// The reply to a request for the details of a model.
#[derive(Clone, Debug, PartialEq, Eq)]
pub struct GetModelResponse {
    pub result: GetResult,
    pub message: String,
    pub manifest: Option<wadm::model::Manifest>,
}

/// What is read of a reply to a request for details, the manifest's
/// content apart: how the request fared, the manager's message, and
/// whether a manifest came.
pub struct GetModelReading {
    pub result: GetResult,
    pub message: Seq<char>,
    pub has_manifest: bool,
}

/// A `GetModelResponse` as contracts see it.
pub struct GetModelResponseView {
    pub result: GetResult,
    pub message: Seq<char>,
    pub manifest: Option<wadm::model::Manifest>,
}

impl View for GetModelResponse {
    type V = GetModelResponseView;

    open spec fn view(&self) -> GetModelResponseView {
        GetModelResponseView {
            result: self.result,
            message: self.message@,
            manifest: self.manifest,
        }
    }
}

impl GetModelResponseView {
    /// The reply without the content of its manifest.
    pub open spec fn reading(self) -> GetModelReading {
        GetModelReading {
            result: self.result,
            message: self.message,
            has_manifest: self.manifest is Some,
        }
    }

    /// The manager's words where it reports an error.
    pub open spec fn refusal(self) -> Option<Seq<char>> {
        if self.result is Error {
            Some(self.message)
        } else {
            None
        }
    }
}

/// How a delete request fared.
#[derive(Clone, Copy, Debug, PartialEq, Eq, Structural)]
pub enum DeleteResult {
    Deleted,
    Error,
    Noop,
}

/// The reply to a delete request.
#[derive(Clone, Debug, PartialEq, Eq)]
pub struct DeleteModelResponse {
    pub result: DeleteResult,
    pub message: String,
    pub undeploy: bool,
}

/// A `DeleteModelResponse` as contracts see it.
pub struct DeleteModelResponseView {
    pub result: DeleteResult,
    pub message: Seq<char>,
    pub undeploy: bool,
}

impl View for DeleteModelResponse {
    type V = DeleteModelResponseView;

    open spec fn view(&self) -> DeleteModelResponseView {
        DeleteModelResponseView {
            result: self.result,
            message: self.message@,
            undeploy: self.undeploy,
        }
    }
}

impl DeleteModelResponseView {
    /// The manager's words where it reports an error.
    pub open spec fn refusal(self) -> Option<Seq<char>> {
        if self.result is Error {
            Some(self.message)
        } else {
            None
        }
    }
}

/// Where a model stands.
#[derive(Clone, Copy, Debug, PartialEq, Eq, Structural)]
pub enum StatusType {
    Undeployed,
    Reconciling,
    Deployed,
    Failed,
}

/// One entry of the list of models.
#[derive(Clone, Debug, PartialEq, Eq)]
pub struct ModelSummary {
    pub name: String,
    pub version: String,
    pub description: Option<String>,
    pub deployed_version: Option<String>,
    pub status: StatusType,
    pub status_message: Option<String>,
}

/// A `ModelSummary` as contracts see it.
pub struct ModelSummaryView {
    pub name: Seq<char>,
    pub version: Seq<char>,
    pub description: Option<Seq<char>>,
    pub deployed_version: Option<Seq<char>>,
    pub status: StatusType,
    pub status_message: Option<Seq<char>>,
}

impl View for ModelSummary {
    type V = ModelSummaryView;

    open spec fn view(&self) -> ModelSummaryView {
        ModelSummaryView {
            name: self.name@,
            version: self.version@,
            description: self.description.deep_view(),
            deployed_version: self.deployed_version.deep_view(),
            status: self.status,
            status_message: self.status_message.deep_view(),
        }
    }
}

/// A list of models taken entry by entry.
pub open spec fn summaries_view(list: Seq<ModelSummary>) -> Seq<ModelSummaryView> {
    list.map_values(|summary: ModelSummary| summary@)
}

fn unreadable<T>(error: serde_json::Error) -> (refused: Result<T, ModelError>)
    ensures
        refused matches Err(ModelError::InvalidResponse(_)),
{
    Err(ModelError::InvalidResponse(json_error_text(&error)))
}

/// Settles the reply to a deploy or an undeploy request: the manager's
/// error becomes a failure with the manager's text, anything else is the
/// reply.
pub fn accept_deploy_response(response: DeployModelResponse) -> (result: Result<
    DeployModelResponse,
    ModelError,
>)
    ensures
        outcome_view(result) == settled(response@, response@.refusal()),
{
    match response.result {
        DeployResult::Error => Err(ModelError::RemoteError(response.message)),
        _ => Ok(response),
    }
}

/// Settles the reply to a put request.
pub fn accept_put_response(response: PutModelResponse) -> (result: Result<
    PutModelResponse,
    ModelError,
>)
    ensures
        outcome_view(result) == settled(response@, response@.refusal()),
{
    match response.result {
        PutResult::Error => Err(ModelError::RemoteError(response.message)),
        _ => Ok(response),
    }
}

/// Settles the reply to a request for versions.
pub fn accept_version_response(response: VersionResponse) -> (result: Result<
    VersionResponse,
    ModelError,
>)
    ensures
        outcome_view(result) == settled(response@, response@.refusal()),
{
    match response.result {
        GetResult::Error => Err(ModelError::RemoteError(response.message)),
        _ => Ok(response),
    }
}

/// Settles the reply to a request for details.
pub fn accept_get_response(response: GetModelResponse) -> (result: Result<
    GetModelResponse,
    ModelError,
>)
    ensures
        outcome_view(result) == settled(response@, response@.refusal()),
{
    match response.result {
        GetResult::Error => Err(ModelError::RemoteError(response.message)),
        _ => Ok(response),
    }
}

/// Settles the reply to a delete request.
pub fn accept_delete_response(response: DeleteModelResponse) -> (result: Result<
    DeleteModelResponse,
    ModelError,
>)
    ensures
        outcome_view(result) == settled(response@, response@.refusal()),
{
    match response.result {
        DeleteResult::Error => Err(ModelError::RemoteError(response.message)),
        _ => Ok(response),
    }
}

/// Reads what came back for a deploy or an undeploy request.
pub fn read_deploy_response(delivery: Delivery) -> (result: Result<DeployModelResponse, ModelError>)
    ensures
        (match arrival(delivery@) {
            Err(error) => outcome_view(result) == Err::<DeployModelResponseView, _>(error),
            Ok(payload) => match parsed_deploy_response(payload) {
                None => result matches Err(ModelError::InvalidResponse(_)),
                Some(response) => outcome_view(result) == settled(response, response.refusal()),
            },
        }),
{
    match receive(delivery) {
        Err(error) => Err(error),
        Ok(payload) => match decode_deploy_response(payload.as_slice()) {
            Err(error) => unreadable(error),
            Ok(response) => accept_deploy_response(response),
        },
    }
}

/// Reads what came back for a put request.
pub fn read_put_response(delivery: Delivery) -> (result: Result<PutModelResponse, ModelError>)
    ensures
        (match arrival(delivery@) {
            Err(error) => outcome_view(result) == Err::<PutModelResponseView, _>(error),
            Ok(payload) => match parsed_put_response(payload) {
                None => result matches Err(ModelError::InvalidResponse(_)),
                Some(response) => outcome_view(result) == settled(response, response.refusal()),
            },
        }),
{
    match receive(delivery) {
        Err(error) => Err(error),
        Ok(payload) => match decode_put_response(payload.as_slice()) {
            Err(error) => unreadable(error),
            Ok(response) => accept_put_response(response),
        },
    }
}

/// Reads what came back for a request for the versions of a model.
pub fn read_version_response(delivery: Delivery) -> (result: Result<VersionResponse, ModelError>)
    ensures
        (match arrival(delivery@) {
            Err(error) => outcome_view(result) == Err::<VersionResponseView, _>(error),
            Ok(payload) => match parsed_version_response(payload) {
                None => result matches Err(ModelError::InvalidResponse(_)),
                Some(response) => outcome_view(result) == settled(response, response.refusal()),
            },
        }),
{
    match receive(delivery) {
        Err(error) => Err(error),
        Ok(payload) => match decode_version_response(payload.as_slice()) {
            Err(error) => unreadable(error),
            Ok(response) => accept_version_response(response),
        },
    }
}

/// Reads what came back for a request for the details of a model.
///
/// The manifest of a reply is handed over as the codec made it; the
/// contract says whether one came, not what it holds.
pub fn read_get_response(delivery: Delivery) -> (result: Result<GetModelResponse, ModelError>)
    ensures
        (match arrival(delivery@) {
            Err(error) => outcome_view(result) == Err::<GetModelResponseView, _>(error),
            Ok(payload) => match parsed_get_response(payload) {
                None => result matches Err(ModelError::InvalidResponse(_)),
                Some(reading) => if reading.result is Error {
                    result matches Err(failure) && failure@ == ModelErrorView::RemoteError(
                        reading.message,
                    )
                } else {
                    result matches Ok(response) && response@.reading() == reading
                },
            },
        }),
{
    match receive(delivery) {
        Err(error) => Err(error),
        Ok(payload) => match decode_get_response(payload.as_slice()) {
            Err(error) => unreadable(error),
            Ok(response) => accept_get_response(response),
        },
    }
}

/// Reads what came back for a delete request.
pub fn read_delete_response(delivery: Delivery) -> (result: Result<DeleteModelResponse, ModelError>)
    ensures
        (match arrival(delivery@) {
            Err(error) => outcome_view(result) == Err::<DeleteModelResponseView, _>(error),
            Ok(payload) => match parsed_delete_response(payload) {
                None => result matches Err(ModelError::InvalidResponse(_)),
                Some(response) => outcome_view(result) == settled(response, response.refusal()),
            },
        }),
{
    match receive(delivery) {
        Err(error) => Err(error),
        Ok(payload) => match decode_delete_response(payload.as_slice()) {
            Err(error) => unreadable(error),
            Ok(response) => accept_delete_response(response),
        },
    }
}

/// Reads what came back for a request for the list of models.
///
/// The list has no field to report an error in. Where the payload is no
/// list, it is read once more as the manager's error reply, which has
/// the shape of a deploy reply, and where that reports an error the
/// failure is the manager's.
pub fn read_model_list(delivery: Delivery) -> (result: Result<Vec<ModelSummary>, ModelError>)
    ensures
        (match arrival(delivery@) {
            Err(error) => result matches Err(failure) && failure@ == error,
            Ok(payload) => match parsed_model_list(payload) {
                Some(list) => result matches Ok(models) && summaries_view(models@) == list,
                None => match parsed_deploy_response(payload) {
                    Some(response) if response.refusal() is Some => result matches Err(failure)
                        && failure@ == ModelErrorView::RemoteError(response.message),
                    _ => result matches Err(ModelError::InvalidResponse(_)),
                },
            },
        }),
{
    match receive(delivery) {
        Err(error) => Err(error),
        Ok(payload) => match decode_model_list(payload.as_slice()) {
            Ok(models) => Ok(models),
            Err(error) => match decode_deploy_response(payload.as_slice()) {
                Ok(response) => match accept_deploy_response(response) {
                    Err(failure) => Err(failure),
                    Ok(_) => unreadable(error),
                },
                Err(_) => unreadable(error),
            },
        },
    }
}

} // verus!
