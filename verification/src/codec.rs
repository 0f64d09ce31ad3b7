//! The JSON codec at the edge of the library.
//!
//! Request bodies are written and replies are read by `serde_json`, on the
//! manager's own message types from `wadm`. Nothing in this module is
//! proved: each function makes one such call and hands plain values
//! over, and its contract says what is taken on trust. The rest of the
//! library is proved against these contracts.
//!
//! Writing a request body cannot fail. `serde_json::to_vec` fails only
//! where the writer fails, where the value's own `Serialize` gives up, or
//! where a map has a key that is no string. Here the writer is a vector,
//! and the request types are structs of a flag or a text, with the
//! `Serialize` that `serde` derives for them.

use crate::reply::{
    summaries_view, DeleteModelResponse, DeleteModelResponseView, DeleteResult,
    DeployModelResponse, DeployModelResponseView, DeployResult, GetModelResponse,
    GetModelReading, GetResult, ModelSummary, ModelSummaryView, PutModelResponse,
    PutModelResponseView, PutResult, StatusType, VersionInfo, VersionResponse, VersionResponseView,
};
use vstd::prelude::*;
use vstd::string::StringSliceAdditionalSpecFns;

verus! {

/// The error of the JSON codec. Nothing is known of a value but what the
/// functions below say.
#[verifier::external_type_specification]
#[verifier::external_body]
pub struct ExJsonError(serde_json::Error);

/// An application manifest as the manager holds it. It is carried through
/// unread.
#[verifier::external_type_specification]
#[verifier::external_body]
pub struct ExManifest(wadm::model::Manifest);

/// The JSON text of an undeploy request body: an object whose one member
/// is the flag.
pub open spec fn undeploy_request_json(non_destructive: bool) -> Seq<u8> {
    if non_destructive {
        "{\"non_destructive\":true}".spec_bytes()
    } else {
        "{\"non_destructive\":false}".spec_bytes()
    }
}

/// The JSON text of a deploy request body.
pub uninterp spec fn deploy_request_json(version: Option<Seq<char>>) -> Seq<u8>;

/// The JSON text of a get request body.
pub uninterp spec fn get_request_json(version: Option<Seq<char>>) -> Seq<u8>;

/// The JSON text of a delete request body.
pub uninterp spec fn delete_request_json(version: Seq<char>, delete_all: bool) -> Seq<u8>;

/// Calls `serde_json::to_vec` on a `wadm::server::UndeployModelRequest`
/// made of the argument. Claimed: bytes are always returned, and they
/// are the compact JSON object with the member `non_destructive`, whose
/// value is the argument written as `true` or `false`.
#[verifier::external_body]
pub(crate) fn encode_undeploy_request(non_destructive: bool) -> (encoded: Result<
    Vec<u8>,
    serde_json::Error,
>)
    ensures
        encoded is Ok,
        encoded matches Ok(bytes) ==> bytes@ == undeploy_request_json(non_destructive),
{
    serde_json::to_vec(&wadm::server::UndeployModelRequest { non_destructive })
}

/// Calls `serde_json::to_vec` on a `wadm::server::DeployModelRequest` made
/// of the argument. Claimed: bytes are always returned, and they are a
/// function of the argument's text alone.
#[verifier::external_body]
pub(crate) fn encode_deploy_request(version: Option<String>) -> (encoded: Result<
    Vec<u8>,
    serde_json::Error,
>)
    ensures
        encoded is Ok,
        encoded matches Ok(bytes) ==> bytes@ == deploy_request_json(version.deep_view()),
{
    serde_json::to_vec(&wadm::server::DeployModelRequest { version })
}

/// Calls `serde_json::to_vec` on a `wadm::server::GetModelRequest` made of
/// the argument. Claimed: bytes are always returned, and they are a
/// function of the argument's text alone.
#[verifier::external_body]
pub(crate) fn encode_get_request(version: Option<String>) -> (encoded: Result<
    Vec<u8>,
    serde_json::Error,
>)
    ensures
        encoded is Ok,
        encoded matches Ok(bytes) ==> bytes@ == get_request_json(version.deep_view()),
{
    serde_json::to_vec(&wadm::server::GetModelRequest { version })
}

/// Calls `serde_json::to_vec` on a `wadm::server::DeleteModelRequest` made
/// of the arguments. Claimed: bytes are always returned, and they are a
/// function of the arguments alone, the version taken by its text.
#[verifier::external_body]
pub(crate) fn encode_delete_request(version: String, delete_all: bool) -> (encoded: Result<
    Vec<u8>,
    serde_json::Error,
>)
    ensures
        encoded is Ok,
        encoded matches Ok(bytes) ==> bytes@ == delete_request_json(version@, delete_all),
{
    serde_json::to_vec(&wadm::server::DeleteModelRequest { version, delete_all })
}

/// Calls `to_string` on a `serde_json::Error`, which writes the error out
/// by its `Display`. Nothing is claimed of the text.
#[verifier::external_body]
pub(crate) fn json_error_text(error: &serde_json::Error) -> (text: String) {
    error.to_string()
}

/// What a payload says when read as the reply to a deploy or an undeploy
/// request; `None` where it cannot be read as one.
pub uninterp spec fn parsed_deploy_response(payload: Seq<u8>) -> Option<DeployModelResponseView>;

/// What a payload says when read as the reply to a put request; `None`
/// where it cannot be read as one.
pub uninterp spec fn parsed_put_response(payload: Seq<u8>) -> Option<PutModelResponseView>;

/// What a payload says when read as the reply to a request for versions;
/// `None` where it cannot be read as one.
pub uninterp spec fn parsed_version_response(payload: Seq<u8>) -> Option<VersionResponseView>;

/// What a payload says when read as the reply to a request for details,
/// the manifest's content apart; `None` where it cannot be read as one.
pub uninterp spec fn parsed_get_response(payload: Seq<u8>) -> Option<GetModelReading>;

/// What a payload says when read as the reply to a delete request; `None`
/// where it cannot be read as one.
pub uninterp spec fn parsed_delete_response(payload: Seq<u8>) -> Option<DeleteModelResponseView>;

/// What a payload says when read as the list of models; `None` where it
/// cannot be read as one.
pub uninterp spec fn parsed_model_list(payload: Seq<u8>) -> Option<Seq<ModelSummaryView>>;

/// Calls `serde_json::from_slice` for a `wadm::server::DeployModelResponse`
/// and hands its two fields over. Claimed: what is read, or that nothing
/// can be read, is a function of the bytes alone.
#[verifier::external_body]
pub(crate) fn decode_deploy_response(payload: &[u8]) -> (decoded: Result<
    DeployModelResponse,
    serde_json::Error,
>)
    ensures
        (match decoded {
            Ok(response) => parsed_deploy_response(payload@) == Some(response@),
            Err(_) => parsed_deploy_response(payload@) is None,
        }),
{
    let parsed: wadm::server::DeployModelResponse = serde_json::from_slice(payload)?;
    let result = match parsed.result {
        wadm::server::DeployResult::Error => DeployResult::Error,
        wadm::server::DeployResult::Acknowledged => DeployResult::Acknowledged,
        wadm::server::DeployResult::NotFound => DeployResult::NotFound,
    };
    Ok(DeployModelResponse { result, message: parsed.message })
}

/// Calls `serde_json::from_slice` for a `wadm::server::PutModelResponse`
/// and hands its fields over. Claimed: what is read, or that nothing can
/// be read, is a function of the bytes alone.
#[verifier::external_body]
pub(crate) fn decode_put_response(payload: &[u8]) -> (decoded: Result<
    PutModelResponse,
    serde_json::Error,
>)
    ensures
        (match decoded {
            Ok(response) => parsed_put_response(payload@) == Some(response@),
            Err(_) => parsed_put_response(payload@) is None,
        }),
{
    let parsed: wadm::server::PutModelResponse = serde_json::from_slice(payload)?;
    let result = match parsed.result {
        wadm::server::PutResult::Error => PutResult::Error,
        wadm::server::PutResult::Created => PutResult::Created,
        wadm::server::PutResult::NewVersion => PutResult::NewVersion,
    };
    let (total_versions, current_version) = (parsed.total_versions, parsed.current_version);
    let (message, name) = (parsed.message, parsed.name);
    Ok(PutModelResponse { result, total_versions, current_version, message, name })
}

/// Calls `serde_json::from_slice` for a `wadm::server::VersionResponse`
/// and hands its fields over, the versions in the order they came in.
/// Claimed: what is read, or that nothing can be read, is a function of
/// the bytes alone.
#[verifier::external_body]
pub(crate) fn decode_version_response(payload: &[u8]) -> (decoded: Result<
    VersionResponse,
    serde_json::Error,
>)
    ensures
        (match decoded {
            Ok(response) => parsed_version_response(payload@) == Some(response@),
            Err(_) => parsed_version_response(payload@) is None,
        }),
{
    let parsed: wadm::server::VersionResponse = serde_json::from_slice(payload)?;
    let result = match parsed.result {
        wadm::server::GetResult::Error => GetResult::Error,
        wadm::server::GetResult::Success => GetResult::Success,
        wadm::server::GetResult::NotFound => GetResult::NotFound,
    };
    let versions = parsed.versions.into_iter();
    let versions = versions.map(|v| VersionInfo { version: v.version, deployed: v.deployed });
    Ok(VersionResponse { result, message: parsed.message, versions: versions.collect() })
}

/// Calls `serde_json::from_slice` for a `wadm::server::GetModelResponse`
/// and hands its fields over, the manifest as it is. Claimed: whether
/// anything can be read, how the request fared, the message, and whether
/// a manifest came are a function of the bytes alone. Nothing is claimed
/// of what the manifest holds.
#[verifier::external_body]
pub(crate) fn decode_get_response(payload: &[u8]) -> (decoded: Result<
    GetModelResponse,
    serde_json::Error,
>)
    ensures
        (match decoded {
            Ok(response) => parsed_get_response(payload@) == Some(response@.reading()),
            Err(_) => parsed_get_response(payload@) is None,
        }),
{
    let parsed: wadm::server::GetModelResponse = serde_json::from_slice(payload)?;
    let result = match parsed.result {
        wadm::server::GetResult::Error => GetResult::Error,
        wadm::server::GetResult::Success => GetResult::Success,
        wadm::server::GetResult::NotFound => GetResult::NotFound,
    };
    Ok(GetModelResponse { result, message: parsed.message, manifest: parsed.manifest })
}

/// Calls `serde_json::from_slice` for a `wadm::server::DeleteModelResponse`
/// and hands its fields over. Claimed: what is read, or that nothing can
/// be read, is a function of the bytes alone.
#[verifier::external_body]
pub(crate) fn decode_delete_response(payload: &[u8]) -> (decoded: Result<
    DeleteModelResponse,
    serde_json::Error,
>)
    ensures
        (match decoded {
            Ok(response) => parsed_delete_response(payload@) == Some(response@),
            Err(_) => parsed_delete_response(payload@) is None,
        }),
{
    let parsed: wadm::server::DeleteModelResponse = serde_json::from_slice(payload)?;
    let result = match parsed.result {
        wadm::server::DeleteResult::Deleted => DeleteResult::Deleted,
        wadm::server::DeleteResult::Error => DeleteResult::Error,
        wadm::server::DeleteResult::Noop => DeleteResult::Noop,
    };
    Ok(DeleteModelResponse { result, message: parsed.message, undeploy: parsed.undeploy })
}

/// Calls `serde_json::from_slice` for a list of
/// `wadm::server::ModelSummary` and hands the entries over, field for
/// field and in the order they came in. Claimed: what is read, or that
/// nothing can be read, is a function of the bytes alone.
#[verifier::external_body]
pub(crate) fn decode_model_list(payload: &[u8]) -> (decoded: Result<
    Vec<ModelSummary>,
    serde_json::Error,
>)
    ensures
        (match decoded {
            Ok(models) => parsed_model_list(payload@) == Some(summaries_view(models@)),
            Err(_) => parsed_model_list(payload@) is None,
        }),
{
    let parsed: Vec<wadm::server::ModelSummary> = serde_json::from_slice(payload)?;
    Ok(parsed.into_iter().map(|s| ModelSummary {
        name: s.name, version: s.version, description: s.description,
        deployed_version: s.deployed_version, status_message: s.status_message,
        status: match s.status {
            wadm::server::StatusType::Undeployed => StatusType::Undeployed,
            wadm::server::StatusType::Reconciling => StatusType::Reconciling,
            wadm::server::StatusType::Deployed => StatusType::Deployed,
            wadm::server::StatusType::Failed => StatusType::Failed,
        },
    }).collect())
}

} // verus!
