use wash_lib::model::ModelError;
use wash_lib::reply::accept_delete_response;
use wash_lib::reply::accept_deploy_response;
use wash_lib::reply::accept_get_response;
use wash_lib::reply::accept_put_response;
use wash_lib::reply::accept_version_response;
use wash_lib::reply::read_delete_response;
use wash_lib::reply::read_deploy_response;
use wash_lib::reply::read_get_response;
use wash_lib::reply::read_model_list;
use wash_lib::reply::read_put_response;
use wash_lib::reply::read_version_response;
use wash_lib::reply::receive;
use wash_lib::reply::DeleteModelResponse;
use wash_lib::reply::DeleteResult;
use wash_lib::reply::Delivery;
use wash_lib::reply::DeployModelResponse;
use wash_lib::reply::DeployResult;
use wash_lib::reply::GetModelResponse;
use wash_lib::reply::GetResult;
use wash_lib::reply::ModelSummary;
use wash_lib::reply::PutModelResponse;
use wash_lib::reply::PutResult;
use wash_lib::reply::StatusType;
use wash_lib::reply::VersionInfo;
use wash_lib::reply::VersionResponse;

fn reply(json: &str) -> Delivery {
    Delivery::Reply(json.as_bytes().to_vec())
}

fn timed_out() -> Delivery {
    Delivery::TimedOut("deadline has elapsed".to_string())
}

fn bus_failed() -> Delivery {
    Delivery::TransportFailed("no responders".to_string())
}

const ERROR_REPLY: &str = "{\"result\":\"error\",\"message\":\"Internal storage error\"}";

fn remote_error() -> ModelError {
    ModelError::RemoteError("Internal storage error".to_string())
}

#[test]
fn body_of_a_delivery() {
    assert_eq!(receive(Delivery::Reply(vec![123, 125])), Ok(vec![123, 125]));
    assert_eq!(receive(Delivery::Reply(Vec::new())), Ok(Vec::new()));
    assert_eq!(
        receive(timed_out()),
        Err(ModelError::TransportTimeout("deadline has elapsed".to_string()))
    );
    assert_eq!(receive(bus_failed()), Err(ModelError::TransportError("no responders".to_string())));
}

#[test]
fn timeout_is_told_from_an_error_reply() {
    let timeout = ModelError::TransportTimeout("deadline has elapsed".to_string());

    assert_eq!(read_deploy_response(timed_out()), Err(timeout.clone()));
    assert_eq!(read_put_response(timed_out()), Err(timeout.clone()));
    assert_eq!(read_version_response(timed_out()), Err(timeout.clone()));
    assert_eq!(read_get_response(timed_out()), Err(timeout.clone()));
    assert_eq!(read_delete_response(timed_out()), Err(timeout.clone()));
    assert_eq!(read_model_list(timed_out()), Err(timeout));

    assert_eq!(read_deploy_response(reply(ERROR_REPLY)), Err(remote_error()));
    assert_eq!(read_put_response(reply(ERROR_REPLY)), Err(remote_error()));
    assert_eq!(read_get_response(reply(ERROR_REPLY)), Err(remote_error()));
    assert_eq!(read_delete_response(reply(ERROR_REPLY)), Err(remote_error()));
    assert_eq!(read_model_list(reply(ERROR_REPLY)), Err(remote_error()));
    assert_eq!(
        read_version_response(reply(
            "{\"result\":\"error\",\"message\":\"Internal storage error\",\"versions\":[]}"
        )),
        Err(remote_error())
    );
}

#[test]
fn transport_failure_is_told_from_both() {
    let failure = ModelError::TransportError("no responders".to_string());

    assert_eq!(read_deploy_response(bus_failed()), Err(failure.clone()));
    assert_eq!(read_put_response(bus_failed()), Err(failure.clone()));
    assert_eq!(read_version_response(bus_failed()), Err(failure.clone()));
    assert_eq!(read_get_response(bus_failed()), Err(failure.clone()));
    assert_eq!(read_delete_response(bus_failed()), Err(failure.clone()));
    assert_eq!(read_model_list(bus_failed()), Err(failure));
}

#[test]
fn unreadable_replies_are_invalid() {
    assert!(matches!(read_deploy_response(reply("")), Err(ModelError::InvalidResponse(_))));
    assert!(matches!(read_deploy_response(reply("{}")), Err(ModelError::InvalidResponse(_))));
    assert!(matches!(
        read_deploy_response(reply("{\"result\":\"perhaps\"}")),
        Err(ModelError::InvalidResponse(_))
    ));
    assert!(matches!(read_put_response(reply("[]")), Err(ModelError::InvalidResponse(_))));
    assert!(matches!(
        read_version_response(reply(ERROR_REPLY)),
        Err(ModelError::InvalidResponse(_))
    ));
    assert!(matches!(read_get_response(reply("null")), Err(ModelError::InvalidResponse(_))));
    assert!(matches!(read_delete_response(reply("{")), Err(ModelError::InvalidResponse(_))));
    assert!(matches!(read_model_list(reply("{}")), Err(ModelError::InvalidResponse(_))));
    assert!(matches!(
        read_model_list(reply("{\"result\":\"acknowledged\",\"message\":\"fine\"}")),
        Err(ModelError::InvalidResponse(_))
    ));
    let error = read_model_list(reply("nonsense")).unwrap_err();
    assert_eq!(error.message(), "expected ident at line 1 column 2");
}

#[test]
fn deploy_replies() {
    assert_eq!(
        read_deploy_response(reply(
            "{\"result\":\"acknowledged\",\"message\":\"Deployed model\"}"
        )),
        Ok(DeployModelResponse {
            result: DeployResult::Acknowledged,
            message: "Deployed model".to_string(),
        })
    );
    assert_eq!(
        read_deploy_response(reply("{\"result\":\"notfound\"}")),
        Ok(DeployModelResponse { result: DeployResult::NotFound, message: String::new() })
    );
}

#[test]
fn put_replies() {
    assert_eq!(
        read_put_response(reply(
            "{\"result\":\"newversion\",\"total_versions\":3,\"current_version\":\"v3\",\
             \"message\":\"Successfully put manifest\",\"name\":\"petclinic\"}"
        )),
        Ok(PutModelResponse {
            result: PutResult::NewVersion,
            total_versions: 3,
            current_version: "v3".to_string(),
            message: "Successfully put manifest".to_string(),
            name: "petclinic".to_string(),
        })
    );
    assert_eq!(
        read_put_response(reply("{\"result\":\"created\"}")),
        Ok(PutModelResponse {
            result: PutResult::Created,
            total_versions: 0,
            current_version: String::new(),
            message: String::new(),
            name: String::new(),
        })
    );
}

#[test]
fn version_replies_keep_their_order() {
    assert_eq!(
        read_version_response(reply(
            "{\"result\":\"success\",\"message\":\"\",\"versions\":[\
             {\"version\":\"v2\",\"deployed\":false},{\"version\":\"v1\",\"deployed\":true}]}"
        )),
        Ok(VersionResponse {
            result: GetResult::Success,
            message: String::new(),
            versions: vec![
                VersionInfo { version: "v2".to_string(), deployed: false },
                VersionInfo { version: "v1".to_string(), deployed: true },
            ],
        })
    );
    assert_eq!(
        read_version_response(reply("{\"result\":\"notfound\",\"versions\":[]}")),
        Ok(VersionResponse {
            result: GetResult::NotFound,
            message: String::new(),
            versions: Vec::new(),
        })
    );
}

#[test]
fn get_replies() {
    assert_eq!(
        read_get_response(reply("{\"result\":\"notfound\",\"message\":\"no such model\"}")),
        Ok(GetModelResponse {
            result: GetResult::NotFound,
            message: "no such model".to_string(),
            manifest: None,
        })
    );

    let found = read_get_response(reply(
        "{\"result\":\"success\",\"message\":\"\",\"manifest\":{\
         \"apiVersion\":\"core.oam.dev/v1beta1\",\"kind\":\"Application\",\
         \"metadata\":{\"name\":\"petclinic\",\"annotations\":{\"version\":\"v1\"}},\
         \"spec\":{\"components\":[]}}}",
    ))
    .unwrap();
    assert_eq!(found.result, GetResult::Success);
    assert_eq!(found.message, "");
    let manifest = found.manifest.unwrap();
    assert_eq!(manifest.kind, "Application");
    assert_eq!(manifest.metadata.name, "petclinic");
    assert_eq!(manifest.version(), "v1");
}

#[test]
fn delete_replies() {
    assert_eq!(
        read_delete_response(reply(
            "{\"result\":\"deleted\",\"message\":\"gone\",\"undeploy\":true}"
        )),
        Ok(DeleteModelResponse {
            result: DeleteResult::Deleted,
            message: "gone".to_string(),
            undeploy: true,
        })
    );
    assert_eq!(
        read_delete_response(reply("{\"result\":\"noop\"}")),
        Ok(DeleteModelResponse {
            result: DeleteResult::Noop,
            message: String::new(),
            undeploy: false,
        })
    );
}

#[test]
fn model_lists() {
    assert_eq!(read_model_list(reply("[]")), Ok(Vec::new()));
    assert_eq!(
        read_model_list(reply(
            "[{\"name\":\"petclinic\",\"version\":\"v2\",\"description\":\"pets\",\
             \"deployed_version\":\"v1\",\"status\":\"deployed\",\"status_message\":\"ok\"},\
             {\"name\":\"echo\",\"version\":\"v1\",\"description\":null,\
             \"deployed_version\":null,\"status\":\"undeployed\",\"status_message\":null},\
             {\"name\":\"kv\",\"version\":\"v1\",\"status\":\"compensating\"},\
             {\"name\":\"web\",\"version\":\"v9\",\"status\":\"failed\"}]"
        )),
        Ok(vec![
            ModelSummary {
                name: "petclinic".to_string(),
                version: "v2".to_string(),
                description: Some("pets".to_string()),
                deployed_version: Some("v1".to_string()),
                status: StatusType::Deployed,
                status_message: Some("ok".to_string()),
            },
            ModelSummary {
                name: "echo".to_string(),
                version: "v1".to_string(),
                description: None,
                deployed_version: None,
                status: StatusType::Undeployed,
                status_message: None,
            },
            ModelSummary {
                name: "kv".to_string(),
                version: "v1".to_string(),
                description: None,
                deployed_version: None,
                status: StatusType::Reconciling,
                status_message: None,
            },
            ModelSummary {
                name: "web".to_string(),
                version: "v9".to_string(),
                description: None,
                deployed_version: None,
                status: StatusType::Failed,
                status_message: None,
            },
        ])
    );
}

#[test]
fn replies_are_settled_by_their_result() {
    let deploy = |result| DeployModelResponse { result, message: "said".to_string() };
    assert_eq!(
        accept_deploy_response(deploy(DeployResult::Error)),
        Err(ModelError::RemoteError("said".to_string()))
    );
    assert_eq!(
        accept_deploy_response(deploy(DeployResult::Acknowledged)),
        Ok(deploy(DeployResult::Acknowledged))
    );
    assert_eq!(
        accept_deploy_response(deploy(DeployResult::NotFound)),
        Ok(deploy(DeployResult::NotFound))
    );

    let put = |result| PutModelResponse {
        result,
        total_versions: 1,
        current_version: "v1".to_string(),
        message: "said".to_string(),
        name: "petclinic".to_string(),
    };
    assert_eq!(
        accept_put_response(put(PutResult::Error)),
        Err(ModelError::RemoteError("said".to_string()))
    );
    assert_eq!(accept_put_response(put(PutResult::Created)), Ok(put(PutResult::Created)));
    assert_eq!(accept_put_response(put(PutResult::NewVersion)), Ok(put(PutResult::NewVersion)));

    let versions = |result| VersionResponse {
        result,
        message: "said".to_string(),
        versions: vec![VersionInfo { version: "v1".to_string(), deployed: true }],
    };
    assert_eq!(
        accept_version_response(versions(GetResult::Error)),
        Err(ModelError::RemoteError("said".to_string()))
    );
    assert_eq!(
        accept_version_response(versions(GetResult::Success)),
        Ok(versions(GetResult::Success))
    );
    assert_eq!(
        accept_version_response(versions(GetResult::NotFound)),
        Ok(versions(GetResult::NotFound))
    );

    let get = |result| GetModelResponse { result, message: String::new(), manifest: None };
    assert_eq!(
        accept_get_response(get(GetResult::Error)),
        Err(ModelError::RemoteError(String::new()))
    );
    assert_eq!(accept_get_response(get(GetResult::Success)), Ok(get(GetResult::Success)));
    assert_eq!(accept_get_response(get(GetResult::NotFound)), Ok(get(GetResult::NotFound)));

    let delete = |result| DeleteModelResponse { result, message: "said".to_string(), undeploy: false };
    assert_eq!(
        accept_delete_response(delete(DeleteResult::Error)),
        Err(ModelError::RemoteError("said".to_string()))
    );
    assert_eq!(
        accept_delete_response(delete(DeleteResult::Deleted)),
        Ok(delete(DeleteResult::Deleted))
    );
    assert_eq!(accept_delete_response(delete(DeleteResult::Noop)), Ok(delete(DeleteResult::Noop)));
}
