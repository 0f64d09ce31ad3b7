use wash_lib::model::delete_model_version;
use wash_lib::model::frame_json;
use wash_lib::model::deploy_model;
use wash_lib::model::get_model_details;
use wash_lib::model::get_model_history;
use wash_lib::model::get_models;
use wash_lib::model::model_request;
use wash_lib::model::put_model;
use wash_lib::model::undeploy_model;
use wash_lib::model::ModelError;
use wash_lib::model::ModelOperation;
use wash_lib::model::ModelRequest;
use wash_lib::model::DEFAULT_LATTICE_PREFIX;
use wash_lib::model::REQUEST_TIMEOUT_MS;
use wash_lib::model::WADM_API_PREFIX;

fn lattice(name: &str) -> Option<String> {
    Some(name.to_string())
}

fn text(request: &ModelRequest) -> &str {
    std::str::from_utf8(&request.payload).unwrap()
}

#[test]
fn operations_are_written_as_topic_words() {
    assert_eq!(ModelOperation::List.to_string(), "list");
    assert_eq!(ModelOperation::Get.to_string(), "get");
    assert_eq!(ModelOperation::History.to_string(), "versions");
    assert_eq!(ModelOperation::Delete.to_string(), "del");
    assert_eq!(ModelOperation::Put.to_string(), "put");
    assert_eq!(ModelOperation::Deploy.to_string(), "deploy");
    assert_eq!(ModelOperation::Undeploy.to_string(), "undeploy");
}

#[test]
fn constants_of_the_protocol() {
    assert_eq!(WADM_API_PREFIX, "wadm.api");
    assert_eq!(DEFAULT_LATTICE_PREFIX, "default");
    assert_eq!(REQUEST_TIMEOUT_MS, 2000);
}

#[test]
fn topic_with_and_without_object_name() {
    let request = model_request(ModelOperation::Get, None, Some("petclinic"), vec![1, 2, 3]);
    assert_eq!(
        request,
        ModelRequest {
            topic: "wadm.api.default.model.get.petclinic".to_string(),
            payload: vec![1, 2, 3],
            timeout_ms: 2000,
        }
    );

    let request = model_request(ModelOperation::List, lattice("prod"), None, Vec::new());
    assert_eq!(request.topic, "wadm.api.prod.model.list");
    assert!(request.payload.is_empty());

    let request = model_request(ModelOperation::Delete, lattice(""), Some(""), Vec::new());
    assert_eq!(request.topic, "wadm.api..model.del.");
}

#[test]
fn every_request_waits_two_seconds() {
    let requests = [
        undeploy_model(None, "m", true).unwrap(),
        deploy_model(None, "m", None).unwrap(),
        put_model(None, "manifest"),
        get_model_history(None, "m"),
        get_model_details(None, "m", None).unwrap(),
        delete_model_version(None, "m", None, false).unwrap(),
        get_models(None),
    ];
    for request in requests {
        assert_eq!(request.timeout_ms, 2000);
    }
}

#[test]
fn undeploy_request_is_framed() {
    let request = undeploy_model(None, "echo", false).unwrap();
    assert_eq!(request.topic, "wadm.api.default.model.undeploy.echo");
    assert_eq!(text(&request), "{\"non_destructive\":false}");
    assert_eq!(request.timeout_ms, 2000);

    let request = undeploy_model(lattice("edge"), "echo", true).unwrap();
    assert_eq!(request.topic, "wadm.api.edge.model.undeploy.echo");
    assert_eq!(text(&request), "{\"non_destructive\":true}");
}

#[test]
fn deploy_request_is_framed() {
    let request = deploy_model(None, "petclinic", None).unwrap();
    assert_eq!(request.topic, "wadm.api.default.model.deploy.petclinic");
    assert_eq!(text(&request), "{\"version\":null}");

    let request = deploy_model(lattice("edge"), "petclinic", Some("v0.2.0".to_string())).unwrap();
    assert_eq!(request.topic, "wadm.api.edge.model.deploy.petclinic");
    assert_eq!(text(&request), "{\"version\":\"v0.2.0\"}");

    let request = deploy_model(None, "petclinic", Some("a \"b\"\n".to_string())).unwrap();
    assert_eq!(text(&request), "{\"version\":\"a \\\"b\\\"\\n\"}");
}

#[test]
fn put_request_carries_the_manifest_as_it_is() {
    let manifest = "apiVersion: core.oam.dev/v1beta1\nkind: Application\n# caf\u{e9}\n";

    let request = put_model(lattice("edge"), manifest);

    assert_eq!(request.topic, "wadm.api.edge.model.put");
    assert_eq!(request.payload, manifest.as_bytes().to_vec());
    assert_eq!(put_model(None, "").payload, Vec::<u8>::new());
}

#[test]
fn history_request_has_no_body() {
    let request = get_model_history(None, "petclinic");

    assert_eq!(
        request,
        ModelRequest {
            topic: "wadm.api.default.model.versions.petclinic".to_string(),
            payload: Vec::new(),
            timeout_ms: 2000,
        }
    );
}

#[test]
fn details_request_is_framed() {
    let request = get_model_details(None, "petclinic", None).unwrap();
    assert_eq!(request.topic, "wadm.api.default.model.get.petclinic");
    assert_eq!(text(&request), "{}");

    let request = get_model_details(None, "petclinic", Some("v1".to_string())).unwrap();
    assert_eq!(text(&request), "{\"version\":\"v1\"}");
}

#[test]
fn delete_request_is_framed() {
    let request = delete_model_version(None, "petclinic", None, true).unwrap();
    assert_eq!(request.topic, "wadm.api.default.model.del.petclinic");
    assert_eq!(text(&request), "{\"version\":\"\",\"delete_all\":true}");

    let request =
        delete_model_version(lattice("edge"), "petclinic", Some("v1".to_string()), false).unwrap();
    assert_eq!(request.topic, "wadm.api.edge.model.del.petclinic");
    assert_eq!(text(&request), "{\"version\":\"v1\",\"delete_all\":false}");
}

#[test]
fn list_request_has_no_body() {
    let request = get_models(lattice("edge"));

    assert_eq!(
        request,
        ModelRequest {
            topic: "wadm.api.edge.model.list".to_string(),
            payload: Vec::new(),
            timeout_ms: 2000,
        }
    );
}

#[test]
fn failures_are_worded() {
    assert_eq!(
        ModelError::TransportTimeout("deadline has elapsed".to_string()).message(),
        "model_request timed out:  deadline has elapsed"
    );
    assert_eq!(
        ModelError::TransportError("no responders".to_string()).message(),
        "Error making model request: no responders"
    );
    assert_eq!(ModelError::RemoteError("no such model".to_string()).message(), "no such model");
    assert_eq!(
        ModelError::InvalidResponse("expected value at line 1 column 1".to_string()).message(),
        "expected value at line 1 column 1"
    );
    assert_eq!(ModelError::Encoding("key must be a string".to_string()).message(), "key must be a string");
}

#[test]
fn unwritten_body_is_an_encoding_failure() {
    let error = serde_json::from_str::<bool>("maybe").unwrap_err();
    let text = error.to_string();

    let refused = frame_json(ModelOperation::Deploy, None, "petclinic", Err(error));

    assert_eq!(refused, Err(ModelError::Encoding(text)));
}

#[test]
fn written_body_is_framed() {
    let request = frame_json(ModelOperation::Get, None, "petclinic", Ok(vec![123, 125]));

    assert_eq!(
        request,
        Ok(ModelRequest {
            topic: "wadm.api.default.model.get.petclinic".to_string(),
            payload: vec![123, 125],
            timeout_ms: 2000,
        })
    );
}

#[test]
fn undeploy_request_carries_the_flag_as_given() {
    let request = undeploy_model(None, "my-app", true).unwrap();

    assert_eq!(
        request,
        ModelRequest {
            topic: "wadm.api.default.model.undeploy.my-app".to_string(),
            payload: b"{\"non_destructive\":true}".to_vec(),
            timeout_ms: 2000,
        }
    );
}

#[test]
fn requests_with_a_body_are_always_framed() {
    let awkward = "\u{0}\"\\\n\u{1f}/caf\u{e9}\u{1F600}".to_string();

    assert!(undeploy_model(Some(awkward.clone()), &awkward, false).is_ok());
    assert!(deploy_model(Some(awkward.clone()), &awkward, Some(awkward.clone())).is_ok());
    assert!(get_model_details(Some(awkward.clone()), &awkward, Some(awkward.clone())).is_ok());
    assert!(delete_model_version(None, "", Some(awkward.clone()), true).is_ok());
    assert!(delete_model_version(None, "", Some(String::new()), false).is_ok());

    let request = delete_model_version(None, "m", Some(awkward), false).unwrap();
    assert_eq!(
        text(&request),
        "{\"version\":\"\\u0000\\\"\\\\\\n\\u001f/caf\u{e9}\u{1F600}\",\"delete_all\":false}"
    );
}
