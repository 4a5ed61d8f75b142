use etl0::client::DockerClient;
use etl0::codec::ErrorResponse;
use etl0::error::DockerError;
use etl0::types::{
    is_success, ContainerAttach, ContainerCreate, ContainerCreateSpec, ContainerList, ContainerLogs, ContainerRemove,
    ContainerStart, ContainerStop, ContainerUpload, ContainerWait, ImageCreate,
};

fn error(message: &str) -> Option<ErrorResponse> {
    Some(ErrorResponse { message: message.to_string() })
}

fn is_status_failed<T>(r: Result<T, DockerError>, status: u16) -> bool {
    matches!(r, Err(DockerError::StatusFailed(url, s)) if url == "/u" && s == status)
}

#[test]
fn start_maps_not_found_to_no_such_container() {
    let body: serde_json::Value = serde_json::from_str("{\"message\":\"no such container\"}").unwrap();
    let message = body.get("message").unwrap().as_str().unwrap();
    let url = DockerClient::containers_start_url("x");
    assert_eq!(url, "/v1.42/containers/x/start");
    assert!(ContainerStart::reads_error(404));
    match ContainerStart::from_status(&url, 404, error(message)) {
        Ok(ContainerStart::NoSuchContainer(e)) => assert_eq!(e.message, "no such container"),
        _ => panic!("NoSuchContainer"),
    }
}

#[test]
fn documented_statuses_map_to_their_variants() {
    assert!(matches!(ContainerList::from_status("/u", 400, error("m")), Ok(ContainerList::BadParameter(_))));
    assert!(matches!(ContainerList::from_status("/u", 500, error("m")), Ok(ContainerList::ServerError(_))));
    assert!(matches!(ContainerCreate::from_status("/u", 400, error("m")), Ok(ContainerCreate::BadParameter(_))));
    assert!(matches!(ContainerCreate::from_status("/u", 404, error("m")), Ok(ContainerCreate::NoSuchImage(_))));
    assert!(matches!(ContainerCreate::from_status("/u", 409, error("m")), Ok(ContainerCreate::Conflict(_))));
    assert!(matches!(ContainerCreate::from_status("/u", 500, error("m")), Ok(ContainerCreate::ServerError(_))));
    assert!(matches!(ContainerStart::from_status("/u", 304, None), Ok(ContainerStart::AlreadyStarted)));
    assert!(matches!(ContainerStart::from_status("/u", 500, error("m")), Ok(ContainerStart::ServerError(_))));
    assert!(matches!(ContainerStop::from_status("/u", 304, None), Ok(ContainerStop::AlreadyStopped)));
    assert!(matches!(ContainerStop::from_status("/u", 404, error("m")), Ok(ContainerStop::NoSuchContainer(_))));
    assert!(matches!(ContainerStop::from_status("/u", 500, error("m")), Ok(ContainerStop::ServerError(_))));
    assert!(matches!(ContainerWait::from_status("/u", 400, error("m")), Ok(ContainerWait::BadParameter(_))));
    assert!(matches!(ContainerWait::from_status("/u", 404, error("m")), Ok(ContainerWait::NoSuchContainer(_))));
    assert!(matches!(ContainerWait::from_status("/u", 500, error("m")), Ok(ContainerWait::ServerError(_))));
    assert!(matches!(ContainerRemove::from_status("/u", 400, error("m")), Ok(ContainerRemove::BadParameter(_))));
    assert!(matches!(ContainerRemove::from_status("/u", 404, error("m")), Ok(ContainerRemove::NoSuchContainer(_))));
    assert!(matches!(ContainerRemove::from_status("/u", 409, error("m")), Ok(ContainerRemove::Conflict(_))));
    assert!(matches!(ContainerRemove::from_status("/u", 500, error("m")), Ok(ContainerRemove::ServerError(_))));
    assert!(matches!(ContainerLogs::<()>::from_status("/u", 404, error("m")), Ok(ContainerLogs::NoSuchContainer(_))));
    assert!(matches!(ContainerLogs::<()>::from_status("/u", 500, error("m")), Ok(ContainerLogs::ServerError(_))));
    assert!(matches!(ContainerAttach::<()>::from_status("/u", 400, error("m")), Ok(ContainerAttach::BadParameter(_))));
    assert!(matches!(ContainerAttach::<()>::from_status("/u", 404, error("m")), Ok(ContainerAttach::NoSuchContainer(_))));
    assert!(matches!(ContainerAttach::<()>::from_status("/u", 500, error("m")), Ok(ContainerAttach::ServerError(_))));
    assert!(matches!(ContainerUpload::from_status("/u", 400, error("m")), Ok(ContainerUpload::BadParameter(_))));
    assert!(matches!(ContainerUpload::from_status("/u", 403, error("m")), Ok(ContainerUpload::PermissionDenied(_))));
    assert!(matches!(ContainerUpload::from_status("/u", 404, error("m")), Ok(ContainerUpload::NoSuchContainer(_))));
    assert!(matches!(ContainerUpload::from_status("/u", 500, error("m")), Ok(ContainerUpload::ServerError(_))));
    assert!(matches!(ImageCreate::<()>::from_status("/u", 404, error("m")), Ok(ImageCreate::NoReadAccess(_))));
    assert!(matches!(ImageCreate::<()>::from_status("/u", 500, error("m")), Ok(ImageCreate::ServerError(_))));
}

#[test]
fn other_statuses_are_status_failures() {
    for status in [302u16, 401, 403, 409, 418, 503] {
        assert!(is_status_failed(ContainerStart::from_status("/u", status, error("m")), status));
        assert!(is_status_failed(ContainerList::from_status("/u", status, error("m")), status));
        assert!(is_status_failed(ImageCreate::<()>::from_status("/u", status, error("m")), status));
    }
    assert!(is_status_failed(ContainerCreate::from_status("/u", 403, error("m")), 403));
    assert!(is_status_failed(ContainerUpload::from_status("/u", 409, error("m")), 409));
    assert!(is_status_failed(ContainerWait::from_status("/u", 304, None), 304));
    assert!(is_status_failed(ContainerRemove::from_status("/u", 404, None), 404));
    assert!(!ContainerStart::reads_error(304));
    assert!(ContainerUpload::reads_error(403));
    assert!(!ContainerList::reads_error(404));
}

#[test]
fn success_is_two_hundreds() {
    assert!(is_success(200));
    assert!(is_success(204));
    assert!(is_success(299));
    assert!(!is_success(199));
    assert!(!is_success(304));
    assert!(!is_success(404));
}

#[test]
fn endpoint_urls() {
    assert_eq!(DockerClient::open("/var/run/docker.sock").socket, "/var/run/docker.sock");
    assert_eq!(DockerClient::containers_list_url(), "/v1.42/containers/json?all=true");
    assert_eq!(DockerClient::containers_create_url(), "/v1.42/containers/create");
    assert_eq!(DockerClient::containers_stop_url("c1"), "/v1.42/containers/c1/stop");
    assert_eq!(DockerClient::containers_wait_url("c1"), "/v1.42/containers/c1/wait");
    assert_eq!(DockerClient::containers_remove_url("c1"), "/v1.42/containers/c1");
    assert_eq!(DockerClient::containers_logs_url("c1"), "/v1.42/containers/c1/logs?stdout=true");
    assert_eq!(
        DockerClient::containers_attach_url("c1"),
        "/v1.42/containers/c1/attach?logs=true&stream=true&stdout=true&stderr=true"
    );
    assert_eq!(DockerClient::container_upload_url("c1", "/opt"), "/v1.42/containers/c1/archive?path=/opt");
    assert_eq!(DockerClient::images_create_url(), "/v1.42/images/create?fromImage=python:3.12");
}

#[test]
fn create_payload_is_json() {
    let spec = ContainerCreateSpec { image: "ubuntu:latest", command: vec!["sha256sum", "/opt/a \"b\""] };
    let payload = spec.payload();
    assert_eq!(payload, "{\"Image\":\"ubuntu:latest\",\"Cmd\":[\"sha256sum\",\"/opt/a \\\"b\\\"\"]}");
    let parsed: serde_json::Value = serde_json::from_str(&payload).unwrap();
    assert_eq!(parsed["Image"], "ubuntu:latest");
    assert_eq!(parsed["Cmd"][1], "/opt/a \"b\"");
    let empty = ContainerCreateSpec { image: "x", command: Vec::new() };
    assert_eq!(empty.payload(), "{\"Image\":\"x\",\"Cmd\":[]}");
}
