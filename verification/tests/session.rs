use vm_api_server::message::{ApiRequest, StatusCode};
use vm_api_server::routes::ApiRoutes;
use vm_api_server::server::ApiServer;
use vm_api_server::session::{Session, SessionState};

fn request(method: &str, path: &str, body: &[u8]) -> ApiRequest {
    ApiRequest { method: method.to_string(), path: path.to_string(), body: body.to_vec() }
}

#[test]
fn unparsable_connection_gets_bad_request() {
    let mut session = Session::new();
    assert_eq!(session.state(), SessionState::Reading);
    session.read_failed();
    assert_eq!(session.state(), SessionState::Writing);
    let responses = session.take_responses();
    assert_eq!(session.state(), SessionState::Closed);
    assert_eq!(responses.len(), 1);
    assert_eq!(responses[0].status, StatusCode::BadRequest);
    assert_eq!(responses[0].status.code(), 400);
    assert_eq!(responses[0].body, None);
}

#[test]
fn pipelined_requests_answered_in_order() {
    let routes = ApiRoutes::with_vm_routes();
    let mut session = Session::new();
    session.reads_complete(vec![
        request("PUT", "/vm.start", b""),
        request("PUT", "/vm.create", b""),
    ]);
    assert_eq!(session.state(), SessionState::Dispatching);
    session.dispatch_pending(&routes);
    assert_eq!(session.state(), SessionState::Writing);
    let responses = session.take_responses();
    assert_eq!(responses.len(), 2);
    assert_eq!(responses[0].status.code(), 200);
    assert_eq!(responses[0].body, Some("Vm Start DONE".to_string()));
    assert_eq!(responses[1].status.code(), 200);
    assert_eq!(responses[1].body, Some("Vm Create DONE".to_string()));
}

#[test]
fn each_response_matches_its_own_request() {
    let routes = ApiRoutes::with_vm_routes();
    let mut session = Session::new();
    session.reads_complete(vec![
        request("PUT", "/vm.create", b""),
        request("GET", "/vm.unknown", b""),
        request("PUT", "/vm.start", b""),
        request("PUT", "/vm.create", b""),
    ]);
    session.dispatch_pending(&routes);
    let responses = session.take_responses();
    assert_eq!(responses.len(), 4);
    assert_eq!(responses[0].body, Some("Vm Create DONE".to_string()));
    assert_eq!(responses[1].status.code(), 404);
    assert_eq!(responses[2].body, Some("Vm Start DONE".to_string()));
    assert_eq!(responses[3].body, Some("Vm Create DONE".to_string()));
}

#[test]
fn empty_read_yields_no_responses() {
    let routes = ApiRoutes::with_vm_routes();
    let mut session = Session::new();
    session.reads_complete(Vec::new());
    session.dispatch_pending(&routes);
    let responses = session.take_responses();
    assert_eq!(responses.len(), 0);
}

#[test]
fn interleaved_sessions_never_mix_responses() {
    let routes = ApiRoutes::with_vm_routes();
    let mut first = Session::new();
    let mut second = Session::new();
    first.reads_complete(vec![request("PUT", "/vm.create", b"")]);
    second.reads_complete(vec![request("PUT", "/vm.start", b""), request("GET", "/nope", b"")]);
    first.dispatch_pending(&routes);
    second.dispatch_pending(&routes);
    let second_out = second.take_responses();
    let first_out = first.take_responses();
    assert_eq!(first_out.len(), 1);
    assert_eq!(first_out[0].body, Some("Vm Create DONE".to_string()));
    assert_eq!(second_out.len(), 2);
    assert_eq!(second_out[0].body, Some("Vm Start DONE".to_string()));
    assert_eq!(second_out[1].status.code(), 404);
}

#[test]
fn server_configuration_is_kept() {
    let server = ApiServer::new("/tmp/cloud-hypervisor.sock", 4);
    assert_eq!(server.path, "/tmp/cloud-hypervisor.sock".to_string());
    assert_eq!(server.num_threads, 4);
}
