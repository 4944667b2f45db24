use vm_api_server::message::{ApiRequest, StatusCode, Version};
use vm_api_server::routes::{ApiRoutes, Error, Route, VmCreate, VmStart};

fn request(method: &str, path: &str, body: &[u8]) -> ApiRequest {
    ApiRequest { method: method.to_string(), path: path.to_string(), body: body.to_vec() }
}

#[test]
fn create_route_confirms() {
    let routes = ApiRoutes::with_vm_routes();
    let resp = routes.dispatch(&request("PUT", "/vm.create", b""));
    assert_eq!(resp.status, StatusCode::OK);
    assert_eq!(resp.status.code(), 200);
    assert_eq!(resp.version, Version::Http11);
    assert_eq!(resp.body, Some("Vm Create DONE".to_string()));
}

#[test]
fn start_route_confirms() {
    let routes = ApiRoutes::with_vm_routes();
    let resp = routes.dispatch(&request("PUT", "/vm.start", b""));
    assert_eq!(resp.status, StatusCode::OK);
    assert_eq!(resp.status.code(), 200);
    assert_eq!(resp.body, Some("Vm Start DONE".to_string()));
}

#[test]
fn unknown_route_is_not_found() {
    let routes = ApiRoutes::with_vm_routes();
    for path in ["/vm.unknown", "/vm.stop", "/", "", "vm.create", "/vm.create "] {
        let resp = routes.dispatch(&request("GET", path, b""));
        assert_eq!(resp.status, StatusCode::NotFound);
        assert_eq!(resp.status.code(), 404);
        assert_eq!(resp.body, None);
    }
}

#[test]
fn handlers_succeed_directly() {
    let req = request("PUT", "/vm.create", b"ignored");
    let created = VmCreate {}.handle(&req);
    match created {
        Ok(resp) => {
            assert_eq!(resp.status.code(), 200);
            assert_eq!(resp.body, Some("Vm Create DONE".to_string()));
        }
        Err(Error::EndpointMismatch) => panic!("create stub never fails"),
    }
    let started = VmStart {}.handle(&req);
    match started {
        Ok(resp) => {
            assert_eq!(resp.status.code(), 200);
            assert_eq!(resp.body, Some("Vm Start DONE".to_string()));
        }
        Err(Error::EndpointMismatch) => panic!("start stub never fails"),
    }
}

#[test]
fn status_codes_on_the_wire() {
    assert_eq!(StatusCode::OK.code(), 200);
    assert_eq!(StatusCode::BadRequest.code(), 400);
    assert_eq!(StatusCode::NotFound.code(), 404);
}
