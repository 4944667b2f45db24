use vstd::prelude::*;

use crate::message::{
    not_found_view, ApiRequest, ApiRequestView, ApiResponse, ApiResponseView, StatusCode, Version,
};

verus! {

/// Failure a handler can signal back to the session that invoked it.
#[derive(Clone, Copy, PartialEq, Eq, Structural, Debug)]
pub enum Error {
    /// The request handed to a handler does not belong to that handler.
    /// The session converts it into a client-facing not-found response;
    /// it never propagates past the connection.
    EndpointMismatch,
}

/// A route's handler: invoked with one parsed request, it yields a response
/// or signals that the request does not belong to it.  Implementations must
/// be safe to call concurrently from any worker; the two shipped handlers
/// keep no state at all.
pub trait Route: Sync + Send {
    fn handle(&self, req: &ApiRequest) -> core::result::Result<ApiResponse, Error>;
}

/// The response the create stub always returns.
pub open spec fn vm_create_ok() -> ApiResponseView {
    ApiResponseView {
        version: Version::Http11,
        status: StatusCode::OK,
        body: Some("Vm Create DONE"@),
    }
}

/// The response the start stub always returns.
pub open spec fn vm_start_ok() -> ApiResponseView {
    ApiResponseView {
        version: Version::Http11,
        status: StatusCode::OK,
        body: Some("Vm Start DONE"@),
    }
}

/// Stub handler for the create operation: placeholder for the real
/// lifecycle work, it unconditionally confirms.
#[derive(Clone, Copy, PartialEq, Eq, Structural, Debug)]
pub struct VmCreate {}

impl Route for VmCreate {
    /// Succeeds on every request, with the fixed confirmation body.
    fn handle(&self, req: &ApiRequest) -> (r: core::result::Result<ApiResponse, Error>)
        ensures
            r matches Ok(resp) && resp@ == vm_create_ok(),
    {
        Ok(
            ApiResponse {
                version: Version::Http11,
                status: StatusCode::OK,
                body: Some("Vm Create DONE".to_owned()),
            },
        )
    }
}

/// Stub handler for the start operation: placeholder for the real
/// lifecycle work, it unconditionally confirms.
#[derive(Clone, Copy, PartialEq, Eq, Structural, Debug)]
pub struct VmStart {}

impl Route for VmStart {
    /// Succeeds on every request, with the fixed confirmation body.
    fn handle(&self, req: &ApiRequest) -> (r: core::result::Result<ApiResponse, Error>)
        ensures
            r matches Ok(resp) && resp@ == vm_start_ok(),
    {
        Ok(
            ApiResponse {
                version: Version::Http11,
                status: StatusCode::OK,
                body: Some("Vm Start DONE".to_owned()),
            },
        )
    }
}

/// The handlers the registry can bind a path to, as a closed set the
/// registry can store by value.
#[derive(Clone, Copy, PartialEq, Eq, Structural, Debug)]
pub enum HandlerKind {
    Create(VmCreate),
    Start(VmStart),
}

/// Image of a handler's result: the response's view on success, the
/// untouched error otherwise.
pub open spec fn handle_result_view(
    r: core::result::Result<ApiResponse, Error>,
) -> core::result::Result<ApiResponseView, Error> {
    match r {
        Ok(resp) => Ok(resp@),
        Err(e) => Err(e),
    }
}

impl HandlerKind {
    /// What each handler returns, as a mathematical function.  Both stubs
    /// succeed on every request, so no input reaches the error arm.
    pub open spec fn spec_handle(
        self,
        req: ApiRequestView,
    ) -> core::result::Result<ApiResponseView, Error> {
        match self {
            HandlerKind::Create(_) => Ok(vm_create_ok()),
            HandlerKind::Start(_) => Ok(vm_start_ok()),
        }
    }

    /// Invokes the bound handler through its `Route` implementation.
    pub fn handle(&self, req: &ApiRequest) -> (r: core::result::Result<ApiResponse, Error>)
        ensures
            handle_result_view(r) == self.spec_handle(req@),
    {
        match self {
            HandlerKind::Create(h) => h.handle(req),
            HandlerKind::Start(h) => h.handle(req),
        }
    }
}

/// One (path, handler) binding in the registry.
pub struct RouteEntry {
    pub path: String,
    pub handler: HandlerKind,
}

/// The map induced by a sequence of bindings, later bindings shadowing
/// earlier ones.  The registry never lets a shadowing binding in, so for
/// it the order is immaterial.
pub open spec fn routes_map(entries: Seq<RouteEntry>) -> Map<Seq<char>, HandlerKind>
    decreases entries.len(),
{
    if entries.len() == 0 {
        Map::empty()
    } else {
        routes_map(entries.drop_last()).insert(entries.last().path@, entries.last().handler)
    }
}

/// A path is in the induced map exactly when some binding carries it.
proof fn lemma_routes_map_domain(entries: Seq<RouteEntry>, p: Seq<char>)
    ensures
        routes_map(entries).contains_key(p) <==> exists|i: int|
            0 <= i < entries.len() && entries[i].path@ == p,
    decreases entries.len(),
{
    if entries.len() > 0 {
        lemma_routes_map_domain(entries.drop_last(), p);
        if entries.last().path@ == p {
            assert(entries[entries.len() - 1].path@ == p);
        } else if routes_map(entries.drop_last()).contains_key(p) {
            let i = choose|i: int|
                0 <= i < entries.drop_last().len() && entries.drop_last()[i].path@ == p;
            assert(entries[i].path@ == p);
        } else {
            assert forall|i: int| 0 <= i < entries.len() implies entries[i].path@ != p by {
                if i < entries.len() - 1 {
                    assert(entries.drop_last()[i].path@ != p);
                }
            }
        }
    }
}

/// With pairwise-distinct paths, the induced map binds each entry's path
/// to that entry's handler.
proof fn lemma_routes_map_at(entries: Seq<RouteEntry>, i: int)
    requires
        0 <= i < entries.len(),
        forall|a: int, b: int| 0 <= a < b < entries.len() ==> entries[a].path@ != entries[b].path@,
    ensures
        routes_map(entries).contains_key(entries[i].path@),
        routes_map(entries)[entries[i].path@] == entries[i].handler,
    decreases entries.len(),
{
    if i < entries.len() - 1 {
        assert forall|a: int, b: int|
            0 <= a < b < entries.drop_last().len() implies entries.drop_last()[a].path@
            != entries.drop_last()[b].path@ by {
            assert(entries[a].path@ != entries[b].path@);
        }
        lemma_routes_map_at(entries.drop_last(), i);
        assert(entries[i].path@ != entries[entries.len() - 1].path@);
    }
}

/// The route registry: a read-only mapping from exact path to handler,
/// built once before the listener starts accepting and shared by every
/// worker without further synchronization.  Lookup is exact-string and
/// case-sensitive: no patterns, no normalization.
pub struct ApiRoutes {
    entries: Vec<RouteEntry>,
}

impl View for ApiRoutes {
    type V = Map<Seq<char>, HandlerKind>;

    closed spec fn view(&self) -> Map<Seq<char>, HandlerKind> {
        routes_map(self.entries@)
    }
}

impl ApiRoutes {
    /// Bindings carry pairwise-distinct paths, so none shadows another.
    pub closed spec fn wf(&self) -> bool {
        forall|a: int, b: int|
            0 <= a < b < self.entries@.len() ==> self.entries@[a].path@ != self.entries@[b].path@
    }

    /// An empty registry.
    pub fn new() -> (r: ApiRoutes)
        ensures
            r.wf(),
            r@ == Map::<Seq<char>, HandlerKind>::empty(),
    {
        ApiRoutes { entries: Vec::new() }
    }

    /// Adds one binding.  A path that is already registered is refused and
    /// the registry left unchanged, so no route can be made unreachable by
    /// a silent overwrite.
    pub fn register(&mut self, path: String, handler: HandlerKind) -> (added: bool)
        requires
            old(self).wf(),
        ensures
            final(self).wf(),
            added <==> !old(self)@.contains_key(path@),
            added ==> final(self)@ == old(self)@.insert(path@, handler),
            !added ==> *final(self) == *old(self),
    {
        let n = self.entries.len();
        let mut k: usize = 0;
        while k < n
            invariant
                *self == *old(self),
                old(self).wf(),
                n == self.entries@.len(),
                k <= n,
                forall|j: int| 0 <= j < k ==> self.entries@[j].path@ != path@,
            decreases n - k,
        {
            if self.entries[k].path == path {
                proof {
                    lemma_routes_map_domain(self.entries@, path@);
                }
                return false;
            }
            k += 1;
        }
        proof {
            lemma_routes_map_domain(self.entries@, path@);
        }
        let ghost before = self.entries@;
        let ghost p_view = path@;
        self.entries.push(RouteEntry { path, handler });
        proof {
            assert(self.entries@.drop_last() =~= before);
            assert forall|a: int, b: int|
                0 <= a < b < self.entries@.len() implies self.entries@[a].path@
                != self.entries@[b].path@ by {
                if b < self.entries@.len() - 1 {
                    assert(before[a].path@ != before[b].path@);
                } else {
                    assert(self.entries@[a].path@ == before[a].path@);
                    assert(self.entries@[b].path@ == p_view);
                }
            }
        }
        true
    }

    /// Exact lookup: the handler bound to `path`, or nothing when the path
    /// is not registered.  No handler is consulted along the way.
    pub fn resolve(&self, path: &String) -> (r: Option<HandlerKind>)
        requires
            self.wf(),
        ensures
            self@.contains_key(path@) ==> r == Some(self@[path@]),
            !self@.contains_key(path@) ==> r is None,
    {
        let n = self.entries.len();
        let mut k: usize = 0;
        while k < n
            invariant
                self.wf(),
                n == self.entries@.len(),
                k <= n,
                forall|j: int| 0 <= j < k ==> self.entries@[j].path@ != path@,
            decreases n - k,
        {
            if self.entries[k].path == *path {
                proof {
                    lemma_routes_map_at(self.entries@, k as int);
                }
                return Some(self.entries[k].handler);
            }
            k += 1;
        }
        proof {
            lemma_routes_map_domain(self.entries@, path@);
        }
        None
    }

    /// The production route table: exactly the two virtual-machine
    /// lifecycle routes.
    pub fn with_vm_routes() -> (r: ApiRoutes)
        ensures
            r.wf(),
            r@ == vm_routes_map(),
    {
        let mut r = ApiRoutes::new();
        r.register("/vm.create".to_owned(), HandlerKind::Create(VmCreate {}));
        proof {
            reveal_strlit("/vm.create");
            reveal_strlit("/vm.start");
            assert("/vm.create"@.len() == 10);
            assert("/vm.start"@.len() == 9);
        }
        r.register("/vm.start".to_owned(), HandlerKind::Start(VmStart {}));
        r
    }

    /// Resolves one parsed request's path and runs the handler it is bound
    /// to.  A missing route, like a handler that signals a mismatch, comes
    /// back as the not-found response: a dispatch never fails the
    /// connection, it always yields exactly one response.
    pub fn dispatch(&self, req: &ApiRequest) -> (r: ApiResponse)
        requires
            self.wf(),
        ensures
            r@ == spec_dispatch(self@, req@),
    {
        match self.resolve(&req.path) {
            Some(handler) => match handler.handle(req) {
                Ok(resp) => resp,
                Err(_) => ApiResponse::not_found(),
            },
            None => ApiResponse::not_found(),
        }
    }
}

/// The bindings the production registry holds.
pub open spec fn vm_routes_map() -> Map<Seq<char>, HandlerKind> {
    Map::empty().insert("/vm.create"@, HandlerKind::Create(VmCreate {})).insert(
        "/vm.start"@,
        HandlerKind::Start(VmStart {}),
    )
}

/// What dispatching one parsed request returns: the bound handler's
/// response; the not-found response when no route matches or the handler
/// signals a mismatch.
pub open spec fn spec_dispatch(
    routes: Map<Seq<char>, HandlerKind>,
    req: ApiRequestView,
) -> ApiResponseView {
    if routes.contains_key(req.path) {
        match routes[req.path].spec_handle(req) {
            Ok(resp) => resp,
            Err(_) => not_found_view(),
        }
    } else {
        not_found_view()
    }
}

/// Every request whose path names a registered virtual-machine route is
/// confirmed with status 200 and that route's fixed body, whatever its
/// method, headers or body content.
pub proof fn lemma_vm_routes_succeed(req: ApiRequestView)
    requires
        req.path == "/vm.create"@ || req.path == "/vm.start"@,
    ensures
        spec_dispatch(vm_routes_map(), req).status == StatusCode::OK,
        spec_dispatch(vm_routes_map(), req).status.spec_code() == 200,
        req.path == "/vm.create"@ ==> spec_dispatch(vm_routes_map(), req).body == Some(
            "Vm Create DONE"@,
        ),
        req.path == "/vm.start"@ ==> spec_dispatch(vm_routes_map(), req).body == Some(
            "Vm Start DONE"@,
        ),
{
    reveal_strlit("/vm.create");
    reveal_strlit("/vm.start");
    assert("/vm.create"@.len() == 10);
    assert("/vm.start"@.len() == 9);
    assert("/vm.create"@ != "/vm.start"@);
}

/// Every request whose path names no registered route is answered with
/// status 404 and no handler's output.
pub proof fn lemma_unregistered_path_not_found(req: ApiRequestView)
    requires
        req.path != "/vm.create"@,
        req.path != "/vm.start"@,
    ensures
        spec_dispatch(vm_routes_map(), req) == not_found_view(),
        spec_dispatch(vm_routes_map(), req).status.spec_code() == 404,
{
}

} // verus!
