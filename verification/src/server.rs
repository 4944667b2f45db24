use vstd::prelude::*;

verus! {

/// Configuration for the control-plane front door: the filesystem socket
/// path to listen on and the number of worker-pool threads that serve
/// accepted connections.
pub struct ApiServer {
    pub path: String,
    pub num_threads: usize,
}

impl ApiServer {
    /// Builds a server configuration from a socket path and a worker count.
    pub fn new(path: &str, num_threads: usize) -> (r: Self)
        ensures
            r.path@ == path@,
            r.num_threads == num_threads,
    {
        ApiServer { path: path.to_owned(), num_threads }
    }
}

} // verus!
