use vstd::prelude::*;

use crate::helpers::env::Env;

verus! {

/// Configuration shared by every handler of the application.  The live
/// transport resources — a listening socket, a database pool — belong to
/// the process around the library, not here.
#[derive(Debug)]
pub struct AppState {
    pub env: Env,
}

/// The application around the handlers: it owns the shared state.  Routing
/// and serving are transport work and live outside the library.
#[derive(Debug)]
pub struct App {
    pub state: AppState,
}

impl App {
    /// An application over the given configuration.
    pub fn new(env: Env) -> (r: App)
        ensures
            r.state.env == env,
    {
        App { state: AppState { env } }
    }
}

} // verus!
