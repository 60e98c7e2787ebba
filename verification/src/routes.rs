//! State shared by the request handlers of the web service.

use vstd::prelude::*;

use std::sync::Arc;

verus! {

/// What every request handler can reach: the queue manager.
#[derive(Clone)]
pub struct AppState<Q> {
    pub qm: Arc<Q>,
}

impl<Q> AppState<Q> {
    /// State around the queue manager `qm`.
    pub fn new(qm: Arc<Q>) -> (s: AppState<Q>)
        ensures
            s.qm == qm,
    {
        AppState { qm }
    }
}

} // verus!
