//! The API endpoints: what each call sends, and where.

use vstd::prelude::*;

use crate::flow::{start_spec, RequestFlow, Step};
use crate::Method;

pub mod cameras;
pub mod device_tags;

verus! {

/// One call of the API: its method, its full address and its JSON body.
pub struct ApiRequest {
    pub method: Method,
    pub url: String,
    pub body: Option<String>,
}

impl ApiRequest {
    /// Starts the flow of this call; `has_session` tells whether the client
    /// already holds a session.
    pub fn start(&self, has_session: bool) -> (r: (RequestFlow, Step))
        ensures
            r == start_spec(self.method, has_session),
    {
        RequestFlow::start(self.method, has_session)
    }
}

} // verus!
