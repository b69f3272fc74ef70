//! Device tag API endpoints.

use vstd::prelude::*;

use crate::api::ApiRequest;
use crate::{Method, UnifiProtectClient};

verus! {

impl UnifiProtectClient {
    /// The call that gets all device tags: `GET {host}/proxy/protect/api/device-tags`.
    pub fn get_device_tags_request(&self) -> (r: ApiRequest)
        ensures
            r.method == Method::Get,
            r.url@ == self.host@ + "/"@ + "proxy/protect/api/device-tags"@,
            r.body is None,
    {
        ApiRequest { method: Method::Get, url: self.url_for("proxy/protect/api/device-tags"), body: None }
    }
}

} // verus!
