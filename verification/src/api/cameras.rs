//! Camera management API endpoints.

use vstd::prelude::*;

use crate::api::ApiRequest;
use crate::models::camera::{camera_update_json, CameraUpdate};
use crate::{Method, UnifiProtectClient};

verus! {

impl UnifiProtectClient {
    /// The call that lists all cameras: `GET {host}/proxy/protect/api/cameras`.
    pub fn list_cameras_request(&self) -> (r: ApiRequest)
        ensures
            r.method == Method::Get,
            r.url@ == self.host@ + "/"@ + "proxy/protect/api/cameras"@,
            r.body is None,
    {
        ApiRequest { method: Method::Get, url: self.url_for("proxy/protect/api/cameras"), body: None }
    }

    /// The call that applies `updates` to the camera `camera_id`:
    /// `PATCH {host}/proxy/protect/api/cameras/{camera_id}` with the JSON text
    /// of the update as its body.
    pub fn update_camera_request(&self, camera_id: &str, updates: &CameraUpdate) -> (r: ApiRequest)
        ensures
            r.method == Method::Patch,
            r.url@ == self.host@ + "/"@ + ("proxy/protect/api/cameras/"@ + camera_id@),
            r.body matches Some(b) && b@ == camera_update_json(*updates),
    {
        let mut path = String::from_str("proxy/protect/api/cameras/");
        path.append(camera_id);
        ApiRequest {
            method: Method::Patch,
            url: self.url_for(path.as_str()),
            body: Some(updates.to_json()),
        }
    }
}

} // verus!
