//! A bridge, and the calls that can be made to it.
//!
//! Each call is described as the [`Request`] to send. What the bridge answers
//! is read by [`interpret_registration`](crate::response::interpret_registration)
//! and [`interpret_mutation`](crate::response::interpret_mutation).

use crate::request::{
    json_object, write_json_object, AttributeValue, AttributeView, Method, Request, RequestView,
};
use vstd::prelude::*;
use vstd::string::*;

pub use crate::response::ApiResponseSection;

verus! {

/// Core device information about a bridge.
#[derive(Debug, PartialEq, Eq)]
pub struct BridgeDevice {
    pub udn: String,
    pub device_type: String,
    pub manufacturer: String,
    pub model_name: String,
    pub model_description: String,
    pub serial_number: String,
    pub friendly_name: String,
}

/// A bridge: where it is reached, and what it says of itself.
#[derive(Debug, PartialEq, Eq)]
pub struct Bridge {
    /// The address below which all resources of the bridge lie. It ends with a slash.
    pub url_base: String,
    /// The device properties of this bridge.
    pub device: BridgeDevice,
}

/// The name under which this client registers with a bridge.
pub const DEVICE_TYPE: &'static str = "Hust Hue API client";

impl Bridge {
    /// The request for the description of a bridge, as a discovery session announces it.
    pub fn from_description_url(url: String) -> (request: Request)
        ensures
            request@ == (RequestView { method: Method::Get, url: url@, body: None }),
    {
        Request { method: Method::Get, url, body: None }
    }

    /// The unique but user-friendly name of the bridge.
    pub fn user_readable_identifier(&self) -> (name: &str)
        ensures
            name@ == self.device.friendly_name@,
    {
        self.device.friendly_name.as_str()
    }

    /// The request that registers a user. The bridge grants it only while its
    /// button is pressed, and then names the new user in its answer.
    pub fn register_user(&self) -> (request: Request)
        ensures
            request@.method == Method::Post,
            request@.url == self.url_base@ + "api"@,
            request@.body == Some(json_object("devicetype"@, AttributeView::Text(DEVICE_TYPE@))),
    {
        let mut url = self.url_base.clone();
        url.append("api");
        let client = AttributeValue::Text(String::from_str(DEVICE_TYPE));
        let body = write_json_object("devicetype", &client);
        Request { method: Method::Post, url, body: Some(body) }
    }

    /// The request that sets the attribute `key` of the lamp `light` to
    /// `value`, on behalf of `user`. Nothing is checked of the key or the
    /// value: which attributes there are, and of what type, the bridge decides.
    pub fn modify_light(
        &self,
        user: &str,
        light: &str,
        key: &str,
        value: AttributeValue,
    ) -> (request: Request)
        ensures
            request@.method == Method::Put,
            request@.url == self.url_base@ + "api/"@ + user@ + "/lights/"@ + light@ + "/state"@,
            request@.body == Some(json_object(key@, value@)),
    {
        let mut url = self.url_base.clone();
        url.append("api/");
        url.append(user);
        url.append("/lights/");
        url.append(light);
        url.append("/state");
        let body = write_json_object(key, &value);
        Request { method: Method::Put, url, body: Some(body) }
    }

    /// The request that lists all lamps of the bridge with their states, on behalf of `user`.
    pub fn get_all_lights(&self, user: &str) -> (request: Request)
        ensures
            request@.method == Method::Get,
            request@.url == self.url_base@ + "api/"@ + user@ + "/lights"@,
            request@.body is None,
    {
        let mut url = self.url_base.clone();
        url.append("api/");
        url.append(user);
        url.append("/lights");
        Request { method: Method::Get, url, body: None }
    }

    /// The request that switches the lamp `light` on or off, on behalf of `user`.
    pub fn switch_light(&self, user: &str, light: &str, on: bool) -> (request: Request)
        ensures
            request@.method == Method::Put,
            request@.url == self.url_base@ + "api/"@ + user@ + "/lights/"@ + light@ + "/state"@,
            request@.body == Some(json_object("on"@, AttributeView::Bool(on))),
    {
        self.modify_light(user, light, "on", AttributeValue::Bool(on))
    }
}

} // verus!
