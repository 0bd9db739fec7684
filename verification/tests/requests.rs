use hust::bridge::DEVICE_TYPE;
use hust::request::{AttributeValue, Method, Request};
use hust::{Bridge, BridgeDevice};

fn bridge(url_base: &str) -> Bridge {
    Bridge {
        url_base: url_base.to_string(),
        device: BridgeDevice {
            udn: "uuid:2f402f80-da50-11e1-9b23-001788102201".to_string(),
            device_type: "urn:schemas-upnp-org:device:Basic:1".to_string(),
            manufacturer: "Signify".to_string(),
            model_name: "Philips hue bridge 2015".to_string(),
            model_description: "Philips hue Personal Wireless Lighting".to_string(),
            serial_number: "001788102201".to_string(),
            friendly_name: "Hue Bridge (192.168.1.2)".to_string(),
        },
    }
}

#[test]
fn identifier_is_the_friendly_name() {
    assert_eq!(
        bridge("http://192.168.1.2:80/").user_readable_identifier(),
        "Hue Bridge (192.168.1.2)"
    );
}

#[test]
fn description_is_fetched_from_the_announced_location() {
    assert_eq!(
        Bridge::from_description_url("http://192.168.1.2:80/description.xml".to_string()),
        Request {
            method: Method::Get,
            url: "http://192.168.1.2:80/description.xml".to_string(),
            body: None,
        }
    );
}

#[test]
fn registration_is_posted_below_the_base() {
    assert_eq!(
        bridge("http://192.168.1.2:80/").register_user(),
        Request {
            method: Method::Post,
            url: "http://192.168.1.2:80/api".to_string(),
            body: Some("{\"devicetype\":\"Hust Hue API client\"}".to_string()),
        }
    );
    assert_eq!(DEVICE_TYPE, "Hust Hue API client");
}

#[test]
fn registration_adds_no_slash_to_the_base() {
    assert_eq!(bridge("http://h").register_user().url, "http://hapi");
    assert_eq!(bridge("").register_user().url, "api");
}

#[test]
fn lamps_are_listed_for_a_user() {
    assert_eq!(
        bridge("http://192.168.1.2:80/").get_all_lights("abc123"),
        Request {
            method: Method::Get,
            url: "http://192.168.1.2:80/api/abc123/lights".to_string(),
            body: None,
        }
    );
}

#[test]
fn switching_on_sets_the_attribute_on() {
    assert_eq!(
        bridge("http://192.168.1.2:80/").switch_light("abc123", "1", true),
        Request {
            method: Method::Put,
            url: "http://192.168.1.2:80/api/abc123/lights/1/state".to_string(),
            body: Some("{\"on\":true}".to_string()),
        }
    );
}

#[test]
fn switching_off_sets_the_attribute_on_to_false() {
    assert_eq!(
        bridge("http://192.168.1.2:80/").switch_light("abc123", "12", false),
        Request {
            method: Method::Put,
            url: "http://192.168.1.2:80/api/abc123/lights/12/state".to_string(),
            body: Some("{\"on\":false}".to_string()),
        }
    );
}

#[test]
fn switching_is_modifying_the_attribute_on() {
    let bridge = bridge("http://192.168.1.2:80/");
    assert_eq!(
        bridge.switch_light("u", "3", true),
        bridge.modify_light("u", "3", "on", AttributeValue::Bool(true))
    );
    assert_eq!(
        bridge.switch_light("u", "3", false),
        bridge.modify_light("u", "3", "on", AttributeValue::Bool(false))
    );
}

#[test]
fn modifying_with_a_number() {
    assert_eq!(
        bridge("http://b/").modify_light("u", "2", "bri", AttributeValue::Integer(200)),
        Request {
            method: Method::Put,
            url: "http://b/api/u/lights/2/state".to_string(),
            body: Some("{\"bri\":200}".to_string()),
        }
    );
    assert_eq!(
        bridge("http://b/").modify_light("u", "2", "hue_inc", AttributeValue::Integer(-1)).body,
        Some("{\"hue_inc\":-1}".to_string())
    );
    assert_eq!(
        bridge("http://b/").modify_light("u", "2", "x", AttributeValue::Integer(i64::MIN)).body,
        Some("{\"x\":-9223372036854775808}".to_string())
    );
}

#[test]
fn modifying_with_a_text() {
    assert_eq!(
        bridge("http://b/").modify_light(
            "u",
            "2",
            "alert",
            AttributeValue::Text("select".to_string())
        ),
        Request {
            method: Method::Put,
            url: "http://b/api/u/lights/2/state".to_string(),
            body: Some("{\"alert\":\"select\"}".to_string()),
        }
    );
}

#[test]
fn body_is_json_text_and_not_the_plain_key_and_value() {
    let request = bridge("http://b/").modify_light(
        "u",
        "2",
        "na\"me",
        AttributeValue::Text("a \"quoted\" \\ line\nbreak".to_string()),
    );
    assert_eq!(
        request.body,
        Some("{\"na\\\"me\":\"a \\\"quoted\\\" \\\\ line\\nbreak\"}".to_string())
    );
}

#[test]
fn nothing_is_checked_of_user_lamp_or_key() {
    let request = bridge("http://b/").modify_light("", "", "", AttributeValue::Bool(true));
    assert_eq!(request.url, "http://b/api//lights//state");
    assert_eq!(request.body, Some("{\"\":true}".to_string()));
}
