//! Connection settings for the surrounding application.
use vstd::prelude::*;

verus! {

/// Broker and network credentials, filled in by the application at startup.
///
/// The defaults point at a local broker and leave every credential empty.
pub struct Config {
    pub mqtt_host: &'static str,
    pub mqtt_port: &'static str,
    pub mqtt_user: &'static str,
    pub mqtt_pass: &'static str,
    pub mqtt_id: &'static str,
    pub wifi_ssid: &'static str,
    pub wifi_psk: &'static str,
}

impl Default for Config {
    fn default() -> (r: Self)
        ensures
            r.mqtt_host@ == "localhost"@,
            r.mqtt_port@ == "1883"@,
            r.mqtt_user@ == ""@,
            r.mqtt_pass@ == ""@,
            r.mqtt_id@ == ""@,
            r.wifi_ssid@ == ""@,
            r.wifi_psk@ == ""@,
    {
        Config {
            mqtt_host: "localhost",
            mqtt_port: "1883",
            mqtt_user: "",
            mqtt_pass: "",
            mqtt_id: "",
            wifi_ssid: "",
            wifi_psk: "",
        }
    }
}

} // verus!
