use vstd::prelude::*;

verus! {

/// Where the broker is reached.
#[derive(Debug, Clone, PartialEq)]
pub struct MqttSettings {
    pub ip: String,
    pub port: u16,
}

/// The mathematical content of [`MqttSettings`].
pub struct SettingsModel {
    pub ip: Seq<char>,
    pub port: u16,
}

impl View for MqttSettings {
    type V = SettingsModel;

    open spec fn view(&self) -> SettingsModel {
        SettingsModel { ip: self.ip@, port: self.port }
    }
}

/// The settings in force until others are saved: a broker on this host, on
/// the standard port.
pub open spec fn default_settings() -> SettingsModel {
    SettingsModel { ip: "localhost"@, port: 1883 }
}

impl MqttSettings {
    /// A copy with the same content.
    pub fn duplicate(&self) -> (copy: MqttSettings)
        ensures
            copy@ == self@,
    {
        MqttSettings { ip: self.ip.clone(), port: self.port }
    }
}

impl Default for MqttSettings {
    fn default() -> (settings: MqttSettings)
        ensures
            settings@ == default_settings(),
    {
        MqttSettings { ip: String::from_str("localhost"), port: 1883 }
    }
}

} // verus!
