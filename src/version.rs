use vstd::prelude::*;

verus! {

/// Protocol level that a client created for version 3.1.1 announces.
pub const MQTT_VERSION_3_1_1: u32 = 4;

/// Protocol level that a client created for version 5 announces.
pub const MQTT_VERSION_5: u32 = 5;

/// Connect-time settings that only version 5 of the protocol knows.
#[derive(Clone, Copy, Debug, PartialEq, Eq, Structural)]
pub struct V5Options {
    /// Start a fresh session on connect.
    pub clean_start: bool,
    /// How long the broker keeps the session after a disconnect, in seconds.
    pub session_expiry_secs: u32,
}

impl Default for V5Options {
    fn default() -> (r: Self)
        ensures
            r.clean_start,
            r.session_expiry_secs == 0,
    {
        V5Options { clean_start: true, session_expiry_secs: 0 }
    }
}

/// Wire-protocol version of a client, fixed when the client is created.
#[derive(Clone, Copy, Debug, PartialEq, Eq, Structural)]
pub enum MqttVersion {
    V3_1_1,
    V5(V5Options),
}

/// The version-specific fields of a connect request. The two versions never share a field.
#[derive(Clone, Copy, Debug, PartialEq, Eq, Structural)]
pub enum VersionConnectFields {
    V3 { clean_session: bool },
    V5 { clean_start: bool, session_expiry_secs: u32 },
}

impl MqttVersion {
    /// Create-time mapping: the protocol level the client is created with.
    pub open spec fn spec_protocol_level(self) -> u32 {
        match self {
            MqttVersion::V3_1_1 => MQTT_VERSION_3_1_1,
            MqttVersion::V5(_) => MQTT_VERSION_5,
        }
    }

    /// Connect-time mapping: the fields this version adds to a connect request.
    pub open spec fn spec_connect_fields(self) -> VersionConnectFields {
        match self {
            MqttVersion::V3_1_1 => VersionConnectFields::V3 { clean_session: true },
            MqttVersion::V5(o) => VersionConnectFields::V5 {
                clean_start: o.clean_start,
                session_expiry_secs: o.session_expiry_secs,
            },
        }
    }

    pub fn protocol_level(&self) -> (r: u32)
        ensures
            r == self.spec_protocol_level(),
    {
        match self {
            MqttVersion::V3_1_1 => MQTT_VERSION_3_1_1,
            MqttVersion::V5(_) => MQTT_VERSION_5,
        }
    }

    pub fn connect_fields(&self) -> (r: VersionConnectFields)
        ensures
            r == self.spec_connect_fields(),
    {
        match self {
            MqttVersion::V3_1_1 => VersionConnectFields::V3 { clean_session: true },
            MqttVersion::V5(o) => VersionConnectFields::V5 {
                clean_start: o.clean_start,
                session_expiry_secs: o.session_expiry_secs,
            },
        }
    }
}

} // verus!
