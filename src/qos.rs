use vstd::prelude::*;

verus! {

/// Delivery guarantee of a published message, one for each level of the protocol.
#[derive(Clone, Copy, Debug, PartialEq, Eq, Structural)]
pub enum MqttQoS {
    AtMostOnce,
    AtLeastOnce,
    ExactlyOnce,
}

impl MqttQoS {
    /// The ordinal level that this guarantee has on the wire.
    pub open spec fn spec_level(self) -> u8 {
        match self {
            MqttQoS::AtMostOnce => 0,
            MqttQoS::AtLeastOnce => 1,
            MqttQoS::ExactlyOnce => 2,
        }
    }

    pub fn level(&self) -> (r: u8)
        ensures
            r == self.spec_level(),
            r <= 2,
    {
        match self {
            MqttQoS::AtMostOnce => 0,
            MqttQoS::AtLeastOnce => 1,
            MqttQoS::ExactlyOnce => 2,
        }
    }

    /// The guarantee for a wire level; levels above 2 have none.
    pub fn from_level(level: u8) -> (r: Option<MqttQoS>)
        ensures
            r is Some <==> level <= 2,
            r matches Some(q) ==> q.spec_level() == level,
    {
        match level {
            0 => Some(MqttQoS::AtMostOnce),
            1 => Some(MqttQoS::AtLeastOnce),
            2 => Some(MqttQoS::ExactlyOnce),
            _ => None,
        }
    }
}

/// Mapping a guarantee to its level and back gives the same guarantee.
pub proof fn lemma_qos_level_round_trip(q: MqttQoS)
    ensures
        q.spec_level() <= 2,
        forall|p: MqttQoS| p.spec_level() == q.spec_level() ==> p == q,
{
}

} // verus!
