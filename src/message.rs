use vstd::prelude::*;
use crate::qos::MqttQoS;

verus! {

/// A message to publish, built fresh for each send and not kept afterwards.
#[derive(Clone, Debug)]
pub struct OutboundMessage {
    pub topic: String,
    pub payload: Vec<u8>,
    pub qos: MqttQoS,
    /// Carried as the message's single metadata property.
    pub content_type: String,
}

/// What a message carries on the wire.
pub ghost struct MessageView {
    pub topic: Seq<char>,
    pub payload: Seq<u8>,
    pub qos: MqttQoS,
    pub content_type: Seq<char>,
}

impl View for OutboundMessage {
    type V = MessageView;

    open spec fn view(&self) -> MessageView {
        MessageView {
            topic: self.topic@,
            payload: self.payload@,
            qos: self.qos,
            content_type: self.content_type@,
        }
    }
}

/// The bytes sent for an optional payload: an absent payload is sent as no bytes.
pub open spec fn payload_bytes(payload: Option<Seq<u8>>) -> Seq<u8> {
    match payload {
        Some(p) => p,
        None => Seq::empty(),
    }
}

/// The message that a send of these arguments puts on the wire.
pub open spec fn message_of(
    topic: Seq<char>,
    qos: MqttQoS,
    content_type: Seq<char>,
    payload: Option<Seq<u8>>,
) -> MessageView {
    MessageView { topic, payload: payload_bytes(payload), qos, content_type }
}

pub open spec fn opt_bytes_view(payload: Option<Vec<u8>>) -> Option<Seq<u8>> {
    match payload {
        Some(p) => Some(p@),
        None => None,
    }
}

/// Builds the message for a send. The topic is passed on as it is, even when empty.
pub fn build_message(
    topic: String,
    qos: MqttQoS,
    content_type: String,
    payload: Option<Vec<u8>>,
) -> (r: OutboundMessage)
    ensures
        r@ == message_of(topic@, qos, content_type@, opt_bytes_view(payload)),
        r.content_type@ == content_type@,
        r.qos.spec_level() == qos.spec_level(),
{
    let payload = match payload {
        Some(p) => p,
        None => Vec::new(),
    };
    OutboundMessage { topic, payload, qos, content_type }
}

/// Sending without a payload puts the same message on the wire as sending an empty one.
pub proof fn lemma_absent_payload_is_empty(topic: Seq<char>, qos: MqttQoS, content_type: Seq<char>)
    ensures
        message_of(topic, qos, content_type, None) == message_of(
            topic,
            qos,
            content_type,
            Some(Seq::<u8>::empty()),
        ),
{
}

} // verus!
