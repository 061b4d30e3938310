//! What is published for a device, and how the broker is addressed.
//!
//! Every publish for a device consists of two messages, one on the presence topic
//! and one on the button topic of that device. Only a presence message is ever
//! retained by the broker: the state of the button is a pulse, and a subscriber
//! that comes later must not be told of it. This module computes the messages;
//! sending them is left to the application, which is expected to hand them to its
//! client without blocking and to drop them when the client's queue is full.

use vstd::prelude::*;
use vstd::string::StringExecFns;
use crate::config::Config;

verus! {

/// The name under which the bridge identifies itself to the broker.
pub const CLIENT_ID: &'static str = "itag2mqttd";

/// Seconds between keep-alive pings to the broker.
pub const KEEP_ALIVE_SECS: u64 = 60;

/// How many requests may wait in the client's queue.
pub const REQUEST_CAPACITY: usize = 10;

/// ASCII `'1'`, the payload for "yes".
pub const PAYLOAD_TRUE: u8 = 0x31;

/// ASCII `'0'`, the payload for "no".
pub const PAYLOAD_FALSE: u8 = 0x30;

/// Delivery guarantee of a message.
#[derive(Clone, Copy, Debug, PartialEq, Eq, Structural)]
pub enum QoS {
    AtMostOnce,
    AtLeastOnce,
    ExactlyOnce,
}

/// The state of a device as one publish reports it.
///
/// A device that is known but was never connected is reported once, retained, as
/// not present. Afterwards it is reported as present or absent, never retained,
/// and a button press shows as `is_button_clicked` going up and down again.
#[derive(Clone, Copy, Debug, PartialEq, Eq, Structural)]
pub struct PresenceRecord {
    /// Whether the broker is to keep the presence message for later subscribers.
    pub retained: bool,
    pub is_present: bool,
    pub is_button_clicked: bool,
}

/// One message for the broker.
#[derive(Debug)]
pub struct Publication {
    pub topic: String,
    pub qos: QoS,
    pub retained: bool,
    pub payload: u8,
}

/// How the broker is reached and what is published for each device.
#[derive(Debug)]
pub struct MqttClient {
    pub client_id: String,
    pub host: String,
    pub port: u16,
    pub keep_alive_secs: u64,
    pub request_capacity: usize,
}

/// The lowercase hexadecimal digit for a value below sixteen.
pub open spec fn hex_digit(n: int) -> char {
    if n < 10 {
        (n + 48) as char
    } else {
        (n + 87) as char
    }
}

/// The bytes rendered as lowercase hexadecimal, two digits for each byte.
pub open spec fn hex_string(bytes: Seq<u8>) -> Seq<char> {
    Seq::new(
        2 * bytes.len(),
        |i: int|
            if i % 2 == 0 {
                hex_digit(bytes[i / 2] as int / 16)
            } else {
                hex_digit(bytes[i / 2] as int % 16)
            },
    )
}

/// The topic that carries whether the device is present.
pub open spec fn presence_topic(device_id: Seq<u8>) -> Seq<char> {
    "itag/"@ + hex_string(device_id) + "/presence"@
}

/// The topic that carries whether the device's button is down.
pub open spec fn button_topic(device_id: Seq<u8>) -> Seq<char> {
    "itag/"@ + hex_string(device_id) + "/button/click"@
}

/// The payload byte for a flag: ASCII `'1'` or `'0'`.
pub open spec fn payload_of(flag: bool) -> u8 {
    if flag {
        PAYLOAD_TRUE
    } else {
        PAYLOAD_FALSE
    }
}

fn hex_digit_str(n: u8) -> (digit: &'static str)
    requires
        n < 16,
    ensures
        digit@ == seq![hex_digit(n as int)],
{
    proof {
        reveal_strlit("0");
        reveal_strlit("1");
        reveal_strlit("2");
        reveal_strlit("3");
        reveal_strlit("4");
        reveal_strlit("5");
        reveal_strlit("6");
        reveal_strlit("7");
        reveal_strlit("8");
        reveal_strlit("9");
        reveal_strlit("a");
        reveal_strlit("b");
        reveal_strlit("c");
        reveal_strlit("d");
        reveal_strlit("e");
        reveal_strlit("f");
    }
    let digit = match n {
        0 => "0",
        1 => "1",
        2 => "2",
        3 => "3",
        4 => "4",
        5 => "5",
        6 => "6",
        7 => "7",
        8 => "8",
        9 => "9",
        10 => "a",
        11 => "b",
        12 => "c",
        13 => "d",
        14 => "e",
        _ => "f",
    };
    assert(digit@ =~= seq![hex_digit(n as int)]);
    digit
}

/// Renders a device id as twelve lowercase hexadecimal characters.
pub fn device_id_hex(device_id: &[u8; 6]) -> (hex: String)
    ensures
        hex@ == hex_string(device_id@),
        hex@.len() == 12,
{
    let mut hex = String::new();
    let mut i: usize = 0;
    while i < 6
        invariant
            i <= 6,
            hex@.len() == 2 * i,
            forall|j: int| 0 <= j < 2 * i ==> hex@[j] == hex_string(device_id@)[j],
        decreases 6 - i,
    {
        let byte = device_id[i];
        hex.append(hex_digit_str(byte / 16));
        hex.append(hex_digit_str(byte % 16));
        i += 1;
    }
    assert(hex@ =~= hex_string(device_id@));
    hex
}

fn payload_byte(flag: bool) -> (payload: u8)
    ensures
        payload == payload_of(flag),
{
    if flag {
        PAYLOAD_TRUE
    } else {
        PAYLOAD_FALSE
    }
}

impl MqttClient {
    /// The client for the broker that the configuration names.
    pub fn new(config: &Config) -> (client: MqttClient)
        ensures
            client.client_id@ == CLIENT_ID@,
            client.host@ == config.mqtt_host@,
            client.port == config.mqtt_port,
            client.keep_alive_secs == KEEP_ALIVE_SECS,
            client.request_capacity == REQUEST_CAPACITY,
    {
        MqttClient {
            client_id: String::from_str(CLIENT_ID),
            host: config.mqtt_host.clone(),
            port: config.mqtt_port,
            keep_alive_secs: KEEP_ALIVE_SECS,
            request_capacity: REQUEST_CAPACITY,
        }
    }

    /// The two messages that report a device: first its presence, then its button.
    ///
    /// Both are delivered at least once. The presence message is retained where
    /// `retained` asks for it; the button message never is.
    pub fn publish_device(
        &self,
        device_id: &[u8; 6],
        retained: bool,
        is_present: bool,
        is_button_clicked: bool,
    ) -> (messages: (Publication, Publication))
        ensures
            messages.0.topic@ == presence_topic(device_id@),
            messages.0.qos == QoS::AtLeastOnce,
            messages.0.retained == retained,
            messages.0.payload == payload_of(is_present),
            messages.1.topic@ == button_topic(device_id@),
            messages.1.qos == QoS::AtLeastOnce,
            !messages.1.retained,
            messages.1.payload == payload_of(is_button_clicked),
    {
        let device_id_str = device_id_hex(device_id);
        let mut presence = String::from_str("itag/");
        presence.append(device_id_str.as_str());
        presence.append("/presence");
        let mut button = String::from_str("itag/");
        button.append(device_id_str.as_str());
        button.append("/button/click");
        (
            Publication {
                topic: presence,
                qos: QoS::AtLeastOnce,
                retained,
                payload: payload_byte(is_present),
            },
            Publication {
                topic: button,
                qos: QoS::AtLeastOnce,
                retained: false,
                payload: payload_byte(is_button_clicked),
            },
        )
    }

    /// The messages for a presence record of a device.
    pub fn publish_record(&self, device_id: &[u8; 6], record: PresenceRecord) -> (messages: (
        Publication,
        Publication,
    ))
        ensures
            messages.0.topic@ == presence_topic(device_id@),
            messages.0.qos == QoS::AtLeastOnce,
            messages.0.retained == record.retained,
            messages.0.payload == payload_of(record.is_present),
            messages.1.topic@ == button_topic(device_id@),
            messages.1.qos == QoS::AtLeastOnce,
            !messages.1.retained,
            messages.1.payload == payload_of(record.is_button_clicked),
    {
        self.publish_device(
            device_id,
            record.retained,
            record.is_present,
            record.is_button_clicked,
        )
    }
}

} // verus!
