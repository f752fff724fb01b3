//! The automation bus: the topics that carry requests to the mediator, and
//! the script triggers that carry its notifications out.

use vstd::prelude::*;

verus! {

use crate::mediator::Event;

/// A notification for the automation bus.
#[derive(Clone, Copy, Debug, PartialEq, Eq, Structural)]
pub enum BusNotification {
    /// The television was turned on (`true`) or off.
    TvPowerChanged(bool),
    /// The secondary device became ready (`true`) or not.
    SecondaryDeviceChanged(bool),
    /// The ambient lighting should be on (`true`) or off.
    AmbientLightingSet(bool),
}

/// Topic on which the bus asks for the secondary device to be woken.
pub const WAKE_TOPIC: &'static str = "air-remote/usb-power-on";
/// Topic on which notifications are published: it runs an automation script.
pub const SCRIPT_TOPIC: &'static str = "homeassistant_cmd/run/script.turn_on";
/// Key of the payload's only field.
pub const ENTITY_KEY: &'static str = "entity_id";
/// Prefix of a script's entity id.
pub const SCRIPT_PREFIX: &'static str = "script.";

/// The compact JSON text of the object with the one string field `key: value`.
pub uninterp spec fn json_field_text(key: Seq<char>, value: Seq<char>) -> Seq<char>;

/// Relies on serde_json's `FromIterator` for `Value`, which builds an object
/// from key/value pairs, and on `Value`'s `Display`, which renders it as
/// compact JSON text: the text depends on the key and the value alone.
#[verifier::external_body]
fn json_single_field(key: &str, value: &str) -> (r: String)
    ensures
        r@ == json_field_text(key@, value@),
{
    let object: serde_json::Value = std::iter::once((key, value)).collect();
    object.to_string()
}

/// The event that a message on `topic` stands for, if any.
pub open spec fn topic_event(topic: Seq<char>) -> Option<Event> {
    if topic == WAKE_TOPIC@ {
        Some(Event::WakeSecondaryRequested)
    } else {
        None
    }
}

/// The name of the automation script that announces `n`.
pub open spec fn script_name_of(n: BusNotification) -> Seq<char> {
    match n {
        BusNotification::TvPowerChanged(on) => if on {
            "notice_tv_power_on"@
        } else {
            "notice_tv_power_off"@
        },
        BusNotification::SecondaryDeviceChanged(on) => if on {
            "notice_dennis_usb_readiness_on"@
        } else {
            "notice_dennis_usb_readiness_off"@
        },
        BusNotification::AmbientLightingSet(on) => if on {
            "ambient_lighting_on"@
        } else {
            "ambient_lighting_off"@
        },
    }
}

/// A message to publish on the bus.
pub struct Publication {
    pub topic: String,
    pub payload: String,
}

/// The event that a message on `topic` stands for; messages on other topics
/// carry none.
pub fn event_for_topic(topic: &str) -> (r: Option<Event>)
    ensures
        r == topic_event(topic@),
{
    let wake = String::from_str(WAKE_TOPIC);
    let given = String::from_str(topic);
    if given == wake {
        Some(Event::WakeSecondaryRequested)
    } else {
        None
    }
}

/// The name of the automation script that announces `n`.
pub fn script_name(n: BusNotification) -> (r: &'static str)
    ensures
        r@ == script_name_of(n),
{
    match n {
        BusNotification::TvPowerChanged(on) => if on {
            "notice_tv_power_on"
        } else {
            "notice_tv_power_off"
        },
        BusNotification::SecondaryDeviceChanged(on) => if on {
            "notice_dennis_usb_readiness_on"
        } else {
            "notice_dennis_usb_readiness_off"
        },
        BusNotification::AmbientLightingSet(on) => if on {
            "ambient_lighting_on"
        } else {
            "ambient_lighting_off"
        },
    }
}

/// The message that announces `n`: on the script topic, the JSON object whose
/// entity id names the script for `n`.
pub fn publication_for(n: BusNotification) -> (r: Publication)
    ensures
        r.topic@ == SCRIPT_TOPIC@,
        r.payload@ == json_field_text(ENTITY_KEY@, SCRIPT_PREFIX@ + script_name_of(n)),
{
    let entity = String::from_str(SCRIPT_PREFIX).concat(script_name(n));
    Publication { topic: String::from_str(SCRIPT_TOPIC), payload: json_single_field(ENTITY_KEY, entity.as_str()) }
}

} // verus!
