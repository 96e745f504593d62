//! A traffic light and how long each of its colours stays on.

use crate::scale::bytes_eq;
use core::time::Duration;
use vstd::prelude::*;
use vstd::string::*;

verus! {

/// A colour of the light.
#[derive(Debug, PartialEq)]
pub enum TrafficLight {
    Red,
    Green,
    Yellow,
}

impl Default for TrafficLight {
    /// The light starts red.
    fn default() -> (light: Self)
        ensures
            light == TrafficLight::Red,
    {
        Self::Red
    }
}

/// The whole seconds of a duration.
pub uninterp spec fn whole_seconds(d: Duration) -> u64;

/// `Duration::from_secs` of std makes the duration of that many whole
/// seconds.
pub assume_specification[ Duration::from_secs ](secs: u64) -> (d: Duration)
    ensures
        whole_seconds(d) == secs,
;

/// Something that stays on for a time.
pub trait LightOn {
    /// For how many seconds it stays on.
    spec fn seconds_on(&self) -> u64;

    /// For how long it stays on.
    fn light_on(&self) -> (d: Duration)
        ensures
            whole_seconds(d) == self.seconds_on(),
    ;
}

impl LightOn for TrafficLight {
    /// Red stays on for 11 seconds, green for 13, yellow for 2.
    open spec fn seconds_on(&self) -> u64 {
        match self {
            TrafficLight::Red => 11,
            TrafficLight::Green => 13,
            TrafficLight::Yellow => 2,
        }
    }

    fn light_on(&self) -> (d: Duration) {
        match &self {
            Self::Red => Duration::from_secs(11),
            Self::Green => Duration::from_secs(13),
            Self::Yellow => Duration::from_secs(2),
        }
    }
}

/// The text names no colour.
#[derive(Clone, Copy, Debug, PartialEq, Eq)]
pub struct WrongLight;

impl WrongLight {
    /// What went wrong, in words.
    pub fn to_string(&self) -> (text: String)
        ensures
            text@ == "wrong light"@,
    {
        "wrong light".to_owned()
    }
}

/// The colour that a text names: `red`, `green` or `yellow`, in lower case.
pub open spec fn named_light(text: Seq<char>) -> Option<TrafficLight> {
    if text == "red"@ {
        Some(TrafficLight::Red)
    } else if text == "green"@ {
        Some(TrafficLight::Green)
    } else if text == "yellow"@ {
        Some(TrafficLight::Yellow)
    } else {
        None
    }
}

/// Whether two texts are the same.
fn same_text(a: &str, b: &str) -> (r: bool)
    ensures
        r == (a@ == b@),
{
    proof {
        vstd::utf8::encode_utf8_decode_utf8(a@);
        vstd::utf8::encode_utf8_decode_utf8(b@);
    }
    bytes_eq(a.as_bytes(), b.as_bytes())
}

impl TrafficLight {
    /// The colour that `text` names.
    pub fn parse(text: &str) -> (r: Result<TrafficLight, WrongLight>)
        ensures
            match r {
                Ok(light) => named_light(text@) == Some(light),
                Err(_) => named_light(text@) is None,
            },
    {
        if same_text(text, "red") {
            Ok(Self::Red)
        } else if same_text(text, "green") {
            Ok(Self::Green)
        } else if same_text(text, "yellow") {
            Ok(Self::Yellow)
        } else {
            Err(WrongLight)
        }
    }

    /// The name of the colour, as it is written in code.
    pub fn to_string(&self) -> (text: String)
        ensures
            text@ == match self {
                TrafficLight::Red => "Red"@,
                TrafficLight::Green => "Green"@,
                TrafficLight::Yellow => "Yellow"@,
            },
    {
        match self {
            Self::Red => "Red".to_owned(),
            Self::Green => "Green".to_owned(),
            Self::Yellow => "Yellow".to_owned(),
        }
    }
}

impl core::str::FromStr for TrafficLight {
    type Err = WrongLight;

    fn from_str(text: &str) -> (r: Result<Self, WrongLight>)
        ensures
            match r {
                Ok(light) => named_light(text@) == Some(light),
                Err(_) => named_light(text@) is None,
            },
    {
        Self::parse(text)
    }
}

} // verus!
