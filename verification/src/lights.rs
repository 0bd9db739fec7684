//! What a bridge tells about its lamps.

use vstd::prelude::*;

verus! {

/// Attributes of a lamp.
#[derive(Debug, PartialEq, Eq)]
pub struct Light {
    pub uniqueid: String,
    pub light_type: String,
    pub name: String,
    pub modelid: String,
    pub manufacturername: String,
    pub productid: String,
    pub state: LightState,
    pub swversion: String,
    pub swconfigid: String,
}

/// Current state of a lamp.
#[derive(Debug, PartialEq, Eq)]
pub struct LightState {
    pub on: bool,
    /// Brightness.
    pub bri: u8,
    /// Colour temperature.
    pub ct: u16,
    /// Alert mode.
    pub alert: String,
    pub colormode: String,
    pub mode: String,
    pub reachable: bool,
}

impl Default for LightState {
    /// A lamp that is off and out of reach, with nothing known about it.
    fn default() -> (state: Self)
        ensures
            !state.on,
            state.bri == 0,
            state.ct == 0,
            state.alert@ == Seq::<char>::empty(),
            state.colormode@ == Seq::<char>::empty(),
            state.mode@ == Seq::<char>::empty(),
            !state.reachable,
    {
        LightState {
            on: false,
            bri: 0,
            ct: 0,
            alert: String::new(),
            colormode: String::new(),
            mode: String::new(),
            reachable: false,
        }
    }
}

impl Default for Light {
    /// A lamp with nothing known about it.
    fn default() -> (light: Self)
        ensures
            light.uniqueid@ == Seq::<char>::empty(),
            light.light_type@ == Seq::<char>::empty(),
            light.name@ == Seq::<char>::empty(),
            light.modelid@ == Seq::<char>::empty(),
            light.manufacturername@ == Seq::<char>::empty(),
            light.productid@ == Seq::<char>::empty(),
            !light.state.on,
            light.state.bri == 0,
            light.state.ct == 0,
            light.state.alert@ == Seq::<char>::empty(),
            light.state.colormode@ == Seq::<char>::empty(),
            light.state.mode@ == Seq::<char>::empty(),
            !light.state.reachable,
            light.swversion@ == Seq::<char>::empty(),
            light.swconfigid@ == Seq::<char>::empty(),
    {
        Light {
            uniqueid: String::new(),
            light_type: String::new(),
            name: String::new(),
            modelid: String::new(),
            manufacturername: String::new(),
            productid: String::new(),
            state: LightState::default(),
            swversion: String::new(),
            swconfigid: String::new(),
        }
    }
}

} // verus!
