//! Which command each device model is sent for each action: the dispatch
//! table from actions to model-specific calls, and the raw messages sent to
//! devices that lack a typed capability.

use vstd::prelude::*;
use crate::text::{Colour, CommandError, parse_colour, parsed_colour};

verus! {

/// The hardware model of a discovered device, as the connector identifies it.
#[derive(Clone, Copy, Debug, PartialEq, Eq, Structural)]
pub enum DeviceModel {
    HS100,
    HS105,
    HS110,
    HS300,
    LB110,
    LB120,
    KL110,
    Unknown,
}

/// Models with typed on/off queries and switches.
pub open spec fn has_typed_switch(m: DeviceModel) -> bool {
    m is HS100 || m is HS105 || m is HS110 || m is LB110
}

/// A question that must be put to the device before the next step is known.
#[derive(Clone, Debug, PartialEq, Eq)]
pub enum Probe {
    /// Ask the device whether it is on.
    IsOn,
    /// Ask the device whether it is off.
    IsOff,
    /// Send this raw message and read the `on_off` flag of the light state.
    LightState(String),
}

/// A command that changes the device.
#[derive(Clone, Debug, PartialEq, Eq)]
pub enum DeviceCommand {
    SwitchOn,
    SwitchOff,
    SetBrightness(u16),
    /// Send this raw message.
    Send(String),
}

/// What to do next with the device.
#[derive(Clone, Debug, PartialEq, Eq)]
pub enum Step {
    Ask(Probe),
    Run(DeviceCommand),
    /// Nothing (more) to do.
    Done,
}

/// The fields of a light-state change; `None` leaves a field as it is.
#[derive(Clone, Copy, Debug, PartialEq, Eq, Structural)]
pub struct LightSetting {
    pub on_off: Option<u8>,
    pub hue: Option<u16>,
    pub saturation: Option<u16>,
    pub color_temp: Option<u16>,
    pub brightness: Option<u16>,
}

pub open spec fn digit_char(d: nat) -> char {
    seq!['0', '1', '2', '3', '4', '5', '6', '7', '8', '9'][d as int]
}

/// The decimal text of `n`, without leading zeros.
pub open spec fn decimal_text(n: nat) -> Seq<char>
    decreases n,
{
    if n < 10 {
        seq![digit_char(n)]
    } else {
        decimal_text(n / 10) + seq![digit_char(n % 10)]
    }
}

/// The members `"key":value` of a JSON object, separated by commas, for
/// each entry that holds a value.
pub open spec fn json_members(m: Seq<(Seq<char>, Option<nat>)>) -> Seq<char>
    decreases m.len(),
{
    if m.len() == 0 {
        Seq::empty()
    } else {
        let rest = json_members(m.drop_first());
        match m[0].1 {
            None => rest,
            Some(v) => {
                let item = seq!['"'] + m[0].0 + seq!['"', ':'] + decimal_text(v);
                if rest.len() == 0 {
                    item
                } else {
                    item + seq![','] + rest
                }
            },
        }
    }
}

pub open spec fn number_of(o: Option<u16>) -> Option<nat> {
    match o {
        Some(v) => Some(v as nat),
        None => None,
    }
}

/// A light setting as a compact JSON object: keys in alphabetical order,
/// absent fields left out.
pub open spec fn light_state_text(l: LightSetting) -> Seq<char> {
    let on_off = match l.on_off {
        Some(v) => Some(v as nat),
        None => None,
    };
    seq!['{'] + json_members(
        seq![
            ("brightness"@, number_of(l.brightness)),
            ("color_temp"@, number_of(l.color_temp)),
            ("hue"@, number_of(l.hue)),
            ("on_off"@, on_off),
            ("saturation"@, number_of(l.saturation)),
        ],
    ) + seq!['}']
}

/// Relies on serde_json::to_value and the `Display` of serde_json::Value:
/// tplinker's `SetLightState` skips its `None` fields, and without the
/// `preserve_order` feature a JSON object prints its keys sorted, compactly.
/// `to_value` fails only on maps with non-string keys, which this struct of
/// optional integers does not hold.
#[verifier::external_body]
fn encode_light_state(l: &LightSetting) -> (r: Option<String>)
    ensures
        r is Some,
        r matches Some(t) ==> t@ == light_state_text(*l),
{
    let state = tplinker::datatypes::SetLightState {
        on_off: l.on_off,
        hue: l.hue,
        saturation: l.saturation,
        color_temp: l.color_temp,
        brightness: l.brightness,
    };
    serde_json::to_value(state).ok().map(|v| v.to_string())
}

/// A message to the smart-bulb lighting service with the given body.
pub open spec fn lighting_request(body: Seq<char>) -> Seq<char> {
    "{\"smartlife.iot.smartbulb.lightingservice\":{"@ + body + "}}"@
}

/// The message that asks a bulb for its light state.
pub open spec fn light_state_query_text() -> Seq<char> {
    lighting_request("\"get_light_state\":null"@)
}

/// The message that changes a bulb's light state to `state`.
pub open spec fn transition_text(state: Seq<char>) -> Seq<char> {
    lighting_request("\"transition_light_state\":"@ + state)
}

/// The message that switches a bulb on or off.
pub open spec fn power_text(on: bool) -> Seq<char> {
    transition_text(if on { "{\"on_off\":1}"@ } else { "{\"on_off\":0}"@ })
}

/// `step` sends exactly the message `text`.
pub open spec fn sends(step: Step, text: Seq<char>) -> bool {
    step matches Step::Run(DeviceCommand::Send(t)) && t@ == text
}

fn lighting_message(body: &str) -> (r: String)
    ensures
        r@ == lighting_request(body@),
{
    let mut r = String::from_str("{\"smartlife.iot.smartbulb.lightingservice\":{");
    r.append(body);
    r.append("}}");
    r
}

/// Builds the message that changes a bulb's light state to the given JSON text.
pub fn transition_request(state: &str) -> (r: String)
    ensures
        r@ == transition_text(state@),
{
    let mut body = String::from_str("\"transition_light_state\":");
    body.append(state);
    let r = lighting_message(body.as_str());
    assert(body@ == "\"transition_light_state\":"@ + state@);
    r
}

/// The message that asks a bulb for its light state.
pub fn light_state_query() -> (r: String)
    ensures
        r@ == light_state_query_text(),
{
    lighting_message("\"get_light_state\":null")
}

fn power_message(on: bool) -> (r: String)
    ensures
        r@ == power_text(on),
{
    if on {
        transition_request("{\"on_off\":1}")
    } else {
        transition_request("{\"on_off\":0}")
    }
}

/// The first step of toggling a device of model `model`: typed switches are
/// asked whether they are on, a device of unknown model is asked for its light
/// state, and the other models have no toggle.
pub open spec fn toggle_start(model: DeviceModel, r: Step) -> bool {
    if has_typed_switch(model) {
        r == Step::Ask(Probe::IsOn)
    } else if model is Unknown {
        r matches Step::Ask(Probe::LightState(q)) && q@ == light_state_query_text()
    } else {
        r == Step::Done
    }
}

/// After a typed device answered whether it is on: off if it is, else ask
/// whether it is off.
pub open spec fn after_is_on_step(on: bool) -> Step {
    if on {
        Step::Run(DeviceCommand::SwitchOff)
    } else {
        Step::Ask(Probe::IsOff)
    }
}

/// After a typed device answered whether it is off: on if it is; if it
/// reported neither on nor off, ask it for its light state.
pub open spec fn after_is_off(off: bool, r: Step) -> bool {
    if off {
        r == Step::Run(DeviceCommand::SwitchOn)
    } else {
        r matches Step::Ask(Probe::LightState(q)) && q@ == light_state_query_text()
    }
}

/// A light setting that changes the brightness only.
pub open spec fn brightness_setting(b: u16) -> LightSetting {
    LightSetting { on_off: None, hue: None, saturation: None, color_temp: None, brightness: Some(b) }
}

/// A light setting that changes hue, saturation and colour temperature only.
pub open spec fn colour_setting(c: Colour) -> LightSetting {
    LightSetting {
        on_off: None,
        hue: Some(c.hue),
        saturation: Some(c.saturation),
        color_temp: Some(c.color_temp),
        brightness: None,
    }
}

/// `r` sends the light setting `l` as a raw message.
pub open spec fn transition_result(l: LightSetting, r: Result<Step, CommandError>) -> bool {
    r matches Ok(st) && sends(st, transition_text(light_state_text(l)))
}

/// Setting the brightness: a typed call on the LB110, a raw message to a
/// device of unknown model, nothing on the others.
pub open spec fn brightness_result(model: DeviceModel, b: u16, r: Result<Step, CommandError>) -> bool {
    match model {
        DeviceModel::LB110 => r == Ok::<Step, CommandError>(
            Step::Run(DeviceCommand::SetBrightness(b)),
        ),
        DeviceModel::Unknown => transition_result(brightness_setting(b), r),
        _ => r == Ok::<Step, CommandError>(Step::Done),
    }
}

/// Setting the colour written `s`: a malformed colour is an error; otherwise
/// a raw message to a device of unknown model, nothing on the others.
pub open spec fn colour_result(model: DeviceModel, s: Seq<char>, r: Result<Step, CommandError>) -> bool {
    match parsed_colour(s) {
        Err(e) => r == Err::<Step, CommandError>(e),
        Ok(c) => if model is Unknown {
            transition_result(colour_setting(c), r)
        } else {
            r == Ok::<Step, CommandError>(Step::Done)
        },
    }
}

fn transition_step(l: &LightSetting) -> (r: Result<Step, CommandError>)
    ensures
        transition_result(*l, r),
{
    match encode_light_state(l) {
        Some(state) => Ok(Step::Run(DeviceCommand::Send(transition_request(state.as_str())))),
        None => Err(CommandError::Encoding),
    }
}

/// The dispatch of the actions to the calls that each device model supports.
pub struct DeviceExtensions {}

impl DeviceExtensions {
    /// The first step of toggling the power of a device of model `model`.
    pub fn toggle_power(model: DeviceModel) -> (r: Step)
        ensures
            toggle_start(model, r),
    {
        match model {
            DeviceModel::LB110 | DeviceModel::HS110 | DeviceModel::HS105 | DeviceModel::HS100 => {
                Step::Ask(Probe::IsOn)
            },
            DeviceModel::Unknown => Step::Ask(Probe::LightState(light_state_query())),
            _ => Step::Done,
        }
    }

    /// The next step of a toggle once the device said whether it is on.
    pub fn toggle_after_is_on(on: bool) -> (r: Step)
        ensures
            r == after_is_on_step(on),
            on ==> r == Step::Run(DeviceCommand::SwitchOff),
    {
        if on {
            Step::Run(DeviceCommand::SwitchOff)
        } else {
            Step::Ask(Probe::IsOff)
        }
    }

    /// The next step of a toggle once the device said whether it is off;
    /// a device whose power state is neither is asked for its light state.
    pub fn toggle_after_is_off(off: bool) -> (r: Step)
        ensures
            after_is_off(off, r),
            off ==> r == Step::Run(DeviceCommand::SwitchOn),
    {
        if off {
            Step::Run(DeviceCommand::SwitchOn)
        } else {
            Step::Ask(Probe::LightState(light_state_query()))
        }
    }

    /// The next step of a toggle once the device reported the `on_off` flag of its light state: switch it off where the flag is 1,
    /// else on.
    pub fn toggle_after_light_state(on_off: u8) -> (r: Step)
        ensures
            sends(r, power_text(on_off != 1)),
    {
        Step::Run(DeviceCommand::Send(power_message(on_off != 1)))
    }

    /// The command that sets the brightness of a device of model `model` to
    /// `brightness` percent.
    pub fn set_brightness(model: DeviceModel, brightness: u16) -> (r: Result<Step, CommandError>)
        ensures
            brightness_result(model, brightness, r),
    {
        match model {
            DeviceModel::LB110 => Ok(Step::Run(DeviceCommand::SetBrightness(brightness))),
            DeviceModel::Unknown => {
                let setting = LightSetting {
                    on_off: None,
                    hue: None,
                    saturation: None,
                    color_temp: None,
                    brightness: Some(brightness),
                };
                transition_step(&setting)
            },
            _ => Ok(Step::Done),
        }
    }

    /// The command that sets the colour of a device of model `model` to the
    /// colour written `colour` (`hue,saturation,temperature`).
    pub fn set_colour(model: DeviceModel, colour: &str) -> (r: Result<Step, CommandError>)
        ensures
            colour_result(model, colour@, r),
    {
        let c = match parse_colour(colour) {
            Ok(c) => c,
            Err(e) => {
                return Err(e);
            },
        };
        match model {
            DeviceModel::Unknown => {
                let setting = LightSetting {
                    on_off: None,
                    hue: Some(c.hue),
                    saturation: Some(c.saturation),
                    color_temp: Some(c.color_temp),
                    brightness: None,
                };
                transition_step(&setting)
            },
            _ => Ok(Step::Done),
        }
    }
}

/// Toggling a device with typed switches: the device is first asked whether
/// it is on; it is switched off if it is, and never switched on then; it is
/// switched on if it reports off instead; if it reports neither, it is asked
/// for its light state and sent the transition to the opposite `on_off`,
/// never a typed switch.
pub proof fn lemma_typed_toggle(
    model: DeviceModel,
    is_on: bool,
    is_off: bool,
    off_step: Step,
    on_off: u8,
    last_step: Step,
)
    requires
        has_typed_switch(model),
        after_is_off(is_off, off_step),
        sends(last_step, power_text(on_off != 1)),
    ensures
        toggle_start(model, Step::Ask(Probe::IsOn)),
        is_on ==> after_is_on_step(is_on) == Step::Run(DeviceCommand::SwitchOff),
        !is_on ==> after_is_on_step(is_on) == Step::Ask(Probe::IsOff),
        !is_on && is_off ==> off_step == Step::Run(DeviceCommand::SwitchOn),
        !is_on && !is_off ==> (off_step matches Step::Ask(Probe::LightState(q)) && q@
            == light_state_query_text()),
        on_off == 1 ==> sends(last_step, power_text(false)),
        on_off != 1 ==> sends(last_step, power_text(true)),
        last_step !is Done && !(last_step == Step::Run(DeviceCommand::SwitchOn)) && !(last_step
            == Step::Run(DeviceCommand::SwitchOff)),
{
}

} // verus!
