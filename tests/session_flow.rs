use tplink_cli::command::{DeviceCommand, DeviceExtensions, DeviceModel, Probe, Step};
use tplink_cli::session::{Action, DeviceRecord, Reply, TpLinkCliService};
use tplink_cli::text::CommandError;

fn record(alias: &str, model: DeviceModel) -> DeviceRecord {
    DeviceRecord { alias: alias.to_string(), model }
}

fn service_with(devices: Vec<DeviceRecord>) -> TpLinkCliService {
    let mut s = TpLinkCliService::new();
    s.set_devices(devices);
    s
}

fn lamp_and_plug() -> TpLinkCliService {
    service_with(vec![record("Lamp", DeviceModel::LB110), record("Plug", DeviceModel::HS100)])
}

#[test]
fn new_service_is_empty() {
    let s = TpLinkCliService::new();
    assert!(s.devices.is_empty());
    assert_eq!(s.selected_device, None);
    assert_eq!(s.selected_action, None);
}

#[test]
fn device_selection_picks_index_minus_one() {
    let mut s = service_with(vec![
        record("A", DeviceModel::HS100),
        record("B", DeviceModel::HS105),
        record("C", DeviceModel::Unknown),
    ]);
    for (input, index) in [("1", 0usize), ("2", 1), ("3", 2)] {
        assert_eq!(s.get_device_selection(input), Reply::Accept(index));
        assert_eq!(s.selected_device, Some(index));
        assert_eq!(s.devices[index].alias, ["A", "B", "C"][index]);
    }
}

#[test]
fn device_selection_out_of_range_is_fatal() {
    let mut s = lamp_and_plug();
    assert_eq!(s.get_device_selection("3"), Reply::Fatal);
    assert_eq!(s.get_device_selection("abc"), Reply::Fatal);
    assert_eq!(s.get_device_selection("-1"), Reply::Fatal);
    assert_eq!(s.selected_device, None);
}

#[test]
fn device_selection_with_no_devices_is_fatal() {
    let mut s = TpLinkCliService::new();
    assert_eq!(s.get_device_selection("1"), Reply::Fatal);
}

#[test]
fn empty_or_zero_selection_asks_again() {
    let mut s = lamp_and_plug();
    assert_eq!(s.get_device_selection(""), Reply::Retry);
    assert_eq!(s.get_device_selection("0"), Reply::Retry);
    assert_eq!(s.selected_device, None);
    assert_eq!(s.get_device_selection("1"), Reply::Accept(0));
    assert_eq!(s.get_action_selection(""), Reply::Retry);
    assert_eq!(s.get_action_selection("0"), Reply::Retry);
    assert_eq!(s.selected_action, None);
    assert_eq!(s.selected_device, Some(0));
}

#[test]
fn action_selection_maps_menu_entries() {
    let mut s = lamp_and_plug();
    assert_eq!(s.get_action_selection("1"), Reply::Accept(Action::Toggle));
    assert_eq!(s.get_action_selection("2"), Reply::Accept(Action::Brightness));
    assert_eq!(s.get_action_selection("3"), Reply::Accept(Action::Colour));
    assert_eq!(s.selected_action, Some(Action::Colour));
    assert_eq!(s.get_action_selection("4"), Reply::Fatal);
    assert_eq!(s.selected_action, Some(Action::Colour));
}

#[test]
fn action_texts() {
    assert_eq!(Action::Toggle.description(), "Toggle on / off.");
    assert_eq!(Action::Brightness.description(), "Set the brightness %.");
    assert_eq!(Action::Colour.description(), "Set the colour.");
    assert_eq!(Action::Toggle.confirmation(), "toggle on / off");
    assert_eq!(Action::Brightness.confirmation(), "set brightness");
    assert_eq!(Action::Colour.confirmation(), "set colour");
    assert_eq!(Action::at(1), Action::Brightness);
}

#[test]
fn brightness_zero_or_empty_asks_again() {
    let mut s = lamp_and_plug();
    s.get_device_selection("1");
    s.get_action_selection("2");
    assert_eq!(s.execute_action("0"), Reply::Retry);
    assert_eq!(s.execute_action(""), Reply::Retry);
    assert_eq!(s.execute_action("x"), Reply::Fatal);
    assert_eq!(s.execute_action("65536"), Reply::Fatal);
}

#[test]
fn brightness_is_forwarded_unchanged() {
    let mut s = lamp_and_plug();
    s.get_device_selection("1");
    s.get_action_selection("2");
    for (input, value) in [("1", 1u16), ("55", 55), ("100", 100), ("250", 250), ("65535", 65535)] {
        assert_eq!(
            s.execute_action(input),
            Reply::Accept(Ok(Step::Run(DeviceCommand::SetBrightness(value))))
        );
    }
}

#[test]
fn brightness_on_unknown_model_sends_raw_message() {
    assert_eq!(
        DeviceExtensions::set_brightness(DeviceModel::Unknown, 50),
        Ok(Step::Run(DeviceCommand::Send(
            "{\"smartlife.iot.smartbulb.lightingservice\":{\"transition_light_state\":{\"brightness\":50}}}"
                .to_string()
        )))
    );
}

#[test]
fn brightness_on_plug_does_nothing() {
    assert_eq!(DeviceExtensions::set_brightness(DeviceModel::HS100, 50), Ok(Step::Done));
    assert_eq!(DeviceExtensions::set_brightness(DeviceModel::KL110, 50), Ok(Step::Done));
}

#[test]
fn colour_on_unknown_model_sends_the_three_values() {
    assert_eq!(
        DeviceExtensions::set_colour(DeviceModel::Unknown, "10,20,30"),
        Ok(Step::Run(DeviceCommand::Send(
            "{\"smartlife.iot.smartbulb.lightingservice\":{\"transition_light_state\":{\"color_temp\":30,\"hue\":10,\"saturation\":20}}}"
                .to_string()
        )))
    );
}

#[test]
fn colour_with_fewer_fields_is_an_error() {
    assert_eq!(DeviceExtensions::set_colour(DeviceModel::Unknown, "10,20"), Err(CommandError::MissingField));
    assert_eq!(DeviceExtensions::set_colour(DeviceModel::Unknown, "10"), Err(CommandError::MissingField));
    assert_eq!(DeviceExtensions::set_colour(DeviceModel::LB110, "10,20"), Err(CommandError::MissingField));
}

#[test]
fn colour_with_bad_number_is_an_error() {
    assert_eq!(DeviceExtensions::set_colour(DeviceModel::Unknown, "10,x,30"), Err(CommandError::InvalidNumber));
    assert_eq!(DeviceExtensions::set_colour(DeviceModel::Unknown, "10,20,"), Err(CommandError::InvalidNumber));
    assert_eq!(DeviceExtensions::set_colour(DeviceModel::Unknown, "70000,1,1"), Err(CommandError::InvalidNumber));
}

#[test]
fn colour_on_typed_model_does_nothing() {
    assert_eq!(DeviceExtensions::set_colour(DeviceModel::LB110, "10,20,30"), Ok(Step::Done));
}

#[test]
fn colour_prompt_retries_on_empty() {
    let mut s = service_with(vec![record("Bulb", DeviceModel::Unknown)]);
    s.get_device_selection("1");
    s.get_action_selection("3");
    assert_eq!(s.execute_action(""), Reply::Retry);
    assert_eq!(s.execute_action("1,2"), Reply::Accept(Err(CommandError::MissingField)));
}

#[test]
fn toggle_typed_device_reporting_on_switches_off() {
    for model in [DeviceModel::LB110, DeviceModel::HS110, DeviceModel::HS105, DeviceModel::HS100] {
        assert_eq!(DeviceExtensions::toggle_power(model), Step::Ask(Probe::IsOn));
    }
    assert_eq!(DeviceExtensions::toggle_after_is_on(true), Step::Run(DeviceCommand::SwitchOff));
    assert_eq!(DeviceExtensions::toggle_after_is_on(false), Step::Ask(Probe::IsOff));
    assert_eq!(DeviceExtensions::toggle_after_is_off(true), Step::Run(DeviceCommand::SwitchOn));
}

#[test]
fn toggle_typed_device_reporting_neither_queries_light_state() {
    assert_eq!(
        DeviceExtensions::toggle_after_is_off(false),
        Step::Ask(Probe::LightState(
            "{\"smartlife.iot.smartbulb.lightingservice\":{\"get_light_state\":null}}".to_string()
        ))
    );
    let next = DeviceExtensions::toggle_after_light_state(0);
    assert_ne!(next, Step::Run(DeviceCommand::SwitchOn));
    assert_eq!(
        next,
        Step::Run(DeviceCommand::Send(
            "{\"smartlife.iot.smartbulb.lightingservice\":{\"transition_light_state\":{\"on_off\":1}}}"
                .to_string()
        ))
    );
}

#[test]
fn colour_fields_after_the_third_are_ignored() {
    assert_eq!(
        DeviceExtensions::set_colour(DeviceModel::Unknown, "10,20,30,x"),
        DeviceExtensions::set_colour(DeviceModel::Unknown, "10,20,30")
    );
}

#[test]
fn several_empty_answers_change_nothing() {
    let mut a = lamp_and_plug();
    let mut b = lamp_and_plug();
    assert_eq!(a.get_device_selection("2"), Reply::Accept(1));
    for _ in 0..3 {
        assert_eq!(b.get_device_selection(""), Reply::Retry);
        assert_eq!(b.selected_device, None);
    }
    assert_eq!(b.get_device_selection("2"), Reply::Accept(1));
    assert_eq!(a.selected_device, b.selected_device);
    for _ in 0..2 {
        assert_eq!(b.get_action_selection(""), Reply::Retry);
        assert_eq!(b.selected_action, None);
        assert_eq!(b.run_again(""), Reply::Retry);
    }
    assert_eq!(b.get_action_selection("3"), Reply::Accept(Action::Colour));
    assert_eq!(a.get_action_selection("3"), Reply::Accept(Action::Colour));
    assert_eq!(a.selected_action, b.selected_action);
}

#[test]
fn toggle_unknown_model_queries_light_state() {
    assert_eq!(
        DeviceExtensions::toggle_power(DeviceModel::Unknown),
        Step::Ask(Probe::LightState(
            "{\"smartlife.iot.smartbulb.lightingservice\":{\"get_light_state\":null}}".to_string()
        ))
    );
    assert_eq!(
        DeviceExtensions::toggle_after_light_state(1),
        Step::Run(DeviceCommand::Send(
            "{\"smartlife.iot.smartbulb.lightingservice\":{\"transition_light_state\":{\"on_off\":0}}}"
                .to_string()
        ))
    );
    assert_eq!(
        DeviceExtensions::toggle_after_light_state(0),
        Step::Run(DeviceCommand::Send(
            "{\"smartlife.iot.smartbulb.lightingservice\":{\"transition_light_state\":{\"on_off\":1}}}"
                .to_string()
        ))
    );
}

#[test]
fn toggle_other_models_do_nothing() {
    for model in [DeviceModel::HS300, DeviceModel::LB120, DeviceModel::KL110] {
        assert_eq!(DeviceExtensions::toggle_power(model), Step::Done);
    }
}

#[test]
fn repeat_y_returns_to_action_selection() {
    let mut s = lamp_and_plug();
    s.get_device_selection("2");
    s.get_action_selection("1");
    assert_eq!(s.run_again(""), Reply::Retry);
    assert_eq!(s.selected_action, Some(Action::Toggle));
    assert_eq!(s.run_again("y"), Reply::Accept(true));
    assert_eq!(s.selected_action, None);
    assert_eq!(s.selected_device, Some(1));
}

#[test]
fn repeat_other_answers_stop() {
    let mut s = lamp_and_plug();
    s.get_device_selection("2");
    s.get_action_selection("1");
    assert_eq!(s.run_again("n"), Reply::Accept(false));
    assert_eq!(s.run_again("yes"), Reply::Accept(false));
    assert_eq!(s.run_again("Y"), Reply::Accept(false));
    assert_eq!(s.selected_action, Some(Action::Toggle));
}

#[test]
fn lamp_and_plug_toggle_scenario() {
    let mut s = lamp_and_plug();
    assert_eq!(s.get_device_selection("2"), Reply::Accept(1));
    assert_eq!(s.devices[1].alias, "Plug");
    assert_eq!(s.get_action_selection("1"), Reply::Accept(Action::Toggle));
    let step = s.execute_action("");
    assert_eq!(step, Reply::Accept(Ok(Step::Ask(Probe::IsOn))));
    // the plug reports that it is on
    let next = DeviceExtensions::toggle_after_is_on(true);
    assert_eq!(next, Step::Run(DeviceCommand::SwitchOff));
    assert_eq!(s.run_again("n"), Reply::Accept(false));
}

#[test]
fn new_discovery_forgets_earlier_choice() {
    let mut s = lamp_and_plug();
    s.get_device_selection("2");
    s.get_action_selection("2");
    s.set_devices(vec![record("Strip", DeviceModel::HS300)]);
    assert_eq!(s.selected_device, None);
    assert_eq!(s.selected_action, None);
    assert_eq!(s.devices.len(), 1);
    assert_eq!(s.get_device_selection("2"), Reply::Fatal);
}
