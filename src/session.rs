//! The interactive session: one device and one action chosen from the user's
//! answers, the action's parameters read, and the choice to run again.
//! Every method takes one typed answer and says whether it was accepted, must
//! be asked for again, or ends the run.

use vstd::prelude::*;
use crate::command::{
    DeviceCommand,
    DeviceExtensions,
    DeviceModel,
    Step,
    brightness_result,
    colour_result,
    toggle_start,
};
use crate::text::{
    CommandError,
    U16_LIMIT,
    digits_value,
    parse_unsigned,
    parsed_unsigned,
    unsigned_digits,
};

verus! {

/// What the user can do with the selected device.
#[derive(Clone, Copy, Debug, PartialEq, Eq, Structural)]
pub enum Action {
    Toggle,
    Brightness,
    Colour,
}

/// The number of entries of the action menu.
pub const ACTION_COUNT: usize = 3;

/// The action at a 0-based position of the menu.
pub open spec fn action_at(i: usize) -> Action {
    if i == 0 {
        Action::Toggle
    } else if i == 1 {
        Action::Brightness
    } else {
        Action::Colour
    }
}

pub open spec fn action_description(a: Action) -> Seq<char> {
    match a {
        Action::Toggle => "Toggle on / off."@,
        Action::Brightness => "Set the brightness %."@,
        Action::Colour => "Set the colour."@,
    }
}

pub open spec fn action_confirmation(a: Action) -> Seq<char> {
    match a {
        Action::Toggle => "toggle on / off"@,
        Action::Brightness => "set brightness"@,
        Action::Colour => "set colour"@,
    }
}

impl Action {
    /// The action at a 0-based position of the menu.
    pub fn at(i: usize) -> (r: Action)
        requires
            i < ACTION_COUNT,
        ensures
            r == action_at(i),
    {
        if i == 0 {
            Action::Toggle
        } else if i == 1 {
            Action::Brightness
        } else {
            Action::Colour
        }
    }

    /// The text of the action's menu entry.
    pub fn description(&self) -> (r: &'static str)
        ensures
            r@ == action_description(*self),
    {
        match self {
            Action::Toggle => "Toggle on / off.",
            Action::Brightness => "Set the brightness %.",
            Action::Colour => "Set the colour.",
        }
    }

    /// How the chosen action is named back to the user.
    pub fn confirmation(&self) -> (r: &'static str)
        ensures
            r@ == action_confirmation(*self),
    {
        match self {
            Action::Toggle => "toggle on / off",
            Action::Brightness => "set brightness",
            Action::Colour => "set colour",
        }
    }
}

/// A discovered device: the name it reports and its model.
#[derive(Clone, Debug)]
pub struct DeviceRecord {
    pub alias: String,
    pub model: DeviceModel,
}

/// The outcome of one answer to a prompt.
#[derive(Clone, Debug, PartialEq, Eq)]
pub enum Reply<T> {
    /// The answer was empty: ask again, nothing changed.
    Retry,
    /// The answer was taken.
    Accept(T),
    /// The answer cannot be used: the run ends.
    Fatal,
}

/// An answer to a numbered menu of `count` entries: empty or zero asks again,
/// `n` in `1..=count` picks entry `n - 1`, anything else ends the run.
pub open spec fn selection_reply(s: Seq<char>, count: nat) -> Reply<usize> {
    if s.len() == 0 {
        Reply::Retry
    } else {
        match parsed_unsigned(s, count) {
            Some(n) => if n == 0 {
                Reply::Retry
            } else {
                Reply::Accept((n - 1) as usize)
            },
            None => Reply::Fatal,
        }
    }
}

/// An answer to the brightness prompt: empty or zero asks again, a number up
/// to 65535 is taken as it is, anything else ends the run.
pub open spec fn brightness_reply(s: Seq<char>) -> Reply<u16> {
    if s.len() == 0 {
        Reply::Retry
    } else {
        match parsed_unsigned(s, U16_LIMIT as nat) {
            Some(n) => if n == 0 {
                Reply::Retry
            } else {
                Reply::Accept(n as u16)
            },
            None => Reply::Fatal,
        }
    }
}

/// An answer to "run again?": empty asks again, exactly `y` runs again,
/// anything else stops.
pub open spec fn repeat_reply(s: Seq<char>) -> Reply<bool> {
    if s.len() == 0 {
        Reply::Retry
    } else {
        Reply::Accept(s == seq!['y'])
    }
}

/// Reads an answer to a numbered menu of `count` entries.
pub fn select_index(input: &str, count: usize) -> (r: Reply<usize>)
    ensures
        r == selection_reply(input@, count as nat),
        r matches Reply::Accept(i) ==> i < count,
{
    if input.unicode_len() == 0 {
        return Reply::Retry;
    }
    match parse_unsigned(input, count) {
        Some(n) => if n == 0 {
            Reply::Retry
        } else {
            Reply::Accept(n - 1)
        },
        None => Reply::Fatal,
    }
}

/// Reads an answer to the brightness prompt.
pub fn read_brightness(input: &str) -> (r: Reply<u16>)
    ensures
        r == brightness_reply(input@),
{
    if input.unicode_len() == 0 {
        return Reply::Retry;
    }
    match parse_unsigned(input, U16_LIMIT) {
        Some(n) => if n == 0 {
            Reply::Retry
        } else {
            Reply::Accept(n as u16)
        },
        None => Reply::Fatal,
    }
}

/// Reads an answer to "run again?".
pub fn read_repeat(input: &str) -> (r: Reply<bool>)
    ensures
        r == repeat_reply(input@),
{
    let n = input.unicode_len();
    if n == 0 {
        return Reply::Retry;
    }
    let again = n == 1 && input.get_char(0) == 'y';
    assert(again <==> input@ == seq!['y']) by {
        if n == 1 && input@[0] == 'y' {
            assert(input@ =~= seq!['y']);
        }
    }
    Reply::Accept(again)
}

/// The brightness answer `0` asks again, and any other number up to 65535
/// reaches the LB110's typed call unchanged.
pub proof fn lemma_brightness_forwarded(s: Seq<char>, n: nat)
    requires
        parsed_unsigned(s, U16_LIMIT as nat) == Some(n),
    ensures
        brightness_reply(seq!['0']) is Retry,
        n > 0 ==> brightness_reply(s) == Reply::Accept(n as u16),
        n > 0 ==> brightness_result(
            DeviceModel::LB110,
            n as u16,
            Ok(Step::Run(DeviceCommand::SetBrightness(n as u16))),
        ),
{
    let zero = seq!['0'];
    assert(zero.drop_last() =~= Seq::<char>::empty());
    assert(unsigned_digits(zero) =~= zero);
    assert(digits_value(Seq::<char>::empty()) == 0);
    assert(zero.last() == '0');
    assert(digits_value(zero) == 0);
}

/// Where a session stands: what it asks for next.
#[derive(Clone, Copy, Debug, PartialEq, Eq, Structural)]
pub enum Stage {
    SelectDevice,
    SelectAction,
    Execute,
}

/// What executing `action` on a device of model `model` gives for the
/// parameter answer `s`.
pub open spec fn execution_reply(
    action: Action,
    model: DeviceModel,
    s: Seq<char>,
    r: Reply<Result<Step, CommandError>>,
) -> bool {
    match action {
        Action::Toggle => r matches Reply::Accept(Ok(st)) && toggle_start(model, st),
        Action::Brightness => match brightness_reply(s) {
            Reply::Retry => r is Retry,
            Reply::Fatal => r is Fatal,
            Reply::Accept(b) => r matches Reply::Accept(res) && brightness_result(model, b, res),
        },
        Action::Colour => if s.len() == 0 {
            r is Retry
        } else {
            r matches Reply::Accept(res) && colour_result(model, s, res)
        },
    }
}

/// The state of one session: the discovered devices, and the device and
/// action chosen so far.
pub struct TpLinkCliService {
    pub devices: Vec<DeviceRecord>,
    /// Position of the chosen device in `devices`.
    pub selected_device: Option<usize>,
    pub selected_action: Option<Action>,
}

impl TpLinkCliService {
    /// The chosen device is one of the discovered ones.
    pub open spec fn wf(&self) -> bool {
        self.selected_device matches Some(i) ==> i < self.devices@.len()
    }

    pub open spec fn stage(&self) -> Stage {
        if self.selected_device is None {
            Stage::SelectDevice
        } else if self.selected_action is None {
            Stage::SelectAction
        } else {
            Stage::Execute
        }
    }

    /// The model of the chosen device.
    pub open spec fn selected_model(&self) -> DeviceModel {
        self.devices@[self.selected_device->0 as int].model
    }

    /// The session after the answer `s` to the device menu.
    pub open spec fn after_device_answer(self, s: Seq<char>) -> TpLinkCliService {
        match selection_reply(s, self.devices@.len()) {
            Reply::Accept(i) => TpLinkCliService {
                devices: self.devices,
                selected_device: Some(i),
                selected_action: self.selected_action,
            },
            _ => self,
        }
    }

    /// The session after the answer `s` to the action menu.
    pub open spec fn after_action_answer(self, s: Seq<char>) -> TpLinkCliService {
        match selection_reply(s, ACTION_COUNT as nat) {
            Reply::Accept(i) => TpLinkCliService {
                devices: self.devices,
                selected_device: self.selected_device,
                selected_action: Some(action_at(i)),
            },
            _ => self,
        }
    }

    /// The session after the answer `s` to "run again?".
    pub open spec fn after_repeat_answer(self, s: Seq<char>) -> TpLinkCliService {
        if repeat_reply(s) == Reply::Accept(true) {
            TpLinkCliService {
                devices: self.devices,
                selected_device: self.selected_device,
                selected_action: None,
            }
        } else {
            self
        }
    }

    /// A session with no devices and nothing chosen.
    pub fn new() -> (r: TpLinkCliService)
        ensures
            r.wf(),
            r.devices@.len() == 0,
            r.selected_device is None,
            r.selected_action is None,
            r.stage() == Stage::SelectDevice,
    {
        TpLinkCliService { devices: Vec::new(), selected_device: None, selected_action: None }
    }

    /// Takes the result of a discovery: the devices in the order they
    /// answered. Any earlier choice is forgotten.
    pub fn set_devices(&mut self, devices: Vec<DeviceRecord>)
        ensures
            final(self).wf(),
            final(self).devices@ == devices@,
            final(self).selected_device is None,
            final(self).selected_action is None,
            final(self).stage() == Stage::SelectDevice,
    {
        self.devices = devices;
        self.selected_device = None;
        self.selected_action = None;
    }

    /// Takes an answer to the device menu, which numbers the devices from 1
    /// in discovery order.
    pub fn get_device_selection(&mut self, input: &str) -> (r: Reply<usize>)
        requires
            old(self).wf(),
        ensures
            final(self).wf(),
            r == selection_reply(input@, old(self).devices@.len()),
            *final(self) == old(self).after_device_answer(input@),
            match parsed_unsigned(input@, old(self).devices@.len()) {
                Some(n) => n >= 1 ==> r == Reply::Accept((n - 1) as usize),
                None => true,
            },
            input@.len() == 0 ==> r is Retry,
            r matches Reply::Accept(i) ==> {
                &&& final(self).selected_device == Some(i)
                &&& final(self).devices == old(self).devices
                &&& final(self).selected_action == old(self).selected_action
            },
            !(r is Accept) ==> *final(self) == *old(self),
    {
        let r = select_index(input, self.devices.len());
        if let Reply::Accept(i) = r {
            self.selected_device = Some(i);
        }
        r
    }

    /// Takes an answer to the action menu: 1 toggles, 2 sets the
    /// brightness, 3 sets the colour.
    pub fn get_action_selection(&mut self, input: &str) -> (r: Reply<Action>)
        requires
            old(self).wf(),
        ensures
            final(self).wf(),
            match selection_reply(input@, ACTION_COUNT as nat) {
                Reply::Retry => r is Retry,
                Reply::Fatal => r is Fatal,
                Reply::Accept(i) => r == Reply::Accept(action_at(i)),
            },
            input@.len() == 0 ==> r is Retry,
            *final(self) == old(self).after_action_answer(input@),
            r matches Reply::Accept(a) ==> {
                &&& final(self).selected_action == Some(a)
                &&& final(self).devices == old(self).devices
                &&& final(self).selected_device == old(self).selected_device
            },
            !(r is Accept) ==> *final(self) == *old(self),
    {
        match select_index(input, ACTION_COUNT) {
            Reply::Accept(i) => {
                let a = Action::at(i);
                self.selected_action = Some(a);
                Reply::Accept(a)
            },
            Reply::Retry => Reply::Retry,
            Reply::Fatal => Reply::Fatal,
        }
    }

    /// Runs the chosen action on the chosen device, with `input` the answer
    /// to the action's parameter prompt (ignored by a toggle): what to do
    /// with the device next, or why that could not be decided.
    pub fn execute_action(&self, input: &str) -> (r: Reply<Result<Step, CommandError>>)
        requires
            self.wf(),
            self.stage() == Stage::Execute,
        ensures
            execution_reply(self.selected_action->0, self.selected_model(), input@, r),
            input@.len() == 0 && !(self.selected_action == Some(Action::Toggle)) ==> r is Retry,
    {
        let model = match self.selected_device {
            Some(i) => self.devices[i].model,
            None => DeviceModel::Unknown,
        };
        match self.selected_action {
            Some(Action::Brightness) => match read_brightness(input) {
                Reply::Accept(b) => Reply::Accept(DeviceExtensions::set_brightness(model, b)),
                Reply::Retry => Reply::Retry,
                Reply::Fatal => Reply::Fatal,
            },
            Some(Action::Colour) => {
                if input.unicode_len() == 0 {
                    Reply::Retry
                } else {
                    Reply::Accept(DeviceExtensions::set_colour(model, input))
                }
            },
            _ => Reply::Accept(Ok(DeviceExtensions::toggle_power(model))),
        }
    }

    /// Takes an answer to "run again?". Running again keeps the device and
    /// asks for a new action.
    pub fn run_again(&mut self, input: &str) -> (r: Reply<bool>)
        requires
            old(self).wf(),
        ensures
            final(self).wf(),
            r == repeat_reply(input@),
            *final(self) == old(self).after_repeat_answer(input@),
            input@.len() == 0 ==> r is Retry,
            r == Reply::Accept(true) ==> {
                &&& final(self).devices == old(self).devices
                &&& final(self).selected_device == old(self).selected_device
                &&& final(self).selected_action is None
            },
            r == Reply::Accept(true) && old(self).selected_device is Some ==> final(self).stage()
                == Stage::SelectAction,
            !(r == Reply::Accept(true)) ==> *final(self) == *old(self),
    {
        let r = read_repeat(input);
        if let Reply::Accept(true) = r {
            self.selected_action = None;
        }
        r
    }
}

/// The session after the answers `answers`, in order, to the prompt whose
/// effect is `f`.
pub open spec fn after_answers(
    svc: TpLinkCliService,
    answers: Seq<Seq<char>>,
    f: spec_fn(TpLinkCliService, Seq<char>) -> TpLinkCliService,
) -> TpLinkCliService
    decreases answers.len(),
{
    if answers.len() == 0 {
        svc
    } else {
        after_answers(f(svc, answers[0]), answers.drop_first(), f)
    }
}

/// All of `answers` are empty.
pub open spec fn all_empty(answers: Seq<Seq<char>>) -> bool {
    forall|i: int| 0 <= i < answers.len() ==> (#[trigger] answers[i]).len() == 0
}

proof fn lemma_empty_answers_skipped(
    svc: TpLinkCliService,
    empties: Seq<Seq<char>>,
    s: Seq<char>,
    f: spec_fn(TpLinkCliService, Seq<char>) -> TpLinkCliService,
)
    requires
        forall|x: TpLinkCliService| #[trigger] f(x, Seq::<char>::empty()) == x,
        all_empty(empties),
    ensures
        after_answers(svc, empties.push(s), f) == f(svc, s),
    decreases empties.len(),
{
    let all = empties.push(s);
    if empties.len() == 0 {
        assert(all.drop_first() =~= Seq::<Seq<char>>::empty());
        assert(all[0] == s);
        assert(after_answers(f(svc, s), all.drop_first(), f) == f(svc, s));
    } else {
        assert(empties[0] =~= Seq::<char>::empty());
        assert(all[0] == empties[0]);
        assert(f(svc, Seq::<char>::empty()) == svc);
        assert(f(svc, all[0]) == svc);
        assert(all.drop_first() =~= empties.drop_first().push(s));
        lemma_empty_answers_skipped(svc, empties.drop_first(), s, f);
    }
}

/// Empty answers to the device menu never advance the session: any number
/// of them leaves it as it was, and followed by `s` they leave it as `s`
/// alone does.
pub proof fn lemma_empty_device_answers(svc: TpLinkCliService, empties: Seq<Seq<char>>, s: Seq<char>)
    requires
        all_empty(empties),
    ensures
        svc.after_device_answer(Seq::empty()) == svc,
        after_answers(svc, empties.push(s), |x: TpLinkCliService, a: Seq<char>| x.after_device_answer(a))
            == svc.after_device_answer(s),
{
    let f = |x: TpLinkCliService, a: Seq<char>| x.after_device_answer(a);
    assert forall|x: TpLinkCliService| #[trigger] f(x, Seq::<char>::empty()) == x by {}
    lemma_empty_answers_skipped(svc, empties, s, f);
}

/// Empty answers to the action menu never advance the session: any number
/// of them leaves it as it was, and followed by `s` they leave it as `s`
/// alone does.
pub proof fn lemma_empty_action_answers(svc: TpLinkCliService, empties: Seq<Seq<char>>, s: Seq<char>)
    requires
        all_empty(empties),
    ensures
        svc.after_action_answer(Seq::empty()) == svc,
        after_answers(svc, empties.push(s), |x: TpLinkCliService, a: Seq<char>| x.after_action_answer(a))
            == svc.after_action_answer(s),
{
    let f = |x: TpLinkCliService, a: Seq<char>| x.after_action_answer(a);
    assert forall|x: TpLinkCliService| #[trigger] f(x, Seq::<char>::empty()) == x by {}
    lemma_empty_answers_skipped(svc, empties, s, f);
}

/// Empty answers to "run again?" never advance the session: any number of
/// them leaves it as it was, and followed by `s` they leave it as `s` alone
/// does.
pub proof fn lemma_empty_repeat_answers(svc: TpLinkCliService, empties: Seq<Seq<char>>, s: Seq<char>)
    requires
        all_empty(empties),
    ensures
        svc.after_repeat_answer(Seq::empty()) == svc,
        after_answers(svc, empties.push(s), |x: TpLinkCliService, a: Seq<char>| x.after_repeat_answer(a))
            == svc.after_repeat_answer(s),
{
    let f = |x: TpLinkCliService, a: Seq<char>| x.after_repeat_answer(a);
    assert forall|x: TpLinkCliService| #[trigger] f(x, Seq::<char>::empty()) == x by {}
    lemma_empty_answers_skipped(svc, empties, s, f);
}

} // verus!
