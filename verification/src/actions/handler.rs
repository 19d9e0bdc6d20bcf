//! The dispatcher: checks a parsed action and says what is to be done on the
//! device and what the step's verdict is.
//!
//! The dispatcher itself touches no device. It hands back the command to be
//! carried out, if any, together with the verdict, so that the caller can run
//! the command and report the verdict.

use crate::actions::coordinates::{
    absolute_outcome, outcome_view, relative_outcome, validate_absolute, validate_relative,
    CoordinateSystem, Scale,
};
use crate::actions::parser::{option_view, Action, ActionView};
use crate::actions::value::{
    get_param, lookup, params_view, scalars_view, Param, ParamValue, ParamValueView, Scalar,
    ScalarView,
};
use crate::config::apps::{get_package, package_of};
use crate::text::{from_chars, push_str, str_eq, to_chars};
use vstd::prelude::*;

verus! {

/// The verdict on one dispatched action.
#[derive(Debug, Clone, PartialEq, Eq)]
pub struct ActionResult {
    /// Whether the action was accepted.
    pub success: bool,
    /// Whether the task is over.
    pub should_finish: bool,
    /// What there is to say about it.
    pub message: Option<String>,
    /// Whether the user was asked to confirm and declined.
    pub requires_confirmation: bool,
}

/// The mathematical value of an [`ActionResult`].
pub struct ActionResultView {
    pub success: bool,
    pub should_finish: bool,
    pub message: Option<Seq<char>>,
    pub requires_confirmation: bool,
}

impl View for ActionResult {
    type V = ActionResultView;

    open spec fn view(&self) -> ActionResultView {
        ActionResultView {
            success: self.success,
            should_finish: self.should_finish,
            message: option_view(self.message),
            requires_confirmation: self.requires_confirmation,
        }
    }
}

/// The verdict of an action that was accepted and leaves the task open.
pub open spec fn success_view() -> ActionResultView {
    ActionResultView {
        success: true,
        should_finish: false,
        message: None,
        requires_confirmation: false,
    }
}

/// The verdict of an action that was refused for the reason `message`.
pub open spec fn failure_view(message: Seq<char>) -> ActionResultView {
    ActionResultView {
        success: false,
        should_finish: false,
        message: Some(message),
        requires_confirmation: false,
    }
}

/// The verdict of an action that ends the task.
pub open spec fn finish_view(message: Option<Seq<char>>) -> ActionResultView {
    ActionResultView { success: true, should_finish: true, message, requires_confirmation: false }
}

/// The verdict of a sensitive action that the user declined: the step has
/// failed and the task is over.
pub open spec fn declined_view() -> ActionResultView {
    ActionResultView {
        success: false,
        should_finish: true,
        message: Some("User cancelled sensitive operation"@),
        requires_confirmation: true,
    }
}

impl ActionResult {
    /// A successful result.
    pub fn success() -> (r: Self)
        ensures
            r@ == success_view(),
    {
        ActionResult {
            success: true,
            should_finish: false,
            message: None,
            requires_confirmation: false,
        }
    }

    /// A failure with its reason.
    pub fn failure(message: &str) -> (r: Self)
        ensures
            r@ == failure_view(message@),
    {
        ActionResult {
            success: false,
            should_finish: false,
            message: Some(String::from_str(message)),
            requires_confirmation: false,
        }
    }

    /// A result that ends the task.
    pub fn finish(message: Option<String>) -> (r: Self)
        ensures
            r@ == finish_view(option_view(message)),
    {
        ActionResult { success: true, should_finish: true, message, requires_confirmation: false }
    }

    /// The result of a sensitive action that the user declined.
    pub fn declined() -> (r: Self)
        ensures
            r@ == declined_view(),
    {
        ActionResult {
            success: false,
            should_finish: true,
            message: Some(String::from_str("User cancelled sensitive operation")),
            requires_confirmation: true,
        }
    }
}

/// What is to be done on the device.
#[derive(Debug, Clone, PartialEq, Eq)]
pub enum DeviceCommand {
    Launch { package: String },
    Tap { x: u32, y: u32 },
    DoubleTap { x: u32, y: u32 },
    LongPress { x: u32, y: u32 },
    Swipe { start_x: u32, start_y: u32, end_x: u32, end_y: u32 },
    Type { text: String },
    Back,
    Home,
    Wait { duration: String },
    TakeOver { message: String },
}

/// The mathematical value of a [`DeviceCommand`].
pub enum DeviceCommandView {
    Launch { package: Seq<char> },
    Tap { x: u32, y: u32 },
    DoubleTap { x: u32, y: u32 },
    LongPress { x: u32, y: u32 },
    Swipe { start_x: u32, start_y: u32, end_x: u32, end_y: u32 },
    Type { text: Seq<char> },
    Back,
    Home,
    Wait { duration: Seq<char> },
    TakeOver { message: Seq<char> },
}

impl View for DeviceCommand {
    type V = DeviceCommandView;

    open spec fn view(&self) -> DeviceCommandView {
        match self {
            DeviceCommand::Launch { package } => DeviceCommandView::Launch { package: package@ },
            DeviceCommand::Tap { x, y } => DeviceCommandView::Tap { x: *x, y: *y },
            DeviceCommand::DoubleTap { x, y } => DeviceCommandView::DoubleTap { x: *x, y: *y },
            DeviceCommand::LongPress { x, y } => DeviceCommandView::LongPress { x: *x, y: *y },
            DeviceCommand::Swipe { start_x, start_y, end_x, end_y } => DeviceCommandView::Swipe {
                start_x: *start_x,
                start_y: *start_y,
                end_x: *end_x,
                end_y: *end_y,
            },
            DeviceCommand::Type { text } => DeviceCommandView::Type { text: text@ },
            DeviceCommand::Back => DeviceCommandView::Back,
            DeviceCommand::Home => DeviceCommandView::Home,
            DeviceCommand::Wait { duration } => DeviceCommandView::Wait { duration: duration@ },
            DeviceCommand::TakeOver { message } => DeviceCommandView::TakeOver {
                message: message@,
            },
        }
    }
}

/// The verdict on an action and the command to carry out, if there is one.
#[derive(Debug, Clone, PartialEq, Eq)]
pub struct Execution {
    pub result: ActionResult,
    pub command: Option<DeviceCommand>,
}

/// The mathematical value of an [`Execution`].
pub struct ExecutionView {
    pub result: ActionResultView,
    pub command: Option<DeviceCommandView>,
}

impl View for Execution {
    type V = ExecutionView;

    open spec fn view(&self) -> ExecutionView {
        ExecutionView {
            result: self.result@,
            command: match self.command {
                Some(c) => Some(c@),
                None => None,
            },
        }
    }
}

/// A refusal: the reason, and nothing to carry out.
pub open spec fn refused(message: Seq<char>) -> ExecutionView {
    ExecutionView { result: failure_view(message), command: None }
}

/// An accepted action with the command to carry out.
pub open spec fn accepted(command: DeviceCommandView) -> ExecutionView {
    ExecutionView { result: success_view(), command: Some(command) }
}

/// An accepted action with nothing to carry out.
pub open spec fn noted() -> ExecutionView {
    ExecutionView { result: success_view(), command: None }
}

/// The integers among `items`, in order.
pub open spec fn int_items(items: Seq<ScalarView>) -> Seq<i64>
    decreases items.len(),
{
    if items.len() == 0 {
        Seq::empty()
    } else {
        let before = int_items(items.drop_last());
        match items.last() {
            ScalarView::Int(n) => before.push(n),
            _ => before,
        }
    }
}

/// Where a parameter points to.
pub enum Located {
    /// There is no list under the key.
    Missing,
    /// The list holds fewer than two integers.
    Invalid,
    /// The first two integers of the list.
    At(i64, i64),
}

/// Where the list under `key` points to.
pub open spec fn locate(params: Seq<(Seq<char>, ParamValueView)>, key: Seq<char>) -> Located {
    match lookup(params, key) {
        Some(ParamValueView::List(items)) => {
            let found = int_items(items);
            if found.len() < 2 {
                Located::Invalid
            } else {
                Located::At(found[0], found[1])
            }
        },
        _ => Located::Missing,
    }
}

/// The text under `key`, where the value under it is a text.
pub open spec fn text_param(params: Seq<(Seq<char>, ParamValueView)>, key: Seq<char>) -> Option<
    Seq<char>,
> {
    match lookup(params, key) {
        Some(ParamValueView::One(ScalarView::Text(t))) => Some(t),
        _ => None,
    }
}

/// The text under `key`, where the value under it is a text.
pub fn get_text<'a>(params: &'a Vec<Param>, key: &str) -> (r: Option<&'a String>)
    ensures
        match r {
            Some(t) => text_param(params_view(params@), key@) == Some(t@),
            None => text_param(params_view(params@), key@) is None,
        },
{
    match get_param(params, key) {
        Some(ParamValue::One(Scalar::Text(t))) => Some(t),
        _ => None,
    }
}

/// Where the list under `key` points to.
pub fn find_point(params: &Vec<Param>, key: &str) -> (r: Located)
    ensures
        r == locate(params_view(params@), key@),
{
    match get_param(params, key) {
        Some(ParamValue::List(items)) => {
            let mut first: Option<i64> = None;
            let mut i: usize = 0;
            while i < items.len()
                invariant
                    i <= items.len(),
                    lookup(params_view(params@), key@) == Some(
                        ParamValueView::List(scalars_view(items@)),
                    ),
                    int_items(scalars_view(items@).take(i as int)).len() <= 1,
                    match first {
                        Some(a) => int_items(scalars_view(items@).take(i as int)) == seq![a],
                        None => int_items(scalars_view(items@).take(i as int)).len() == 0,
                    },
                decreases items.len() - i,
            {
                let ghost all = scalars_view(items@);
                let ghost next = all.take(i + 1);
                assert(next.drop_last() == all.take(i as int));
                assert(next.last() == items@[i as int]@);
                match &items[i] {
                    Scalar::Int(n) => {
                        match first {
                            Some(a) => {
                                proof {
                                    assert(int_items(next) == seq![a].push(*n));
                                    lemma_int_items_prefix(all, i + 1);
                                    assert(int_items(all).take(2)[0] == a);
                                    assert(int_items(all).take(2)[1] == *n);
                                }
                                return Located::At(a, *n);
                            },
                            None => {
                                first = Some(*n);
                            },
                        }
                    },
                    _ => {},
                }
                i += 1;
            }
            assert(scalars_view(items@).take(items.len() as int) == scalars_view(items@));
            Located::Invalid
        },
        _ => Located::Missing,
    }
}

/// The integers among a prefix of `items` are a prefix of the integers
/// among `items`.
pub proof fn lemma_int_items_prefix(items: Seq<ScalarView>, k: int)
    requires
        0 <= k <= items.len(),
    ensures
        int_items(items.take(k)).len() <= int_items(items).len(),
        int_items(items.take(k)) == int_items(items).take(int_items(items.take(k)).len() as int),
    decreases items.len(),
{
    if k == items.len() {
        assert(items.take(k) == items);
        assert(int_items(items).take(int_items(items).len() as int) == int_items(items));
    } else {
        let shorter = items.drop_last();
        assert(shorter.take(k) == items.take(k));
        lemma_int_items_prefix(shorter, k);
        let a = int_items(items.take(k));
        assert(a == int_items(shorter).take(a.len() as int));
        assert(int_items(shorter).take(a.len() as int) == int_items(items).take(a.len() as int));
    }
}

/// Checks actions against the screen and a coordinate policy.
#[derive(Debug, Clone, PartialEq, Eq)]
pub struct ActionHandler {
    device_id: Option<String>,
    scale_x: Scale,
    scale_y: Scale,
    coordinate_system: CoordinateSystem,
}

/// What is said where coordinates are refused: the parameter's name and the
/// policy's own words.
pub open spec fn coordinate_error_text(name: Seq<char>, reason: Seq<char>) -> Seq<char> {
    "Coordinate error for "@ + name + ": "@ + reason
}

/// The message that must be confirmed before `action` is carried out: the
/// text under `message` of a tap that points somewhere.
pub open spec fn confirmation_message(action: ActionView) -> Option<Seq<char>> {
    match action {
        ActionView::Do { name, params } => if name == "Tap"@ && locate(params, "element"@)
            is At {
            text_param(params, "message"@)
        } else {
            None
        },
        ActionView::Finish { .. } => None,
    }
}

impl ActionHandler {
    /// The device that commands are meant for.
    pub closed spec fn device(self) -> Option<Seq<char>> {
        option_view(self.device_id)
    }

    /// The scale factors of the two axes.
    pub closed spec fn scales(self) -> (Scale, Scale) {
        (self.scale_x, self.scale_y)
    }

    /// The coordinate policy.
    pub closed spec fn policy(self) -> CoordinateSystem {
        self.coordinate_system
    }

    /// The pixels that the pair `(x, y)` stands for under the handler's
    /// policy, or the policy's words on why it stands for none.
    pub open spec fn pixels(self, x: i64, y: i64, width: u32, height: u32) -> Result<
        (u32, u32),
        Seq<char>,
    > {
        match self.policy() {
            CoordinateSystem::Relative => relative_outcome(x, y, width, height),
            CoordinateSystem::Absolute => absolute_outcome(
                self.scales().0,
                self.scales().1,
                x,
                y,
                width,
                height,
            ),
        }
    }

    /// The pixels of the pair `(x, y)` given under the parameter `name`, or
    /// the refusal.
    pub open spec fn checked(self, x: i64, y: i64, name: Seq<char>, width: u32, height: u32)
        -> Result<(u32, u32), ExecutionView> {
        match self.pixels(x, y, width, height) {
            Ok(p) => Ok(p),
            Err(reason) => Err(refused(coordinate_error_text(name, reason))),
        }
    }

    /// The pixels that the list under `key` points to, or the refusal: for a
    /// missing list `missing`, for one with fewer than two integers
    /// `invalid`, for a pair that the policy refuses the policy's words.
    pub open spec fn point(
        self,
        params: Seq<(Seq<char>, ParamValueView)>,
        key: Seq<char>,
        missing: Seq<char>,
        invalid: Seq<char>,
        width: u32,
        height: u32,
    ) -> Result<(u32, u32), ExecutionView> {
        match locate(params, key) {
            Located::Missing => Err(refused(missing)),
            Located::Invalid => Err(refused(invalid)),
            Located::At(x, y) => self.checked(x, y, key, width, height),
        }
    }

    /// What becomes of a launch: the application must be named and known.
    pub open spec fn launch_outcome(params: Seq<(Seq<char>, ParamValueView)>) -> ExecutionView {
        match text_param(params, "app"@) {
            None => refused("No app name specified"@),
            Some(app) => match package_of(app) {
                Some(package) => accepted(DeviceCommandView::Launch { package }),
                None => refused("App not found: "@ + app),
            },
        }
    }

    /// What becomes of a tap. A tap that carries a message is sensitive: it
    /// is carried out only where the user confirmed it, and a refusal by the
    /// user ends the task.
    pub open spec fn tap_outcome(
        self,
        params: Seq<(Seq<char>, ParamValueView)>,
        width: u32,
        height: u32,
        confirmed: bool,
    ) -> ExecutionView {
        match locate(params, "element"@) {
            Located::Missing => refused("No element coordinates"@),
            Located::Invalid => refused("Invalid element coordinates"@),
            Located::At(x, y) => if text_param(params, "message"@) is Some && !confirmed {
                ExecutionView { result: declined_view(), command: None }
            } else {
                match self.checked(x, y, "element"@, width, height) {
                    Ok(p) => accepted(DeviceCommandView::Tap { x: p.0, y: p.1 }),
                    Err(refusal) => refusal,
                }
            },
        }
    }

    /// What becomes of a double tap.
    pub open spec fn double_tap_outcome(
        self,
        params: Seq<(Seq<char>, ParamValueView)>,
        width: u32,
        height: u32,
    ) -> ExecutionView {
        match self.point(
            params,
            "element"@,
            "No element coordinates"@,
            "Invalid element coordinates"@,
            width,
            height,
        ) {
            Ok(p) => accepted(DeviceCommandView::DoubleTap { x: p.0, y: p.1 }),
            Err(refusal) => refusal,
        }
    }

    /// What becomes of a long press.
    pub open spec fn long_press_outcome(
        self,
        params: Seq<(Seq<char>, ParamValueView)>,
        width: u32,
        height: u32,
    ) -> ExecutionView {
        match self.point(
            params,
            "element"@,
            "No element coordinates"@,
            "Invalid element coordinates"@,
            width,
            height,
        ) {
            Ok(p) => accepted(DeviceCommandView::LongPress { x: p.0, y: p.1 }),
            Err(refusal) => refusal,
        }
    }

    /// What becomes of a swipe: both lists are read before either pair is
    /// checked against the screen.
    pub open spec fn swipe_outcome(
        self,
        params: Seq<(Seq<char>, ParamValueView)>,
        width: u32,
        height: u32,
    ) -> ExecutionView {
        match locate(params, "start"@) {
            Located::Missing => refused("Missing start coordinates"@),
            Located::Invalid => refused("Invalid start coordinates"@),
            Located::At(sx, sy) => match locate(params, "end"@) {
                Located::Missing => refused("Missing end coordinates"@),
                Located::Invalid => refused("Invalid end coordinates"@),
                Located::At(ex, ey) => match self.checked(sx, sy, "start"@, width, height) {
                    Err(refusal) => refusal,
                    Ok(from) => match self.checked(ex, ey, "end"@, width, height) {
                        Err(refusal) => refusal,
                        Ok(to) => accepted(
                            DeviceCommandView::Swipe {
                                start_x: from.0,
                                start_y: from.1,
                                end_x: to.0,
                                end_y: to.1,
                            },
                        ),
                    },
                },
            },
        }
    }

    /// The text under `key`, or `default` where there is none.
    pub open spec fn text_or(
        params: Seq<(Seq<char>, ParamValueView)>,
        key: Seq<char>,
        default: Seq<char>,
    ) -> Seq<char> {
        match text_param(params, key) {
            Some(t) => t,
            None => default,
        }
    }

    /// What becomes of the action called `name`.
    pub open spec fn do_outcome(
        self,
        name: Seq<char>,
        params: Seq<(Seq<char>, ParamValueView)>,
        width: u32,
        height: u32,
        confirmed: bool,
    ) -> ExecutionView {
        if name == "Launch"@ {
            Self::launch_outcome(params)
        } else if name == "Tap"@ {
            self.tap_outcome(params, width, height, confirmed)
        } else if name == "Type"@ || name == "Type_Name"@ {
            accepted(DeviceCommandView::Type { text: Self::text_or(params, "text"@, ""@) })
        } else if name == "Swipe"@ {
            self.swipe_outcome(params, width, height)
        } else if name == "Back"@ {
            accepted(DeviceCommandView::Back)
        } else if name == "Home"@ {
            accepted(DeviceCommandView::Home)
        } else if name == "Double Tap"@ {
            self.double_tap_outcome(params, width, height)
        } else if name == "Long Press"@ {
            self.long_press_outcome(params, width, height)
        } else if name == "Wait"@ {
            accepted(
                DeviceCommandView::Wait {
                    duration: Self::text_or(params, "duration"@, "1 seconds"@),
                },
            )
        } else if name == "Take_over"@ {
            accepted(
                DeviceCommandView::TakeOver {
                    message: Self::text_or(params, "message"@, "User intervention required"@),
                },
            )
        } else if name == "Note"@ || name == "Call_API"@ {
            noted()
        } else if name == "Interact"@ {
            ExecutionView {
                result: ActionResultView {
                    success: true,
                    should_finish: false,
                    message: Some("User interaction required"@),
                    requires_confirmation: false,
                },
                command: None,
            }
        } else {
            refused("Unknown action: "@ + name)
        }
    }

    /// What becomes of `action` on a screen of `width` by `height` pixels,
    /// where `confirmed` is the user's answer to the confirmation of a
    /// sensitive action.
    pub open spec fn outcome(self, action: ActionView, width: u32, height: u32, confirmed: bool)
        -> ExecutionView {
        match action {
            ActionView::Finish { message } => ExecutionView {
                result: finish_view(message),
                command: None,
            },
            ActionView::Do { name, params } => self.do_outcome(
                name,
                params,
                width,
                height,
                confirmed,
            ),
        }
    }

    /// A handler under the absolute policy with the standard scale.
    pub fn new(device_id: Option<String>) -> (r: Self)
        ensures
            r.device() == option_view(device_id),
            r.policy() == CoordinateSystem::Absolute,
            r.scales() == (Scale::standard_spec(), Scale::standard_spec()),
    {
        Self::with_scale(device_id, Scale::standard(), Scale::standard())
    }

    /// A handler under the absolute policy with the given scales.
    pub fn with_scale(device_id: Option<String>, scale_x: Scale, scale_y: Scale) -> (r: Self)
        ensures
            r.device() == option_view(device_id),
            r.policy() == CoordinateSystem::Absolute,
            r.scales() == (scale_x, scale_y),
    {
        ActionHandler { device_id, scale_x, scale_y, coordinate_system: CoordinateSystem::Absolute }
    }

    /// A handler with the given scales and policy.
    pub fn with_options(
        device_id: Option<String>,
        scale_x: Scale,
        scale_y: Scale,
        coordinate_system: CoordinateSystem,
    ) -> (r: Self)
        ensures
            r.device() == option_view(device_id),
            r.policy() == coordinate_system,
            r.scales() == (scale_x, scale_y),
    {
        ActionHandler { device_id, scale_x, scale_y, coordinate_system }
    }

    /// Sets the scale factors.
    pub fn set_scale(&mut self, scale_x: Scale, scale_y: Scale)
        ensures
            final(self).scales() == (scale_x, scale_y),
            final(self).device() == old(self).device(),
            final(self).policy() == old(self).policy(),
    {
        self.scale_x = scale_x;
        self.scale_y = scale_y;
    }

    /// The scale factors.
    pub fn get_scale(&self) -> (r: (Scale, Scale))
        ensures
            r == self.scales(),
    {
        (self.scale_x, self.scale_y)
    }

    /// The coordinate policy.
    pub fn coordinate_system(&self) -> (r: CoordinateSystem)
        ensures
            r == self.policy(),
    {
        self.coordinate_system
    }

    /// The device that commands are meant for.
    pub fn device_id(&self) -> (r: &Option<String>)
        ensures
            option_view(*r) == self.device(),
    {
        &self.device_id
    }

    /// Applies the scale factors to the first two numbers of `element` and
    /// checks that the result lies on the screen.
    pub fn validate_absolute_coordinates(
        &self,
        element: &[i64],
        screen_width: u32,
        screen_height: u32,
    ) -> (r: Result<(u32, u32), String>)
        requires
            element@.len() >= 2,
        ensures
            outcome_view(r) == absolute_outcome(
                self.scales().0,
                self.scales().1,
                element@[0],
                element@[1],
                screen_width,
                screen_height,
            ),
            r matches Ok(p) ==> p.0 < screen_width && p.1 < screen_height,
    {
        validate_absolute(
            &self.scale_x,
            &self.scale_y,
            element[0],
            element[1],
            screen_width,
            screen_height,
        )
    }

    /// Checks the first two numbers of `element` against the range of
    /// relative coordinates and maps them onto the screen.
    pub fn validate_relative_coordinates(
        &self,
        element: &[i64],
        screen_width: u32,
        screen_height: u32,
    ) -> (r: Result<(u32, u32), String>)
        requires
            element@.len() >= 2,
        ensures
            outcome_view(r) == relative_outcome(
                element@[0],
                element@[1],
                screen_width,
                screen_height,
            ),
    {
        validate_relative(element[0], element[1], screen_width, screen_height)
    }

    /// Turns the pair `(x, y)` given under `name` into pixels under the
    /// handler's policy.
    pub fn validate_coordinates(
        &self,
        x: i64,
        y: i64,
        name: &str,
        screen_width: u32,
        screen_height: u32,
    ) -> (r: Result<(u32, u32), Execution>)
        ensures
            match r {
                Ok(p) => self.checked(x, y, name@, screen_width, screen_height) == Ok::<
                    (u32, u32),
                    ExecutionView,
                >(p),
                Err(e) => self.checked(x, y, name@, screen_width, screen_height) == Err::<
                    (u32, u32),
                    ExecutionView,
                >(e@),
            },
    {
        let checked = match self.coordinate_system {
            CoordinateSystem::Relative => validate_relative(x, y, screen_width, screen_height),
            CoordinateSystem::Absolute => validate_absolute(
                &self.scale_x,
                &self.scale_y,
                x,
                y,
                screen_width,
                screen_height,
            ),
        };
        match checked {
            Ok(p) => Ok(p),
            Err(reason) => {
                let mut text = to_chars("Coordinate error for ");
                push_str(&mut text, name);
                push_str(&mut text, ": ");
                push_str(&mut text, reason.as_str());
                Err(refuse(from_chars(&text).as_str()))
            },
        }
    }
}

impl ActionHandler {
    /// The message that the user must confirm before `action` is carried
    /// out, if it is a sensitive one.
    pub fn pending_confirmation<'a>(&self, action: &'a Action) -> (r: Option<&'a String>)
        ensures
            match r {
                Some(m) => confirmation_message(action@) == Some(m@),
                None => confirmation_message(action@) is None,
            },
    {
        match action {
            Action::Do { name, params } => {
                if str_eq(name.as_str(), "Tap") {
                    match find_point(params, "element") {
                        Located::At(_, _) => get_text(params, "message"),
                        _ => None,
                    }
                } else {
                    None
                }
            },
            Action::Finish { .. } => None,
        }
    }

    /// Checks `action` against a screen of `screen_width` by `screen_height`
    /// pixels and says what is to be done and what the verdict is.
    ///
    /// `confirmed` is the user's answer where [`Self::pending_confirmation`]
    /// gave a message to confirm; it is not looked at otherwise.
    pub fn execute(
        &self,
        action: &Action,
        screen_width: u32,
        screen_height: u32,
        confirmed: bool,
    ) -> (r: Execution)
        ensures
            r@ == self.outcome(action@, screen_width, screen_height, confirmed),
    {
        match action {
            Action::Finish { message } => Execution {
                result: ActionResult::finish(message.clone()),
                command: None,
            },
            Action::Do { name, params } => self.handle_action(
                name.as_str(),
                params,
                screen_width,
                screen_height,
                confirmed,
            ),
        }
    }

    /// Checks the action called `action_name`.
    fn handle_action(
        &self,
        action_name: &str,
        params: &Vec<Param>,
        screen_width: u32,
        screen_height: u32,
        confirmed: bool,
    ) -> (r: Execution)
        ensures
            r@ == self.do_outcome(
                action_name@,
                params_view(params@),
                screen_width,
                screen_height,
                confirmed,
            ),
    {
        if str_eq(action_name, "Launch") {
            Self::handle_launch(params)
        } else if str_eq(action_name, "Tap") {
            self.handle_tap(params, screen_width, screen_height, confirmed)
        } else if str_eq(action_name, "Type") || str_eq(action_name, "Type_Name") {
            accept(DeviceCommand::Type { text: text_or_default(params, "text", "") })
        } else if str_eq(action_name, "Swipe") {
            self.handle_swipe(params, screen_width, screen_height)
        } else if str_eq(action_name, "Back") {
            accept(DeviceCommand::Back)
        } else if str_eq(action_name, "Home") {
            accept(DeviceCommand::Home)
        } else if str_eq(action_name, "Double Tap") {
            self.handle_double_tap(params, screen_width, screen_height)
        } else if str_eq(action_name, "Long Press") {
            self.handle_long_press(params, screen_width, screen_height)
        } else if str_eq(action_name, "Wait") {
            accept(DeviceCommand::Wait { duration: text_or_default(params, "duration", "1 seconds") })
        } else if str_eq(action_name, "Take_over") {
            accept(
                DeviceCommand::TakeOver {
                    message: text_or_default(params, "message", "User intervention required"),
                },
            )
        } else if str_eq(action_name, "Note") || str_eq(action_name, "Call_API") {
            Execution { result: ActionResult::success(), command: None }
        } else if str_eq(action_name, "Interact") {
            Execution {
                result: ActionResult {
                    success: true,
                    should_finish: false,
                    message: Some(String::from_str("User interaction required")),
                    requires_confirmation: false,
                },
                command: None,
            }
        } else {
            let mut text = to_chars("Unknown action: ");
            push_str(&mut text, action_name);
            refuse(from_chars(&text).as_str())
        }
    }

    /// Checks a launch.
    fn handle_launch(params: &Vec<Param>) -> (r: Execution)
        ensures
            r@ == Self::launch_outcome(params_view(params@)),
    {
        match get_text(params, "app") {
            None => refuse("No app name specified"),
            Some(app) => match get_package(app.as_str()) {
                Some(package) => accept(DeviceCommand::Launch { package: String::from_str(package) }),
                None => {
                    let mut text = to_chars("App not found: ");
                    push_str(&mut text, app.as_str());
                    refuse(from_chars(&text).as_str())
                },
            },
        }
    }

    /// Checks a tap.
    fn handle_tap(
        &self,
        params: &Vec<Param>,
        screen_width: u32,
        screen_height: u32,
        confirmed: bool,
    ) -> (r: Execution)
        ensures
            r@ == self.tap_outcome(params_view(params@), screen_width, screen_height, confirmed),
    {
        match find_point(params, "element") {
            Located::Missing => refuse("No element coordinates"),
            Located::Invalid => refuse("Invalid element coordinates"),
            Located::At(x, y) => {
                if get_text(params, "message").is_some() && !confirmed {
                    return Execution { result: ActionResult::declined(), command: None };
                }
                match self.validate_coordinates(x, y, "element", screen_width, screen_height) {
                    Ok(p) => accept(DeviceCommand::Tap { x: p.0, y: p.1 }),
                    Err(refusal) => refusal,
                }
            },
        }
    }

    /// The pixels that the list under `key` points to, or the refusal.
    fn handle_point(
        &self,
        params: &Vec<Param>,
        key: &str,
        missing: &str,
        invalid: &str,
        screen_width: u32,
        screen_height: u32,
    ) -> (r: Result<(u32, u32), Execution>)
        ensures
            match r {
                Ok(p) => self.point(
                    params_view(params@),
                    key@,
                    missing@,
                    invalid@,
                    screen_width,
                    screen_height,
                ) == Ok::<(u32, u32), ExecutionView>(p),
                Err(e) => self.point(
                    params_view(params@),
                    key@,
                    missing@,
                    invalid@,
                    screen_width,
                    screen_height,
                ) == Err::<(u32, u32), ExecutionView>(e@),
            },
    {
        match find_point(params, key) {
            Located::Missing => Err(refuse(missing)),
            Located::Invalid => Err(refuse(invalid)),
            Located::At(x, y) => self.validate_coordinates(x, y, key, screen_width, screen_height),
        }
    }

    /// Checks a double tap.
    fn handle_double_tap(&self, params: &Vec<Param>, screen_width: u32, screen_height: u32) -> (r:
        Execution)
        ensures
            r@ == self.double_tap_outcome(params_view(params@), screen_width, screen_height),
    {
        match self.handle_point(
            params,
            "element",
            "No element coordinates",
            "Invalid element coordinates",
            screen_width,
            screen_height,
        ) {
            Ok(p) => accept(DeviceCommand::DoubleTap { x: p.0, y: p.1 }),
            Err(refusal) => refusal,
        }
    }

    /// Checks a long press.
    fn handle_long_press(&self, params: &Vec<Param>, screen_width: u32, screen_height: u32) -> (r:
        Execution)
        ensures
            r@ == self.long_press_outcome(params_view(params@), screen_width, screen_height),
    {
        match self.handle_point(
            params,
            "element",
            "No element coordinates",
            "Invalid element coordinates",
            screen_width,
            screen_height,
        ) {
            Ok(p) => accept(DeviceCommand::LongPress { x: p.0, y: p.1 }),
            Err(refusal) => refusal,
        }
    }

    /// Checks a swipe.
    fn handle_swipe(&self, params: &Vec<Param>, screen_width: u32, screen_height: u32) -> (r:
        Execution)
        ensures
            r@ == self.swipe_outcome(params_view(params@), screen_width, screen_height),
    {
        let (sx, sy) = match find_point(params, "start") {
            Located::Missing => {
                return refuse("Missing start coordinates");
            },
            Located::Invalid => {
                return refuse("Invalid start coordinates");
            },
            Located::At(x, y) => (x, y),
        };
        let (ex, ey) = match find_point(params, "end") {
            Located::Missing => {
                return refuse("Missing end coordinates");
            },
            Located::Invalid => {
                return refuse("Invalid end coordinates");
            },
            Located::At(x, y) => (x, y),
        };
        let from = match self.validate_coordinates(sx, sy, "start", screen_width, screen_height) {
            Ok(p) => p,
            Err(refusal) => {
                return refusal;
            },
        };
        let to = match self.validate_coordinates(ex, ey, "end", screen_width, screen_height) {
            Ok(p) => p,
            Err(refusal) => {
                return refusal;
            },
        };
        accept(
            DeviceCommand::Swipe { start_x: from.0, start_y: from.1, end_x: to.0, end_y: to.1 },
        )
    }
}

/// The text under `key`, or `default` where there is none.
fn text_or_default(params: &Vec<Param>, key: &str, default: &str) -> (r: String)
    ensures
        r@ == ActionHandler::text_or(params_view(params@), key@, default@),
{
    match get_text(params, key) {
        Some(t) => t.clone(),
        None => String::from_str(default),
    }
}

/// A refusal with its reason.
fn refuse(message: &str) -> (r: Execution)
    ensures
        r@ == refused(message@),
{
    Execution { result: ActionResult::failure(message), command: None }
}

/// An accepted action with its command.
fn accept(command: DeviceCommand) -> (r: Execution)
    ensures
        r@ == accepted(command@),
{
    Execution { result: ActionResult::success(), command: Some(command) }
}

} // verus!
