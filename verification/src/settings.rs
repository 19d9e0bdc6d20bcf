//! The settings of the application, as they are kept between runs, and how
//! the answers are read that set them.

use crate::actions::coordinates::Scale;
use crate::text::{from_chars, lowercase, str_eq, to_chars, to_lowercase, trim, trim_chars};
use vstd::prelude::*;

verus! {

/// The settings of the application.
#[derive(Debug, Clone, PartialEq, Eq)]
pub struct AppSettings {
    /// The address of the executor's model.
    pub base_url: String,
    /// The key for the executor's model.
    pub api_key: String,
    /// The name of the executor's model.
    pub model_name: String,
    /// The device; empty where there is only one.
    pub device_id: String,
    /// The language: "cn" or "en".
    pub lang: String,
    /// The coordinate policy: "relative" or "absolute".
    pub coordinate_system: String,
    /// The scale of x coordinates.
    pub scale_x: Scale,
    /// The scale of y coordinates.
    pub scale_y: Scale,
    /// How often a failed request is tried again.
    pub max_retries: u32,
    /// How many seconds pass between two tries.
    pub retry_delay: u64,
    /// After how many steps a run gives up.
    pub max_steps: u32,
    /// Whether the scales are calibrated before a run.
    pub enable_calibration: bool,
    /// The mode of calibration: "simple" or "complex".
    pub calibration_mode: String,
    /// How many rounds a complex calibration takes.
    pub calibration_rounds: usize,
    /// The address of the planner's model.
    pub planner_base_url: String,
    /// The key for the planner's model.
    pub planner_api_key: String,
    /// The name of the planner's model.
    pub planner_model_name: String,
    /// How many reports of the executor the planner keeps.
    pub max_executor_feedback_history: usize,
    /// After how many idle steps the executor counts as stuck.
    pub stuck_threshold: u32,
    /// Where the prompt memory is kept.
    pub prompt_memory_path: String,
    /// The time between two passes of the planner, in milliseconds.
    pub planner_interval_ms: u64,
    /// The time between two ticks of the executor, in milliseconds.
    pub executor_interval_ms: u64,
    /// Whether the planner and the executor run as two loops.
    pub dual_loop_mode: bool,
}

impl Default for AppSettings {
    fn default() -> (r: Self)
        ensures
            r.base_url@ == "http://localhost:8000/v1"@,
            r.api_key@ == "EMPTY"@,
            r.model_name@ == "autoglm-phone-9b"@,
            r.device_id@.len() == 0,
            r.lang@ == "cn"@,
            r.coordinate_system@ == "relative"@,
            r.scale_x.numerator() == 1 && r.scale_x.denominator() == 1,
            r.scale_y.numerator() == 1 && r.scale_y.denominator() == 1,
            r.max_retries == 3,
            r.retry_delay == 2,
            r.max_steps == 100,
            !r.enable_calibration,
            r.calibration_mode@ == "simple"@,
            r.calibration_rounds == 5,
            r.planner_base_url@ == "https://api.deepseek.com/v1"@,
            r.planner_api_key@ == "EMPTY"@,
            r.planner_model_name@ == "deepseek-chat"@,
            r.max_executor_feedback_history == 2,
            r.stuck_threshold == 3,
            r.prompt_memory_path@ == "prompt_memory.json"@,
            r.planner_interval_ms == 2000,
            r.executor_interval_ms == 500,
            !r.dual_loop_mode,
    {
        AppSettings {
            base_url: String::from_str("http://localhost:8000/v1"),
            api_key: String::from_str("EMPTY"),
            model_name: String::from_str("autoglm-phone-9b"),
            device_id: String::new(),
            lang: String::from_str("cn"),
            coordinate_system: String::from_str("relative"),
            scale_x: Scale::identity(),
            scale_y: Scale::identity(),
            max_retries: 3,
            retry_delay: 2,
            max_steps: 100,
            enable_calibration: false,
            calibration_mode: String::from_str("simple"),
            calibration_rounds: 5,
            planner_base_url: String::from_str("https://api.deepseek.com/v1"),
            planner_api_key: String::from_str("EMPTY"),
            planner_model_name: String::from_str("deepseek-chat"),
            max_executor_feedback_history: 2,
            stuck_threshold: 3,
            prompt_memory_path: String::from_str("prompt_memory.json"),
            planner_interval_ms: 2000,
            executor_interval_ms: 500,
            dual_loop_mode: false,
        }
    }
}

/// `text`, or `default` where it is empty.
pub open spec fn text_or(text: Seq<char>, default: Seq<char>) -> Seq<char> {
    if text.len() == 0 {
        default
    } else {
        text
    }
}

/// `n`, or `default` where it is zero.
pub open spec fn number_or(n: u64, default: u64) -> u64 {
    if n == 0 {
        default
    } else {
        n
    }
}

impl AppSettings {
    /// The settings with what an older file left out filled in: the
    /// planner's address, key and model, the path of the prompt memory and
    /// the two intervals get their standard values where they are empty or
    /// zero. Nothing else changes.
    pub fn backfilled(self) -> (r: Self)
        ensures
            r.planner_base_url@ == text_or(
                self.planner_base_url@,
                "https://api.deepseek.com/v1"@,
            ),
            r.planner_api_key@ == text_or(self.planner_api_key@, "EMPTY"@),
            r.planner_model_name@ == text_or(self.planner_model_name@, "deepseek-chat"@),
            r.prompt_memory_path@ == text_or(self.prompt_memory_path@, "prompt_memory.json"@),
            r.planner_interval_ms == number_or(self.planner_interval_ms, 2000),
            r.executor_interval_ms == number_or(self.executor_interval_ms, 500),
            r.base_url == self.base_url,
            r.api_key == self.api_key,
            r.model_name == self.model_name,
            r.device_id == self.device_id,
            r.lang == self.lang,
            r.coordinate_system == self.coordinate_system,
            r.scale_x == self.scale_x,
            r.scale_y == self.scale_y,
            r.max_retries == self.max_retries,
            r.retry_delay == self.retry_delay,
            r.max_steps == self.max_steps,
            r.enable_calibration == self.enable_calibration,
            r.calibration_mode == self.calibration_mode,
            r.calibration_rounds == self.calibration_rounds,
            r.max_executor_feedback_history == self.max_executor_feedback_history,
            r.stuck_threshold == self.stuck_threshold,
            r.dual_loop_mode == self.dual_loop_mode,
    {
        let mut r = self;
        if r.planner_base_url.as_str().is_empty() {
            r.planner_base_url = String::from_str("https://api.deepseek.com/v1");
        }
        if r.planner_api_key.as_str().is_empty() {
            r.planner_api_key = String::from_str("EMPTY");
        }
        if r.planner_model_name.as_str().is_empty() {
            r.planner_model_name = String::from_str("deepseek-chat");
        }
        if r.prompt_memory_path.as_str().is_empty() {
            r.prompt_memory_path = String::from_str("prompt_memory.json");
        }
        if r.planner_interval_ms == 0 {
            r.planner_interval_ms = 2000;
        }
        if r.executor_interval_ms == 0 {
            r.executor_interval_ms = 500;
        }
        r
    }
}

/// Whether a text of the environment switches a setting on: it is `1`, or
/// `true` in whatever case.
pub open spec fn switched_on(value: Seq<char>) -> bool {
    value == "1"@ || lowercase(value) == "true"@
}

/// Reads a switch from a text of the environment.
pub fn env_flag(value: &str) -> (r: bool)
    ensures
        r == switched_on(value@),
{
    str_eq(value, "1") || str_eq(to_lowercase(value).as_str(), "true")
}

/// Whether an answer says yes: in whatever case it is `y`, `yes`, `true`
/// or `1`.
pub open spec fn says_yes(answer: Seq<char>) -> bool {
    lowercase(answer) == "y"@ || lowercase(answer) == "yes"@ || lowercase(answer) == "true"@
        || lowercase(answer) == "1"@
}

/// Reads a yes or a no from an answer.
pub fn is_yes(answer: &str) -> (r: bool)
    ensures
        r == says_yes(answer@),
{
    let lower = to_lowercase(answer);
    str_eq(lower.as_str(), "y") || str_eq(lower.as_str(), "yes") || str_eq(lower.as_str(), "true")
        || str_eq(lower.as_str(), "1")
}

/// What an answer gives: the answer without the white space around it, or
/// `default` where nothing else is left.
pub open spec fn answered(input: Seq<char>, default: Seq<char>) -> Seq<char> {
    text_or(trim(input), default)
}

/// Reads an answer that may be left empty.
pub fn answer_or(input: &str, default: &str) -> (r: String)
    ensures
        r@ == answered(input@, default@),
{
    let chars = trim_chars(&to_chars(input));
    if chars.len() == 0 {
        String::from_str(default)
    } else {
        from_chars(&chars)
    }
}

/// The language that an answer chooses: `en` for `en` in whatever case,
/// `cn` for anything else.
pub open spec fn language_of(answer: Seq<char>) -> Seq<char> {
    if lowercase(answer) == "en"@ {
        "en"@
    } else {
        "cn"@
    }
}

/// Reads a language from an answer.
pub fn chosen_language(answer: &str) -> (r: &'static str)
    ensures
        r@ == language_of(answer@),
{
    if str_eq(to_lowercase(answer).as_str(), "en") {
        "en"
    } else {
        "cn"
    }
}

/// The coordinate policy that an answer chooses: `absolute` for `absolute`
/// or `abs` in whatever case, `relative` for anything else.
pub open spec fn policy_of(answer: Seq<char>) -> Seq<char> {
    if lowercase(answer) == "absolute"@ || lowercase(answer) == "abs"@ {
        "absolute"@
    } else {
        "relative"@
    }
}

/// Reads a coordinate policy from an answer.
pub fn chosen_coordinate_system(answer: &str) -> (r: &'static str)
    ensures
        r@ == policy_of(answer@),
{
    let lower = to_lowercase(answer);
    if str_eq(lower.as_str(), "absolute") || str_eq(lower.as_str(), "abs") {
        "absolute"
    } else {
        "relative"
    }
}

/// The mode of calibration that an answer chooses: `complex` for `complex`
/// in whatever case, `simple` for anything else.
pub open spec fn calibration_mode_of(answer: Seq<char>) -> Seq<char> {
    if lowercase(answer) == "complex"@ {
        "complex"@
    } else {
        "simple"@
    }
}

/// Reads a mode of calibration from an answer.
pub fn chosen_calibration_mode(answer: &str) -> (r: &'static str)
    ensures
        r@ == calibration_mode_of(answer@),
{
    if str_eq(to_lowercase(answer).as_str(), "complex") {
        "complex"
    } else {
        "simple"
    }
}

} // verus!
