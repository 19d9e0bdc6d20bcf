//! The choices that a user interface offers, and the levels of its log.

use crate::actions::coordinates::CoordinateSystem;
use crate::calibration::CalibrationMode;
use crate::text::str_eq;
use vstd::prelude::*;

verus! {

/// The part of the interface that is shown.
#[derive(Debug, Clone, Copy, PartialEq, Eq, Structural)]
pub enum AppView {
    Main,
    Settings,
    Logs,
}

impl Default for AppView {
    fn default() -> (r: Self)
        ensures
            r == AppView::Main,
    {
        AppView::Main
    }
}

/// What the application is doing.
#[derive(Debug, Clone, Copy, PartialEq, Eq, Structural)]
pub enum AppState {
    Idle,
    Running,
    Calibrating,
}

impl Default for AppState {
    fn default() -> (r: Self)
        ensures
            r == AppState::Idle,
    {
        AppState::Idle
    }
}

/// The language of the interface.
#[derive(Debug, Clone, Copy, PartialEq, Eq, Structural)]
pub enum Language {
    Chinese,
    English,
}

impl Language {
    /// The code of the language: `cn` or `en`.
    pub fn as_code(&self) -> (r: &'static str)
        ensures
            r@ == (match self {
                Language::Chinese => "cn"@,
                Language::English => "en"@,
            }),
    {
        match self {
            Language::Chinese => "cn",
            Language::English => "en",
        }
    }

    /// The language of a code: English for `en`, Chinese otherwise.
    pub fn from_code(code: &str) -> (r: Self)
        ensures
            r == (if code@ == "en"@ {
                Language::English
            } else {
                Language::Chinese
            }),
    {
        if str_eq(code, "en") {
            Language::English
        } else {
            Language::Chinese
        }
    }

    /// The name of the language, as it is shown.
    pub fn label(&self) -> (r: &'static str)
        ensures
            r@ == (match self {
                Language::Chinese => "中文"@,
                Language::English => "English"@,
            }),
    {
        match self {
            Language::Chinese => "中文",
            Language::English => "English",
        }
    }
}

/// The coordinate policy, as it is chosen in the interface.
#[derive(Debug, Clone, Copy, PartialEq, Eq, Structural)]
pub enum CoordSystemOption {
    Relative,
    Absolute,
}

impl CoordSystemOption {
    /// The word of the choice in the settings.
    pub fn as_str(&self) -> (r: &'static str)
        ensures
            r@ == (match self {
                CoordSystemOption::Relative => "relative"@,
                CoordSystemOption::Absolute => "absolute"@,
            }),
    {
        match self {
            CoordSystemOption::Relative => "relative",
            CoordSystemOption::Absolute => "absolute",
        }
    }

    /// The choice of a word: absolute for `absolute` and `abs`, relative
    /// otherwise.
    pub fn from_str(s: &str) -> (r: Self)
        ensures
            r == (if s@ == "absolute"@ || s@ == "abs"@ {
                CoordSystemOption::Absolute
            } else {
                CoordSystemOption::Relative
            }),
    {
        if str_eq(s, "absolute") || str_eq(s, "abs") {
            CoordSystemOption::Absolute
        } else {
            CoordSystemOption::Relative
        }
    }

    /// The policy that the choice stands for.
    pub fn as_coordinate_system(self) -> (r: CoordinateSystem)
        ensures
            r == (match self {
                CoordSystemOption::Relative => CoordinateSystem::Relative,
                CoordSystemOption::Absolute => CoordinateSystem::Absolute,
            }),
    {
        match self {
            CoordSystemOption::Relative => CoordinateSystem::Relative,
            CoordSystemOption::Absolute => CoordinateSystem::Absolute,
        }
    }

    /// The name of the choice, as it is shown.
    pub fn label(&self) -> (r: &'static str)
        ensures
            r@ == (match self {
                CoordSystemOption::Relative => "相对坐标 (0-999)"@,
                CoordSystemOption::Absolute => "绝对坐标 (像素)"@,
            }),
    {
        match self {
            CoordSystemOption::Relative => "相对坐标 (0-999)",
            CoordSystemOption::Absolute => "绝对坐标 (像素)",
        }
    }
}

/// The mode of calibration, as it is chosen in the interface.
#[derive(Debug, Clone, Copy, PartialEq, Eq, Structural)]
pub enum CalibModeOption {
    Simple,
    Complex,
}

impl CalibModeOption {
    /// The word of the choice in the settings.
    pub fn as_str(&self) -> (r: &'static str)
        ensures
            r@ == (match self {
                CalibModeOption::Simple => "simple"@,
                CalibModeOption::Complex => "complex"@,
            }),
    {
        match self {
            CalibModeOption::Simple => "simple",
            CalibModeOption::Complex => "complex",
        }
    }

    /// The choice of a word: complex for `complex`, simple otherwise.
    pub fn from_str(s: &str) -> (r: Self)
        ensures
            r == (if s@ == "complex"@ {
                CalibModeOption::Complex
            } else {
                CalibModeOption::Simple
            }),
    {
        if str_eq(s, "complex") {
            CalibModeOption::Complex
        } else {
            CalibModeOption::Simple
        }
    }

    /// The mode that the choice stands for.
    pub fn as_calibration_mode(self) -> (r: CalibrationMode)
        ensures
            r == (match self {
                CalibModeOption::Simple => CalibrationMode::Simple,
                CalibModeOption::Complex => CalibrationMode::Complex,
            }),
    {
        match self {
            CalibModeOption::Simple => CalibrationMode::Simple,
            CalibModeOption::Complex => CalibrationMode::Complex,
        }
    }

    /// The name of the choice, as it is shown.
    pub fn label(&self) -> (r: &'static str)
        ensures
            r@ == (match self {
                CalibModeOption::Simple => "简单模式"@,
                CalibModeOption::Complex => "复杂模式"@,
            }),
    {
        match self {
            CalibModeOption::Simple => "简单模式",
            CalibModeOption::Complex => "复杂模式",
        }
    }
}

/// The level of an entry of the log.
#[derive(Debug, Clone, Copy, PartialEq, Eq, Structural)]
pub enum LogLevel {
    Info,
    Success,
    Warning,
    Error,
    Debug,
    Action,
    Thinking,
}

impl LogLevel {
    /// The word of the level in a log file.
    pub fn as_str(&self) -> (r: &'static str)
        ensures
            r@ == (match self {
                LogLevel::Info => "INFO"@,
                LogLevel::Success => "SUCCESS"@,
                LogLevel::Warning => "WARN"@,
                LogLevel::Error => "ERROR"@,
                LogLevel::Debug => "DEBUG"@,
                LogLevel::Action => "ACTION"@,
                LogLevel::Thinking => "THINK"@,
            }),
    {
        match self {
            LogLevel::Info => "INFO",
            LogLevel::Success => "SUCCESS",
            LogLevel::Warning => "WARN",
            LogLevel::Error => "ERROR",
            LogLevel::Debug => "DEBUG",
            LogLevel::Action => "ACTION",
            LogLevel::Thinking => "THINK",
        }
    }

    /// The sign of the level on the screen.
    pub fn emoji(&self) -> (r: &'static str)
        ensures
            r@ == (match self {
                LogLevel::Info => "ℹ️"@,
                LogLevel::Success => "✅"@,
                LogLevel::Warning => "⚠️"@,
                LogLevel::Error => "❌"@,
                LogLevel::Debug => "🔍"@,
                LogLevel::Action => "🎯"@,
                LogLevel::Thinking => "💭"@,
            }),
    {
        match self {
            LogLevel::Info => "ℹ️",
            LogLevel::Success => "✅",
            LogLevel::Warning => "⚠️",
            LogLevel::Error => "❌",
            LogLevel::Debug => "🔍",
            LogLevel::Action => "🎯",
            LogLevel::Thinking => "💭",
        }
    }
}

} // verus!
