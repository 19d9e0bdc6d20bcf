//! The commands that are run on the device, as argument lists for the
//! debug bridge, and what the device's answers mean.

use crate::adb::encoding::{base64_encode, base64_limit, base64_standard, fits_base64};
use crate::config::apps::APP_PACKAGES;
use crate::json::texts_view;
use crate::number::decimal;
use crate::text::{contains, contains_str, from_chars, to_chars};
use vstd::prelude::*;
use vstd::string::StringSliceAdditionalSpecFns;

verus! {

/// The name of the keyboard that takes text from the bridge.
pub const ADB_KEYBOARD: &'static str = "com.android.adbkeyboard/.AdbIME";

/// `n` in decimal.
pub fn number_text(n: u64) -> (r: String)
    ensures
        r@ == decimal(n as nat),
{
    let mut out: Vec<char> = Vec::new();
    crate::number::push_decimal(&mut out, n as u128);
    from_chars(&out)
}

/// The square of the distance between `a` and `b`.
pub open spec fn square_gap(a: u32, b: u32) -> int {
    (a - b) * (a - b)
}

/// How long a swipe takes, in milliseconds: a thousandth of the square of
/// its length in pixels, but no less than 1000 and no more than 2000.
pub open spec fn swipe_time(start_x: u32, start_y: u32, end_x: u32, end_y: u32) -> int {
    let d = (square_gap(start_x, end_x) + square_gap(start_y, end_y)) / 1000;
    if d < 1000 {
        1000
    } else if d > 2000 {
        2000
    } else {
        d
    }
}

/// How long a swipe takes, in milliseconds.
pub fn swipe_duration(start_x: u32, start_y: u32, end_x: u32, end_y: u32) -> (r: u64)
    ensures
        r == swipe_time(start_x, start_y, end_x, end_y),
{
    let dx: u64 = if start_x >= end_x {
        (start_x - end_x) as u64
    } else {
        (end_x - start_x) as u64
    };
    let dy: u64 = if start_y >= end_y {
        (start_y - end_y) as u64
    } else {
        (end_y - start_y) as u64
    };
    assert(dx * dx == square_gap(start_x, end_x)) by (nonlinear_arith)
        requires
            dx == start_x - end_x || dx == end_x - start_x,
    ;
    assert(dy * dy == square_gap(start_y, end_y)) by (nonlinear_arith)
        requires
            dy == start_y - end_y || dy == end_y - start_y,
    ;
    assert(dx * dx <= 0xffff_ffff * 0xffff_ffff) by (nonlinear_arith)
        requires
            0 <= dx <= 0xffff_ffff,
    ;
    assert(dy * dy <= 0xffff_ffff * 0xffff_ffff) by (nonlinear_arith)
        requires
            0 <= dy <= 0xffff_ffff,
    ;
    let total: u128 = (dx as u128) * (dx as u128) + (dy as u128) * (dy as u128);
    let d = total / 1000;
    if d < 1000 {
        1000
    } else if d > 2000 {
        2000
    } else {
        d as u64
    }
}

/// The arguments of a tap at a point.
pub open spec fn tap_line(x: u32, y: u32) -> Seq<Seq<char>> {
    seq!["shell"@, "input"@, "tap"@, decimal(x as nat), decimal(y as nat)]
}

/// The arguments of a swipe that takes `duration` milliseconds.
pub open spec fn swipe_line(
    start_x: u32,
    start_y: u32,
    end_x: u32,
    end_y: u32,
    duration: u64,
) -> Seq<Seq<char>> {
    seq![
        "shell"@,
        "input"@,
        "swipe"@,
        decimal(start_x as nat),
        decimal(start_y as nat),
        decimal(end_x as nat),
        decimal(end_y as nat),
        decimal(duration as nat),
    ]
}

/// The arguments that press the named key.
pub open spec fn key_line(key: Seq<char>) -> Seq<Seq<char>> {
    seq!["shell"@, "input"@, "keyevent"@, key]
}

/// The arguments that launch the application of the package `package`.
pub open spec fn launch_line(package: Seq<char>) -> Seq<Seq<char>> {
    seq![
        "shell"@,
        "monkey"@,
        "-p"@,
        package,
        "-c"@,
        "android.intent.category.LAUNCHER"@,
        "1"@,
    ]
}

/// The arguments that hand the text with the bytes `bytes` to the
/// keyboard, in base64.
pub open spec fn type_line(bytes: Seq<u8>) -> Seq<Seq<char>> {
    seq![
        "shell"@,
        "am"@,
        "broadcast"@,
        "-a"@,
        "ADB_INPUT_B64"@,
        "--es"@,
        "msg"@,
        base64_standard(bytes),
    ]
}

/// The arguments of a tap at a point.
pub fn tap_args(x: u32, y: u32) -> (r: Vec<String>)
    ensures
        texts_view(r@) == tap_line(x, y),
{
    let mut args: Vec<String> = Vec::new();
    args.push(String::from_str("shell"));
    args.push(String::from_str("input"));
    args.push(String::from_str("tap"));
    args.push(number_text(x as u64));
    args.push(number_text(y as u64));
    assert(texts_view(args@) =~= tap_line(x, y));
    args
}

/// The arguments of a swipe that takes `duration` milliseconds. A long
/// press is a swipe that stays where it starts.
pub fn swipe_args(start_x: u32, start_y: u32, end_x: u32, end_y: u32, duration: u64) -> (r: Vec<
    String,
>)
    ensures
        texts_view(r@) == swipe_line(start_x, start_y, end_x, end_y, duration),
{
    let mut args: Vec<String> = Vec::new();
    args.push(String::from_str("shell"));
    args.push(String::from_str("input"));
    args.push(String::from_str("swipe"));
    args.push(number_text(start_x as u64));
    args.push(number_text(start_y as u64));
    args.push(number_text(end_x as u64));
    args.push(number_text(end_y as u64));
    args.push(number_text(duration));
    assert(texts_view(args@) =~= swipe_line(start_x, start_y, end_x, end_y, duration));
    args
}

/// The arguments that press the named key: `4` goes back, `KEYCODE_HOME`
/// goes home.
pub fn key_args(key: &str) -> (r: Vec<String>)
    ensures
        texts_view(r@) == key_line(key@),
{
    let mut args: Vec<String> = Vec::new();
    args.push(String::from_str("shell"));
    args.push(String::from_str("input"));
    args.push(String::from_str("keyevent"));
    args.push(String::from_str(key));
    assert(texts_view(args@) =~= key_line(key@));
    args
}

/// The arguments that launch the application of the package `package`.
pub fn launch_args(package: &str) -> (r: Vec<String>)
    ensures
        texts_view(r@) == launch_line(package@),
{
    let mut args: Vec<String> = Vec::new();
    args.push(String::from_str("shell"));
    args.push(String::from_str("monkey"));
    args.push(String::from_str("-p"));
    args.push(String::from_str(package));
    args.push(String::from_str("-c"));
    args.push(String::from_str("android.intent.category.LAUNCHER"));
    args.push(String::from_str("1"));
    assert(texts_view(args@) =~= launch_line(package@));
    args
}

/// The arguments that hand `text` to the keyboard, in base64; none where
/// the text is too long to be encoded.
pub fn type_text_args(text: &str) -> (r: Option<Vec<String>>)
    ensures
        match r {
            Some(args) => text.spec_bytes().len() <= base64_limit() && texts_view(args@)
                == type_line(text.spec_bytes()),
            None => text.spec_bytes().len() > base64_limit(),
        },
{
    let bytes = text.as_bytes();
    if !fits_base64(bytes.len()) {
        return None;
    }
    let mut args: Vec<String> = Vec::new();
    args.push(String::from_str("shell"));
    args.push(String::from_str("am"));
    args.push(String::from_str("broadcast"));
    args.push(String::from_str("-a"));
    args.push(String::from_str("ADB_INPUT_B64"));
    args.push(String::from_str("--es"));
    args.push(String::from_str("msg"));
    args.push(base64_encode(bytes));
    assert(texts_view(args@) =~= type_line(text.spec_bytes()));
    Some(args)
}

/// Whether the keyboard must be switched before text is typed: it must
/// unless the keyboard in use is the bridge's own.
pub fn needs_keyboard_switch(current_ime: &str) -> (r: bool)
    ensures
        r == !contains(current_ime@, ADB_KEYBOARD@),
{
    !contains_str(&to_chars(current_ime), ADB_KEYBOARD)
}

/// Whether the keyboard `ime` is to be put back after text was typed: it is
/// unless it is unknown or the bridge's own.
pub fn needs_keyboard_restore(ime: &str) -> (r: bool)
    ensures
        r == !(ime@.len() == 0 || contains(ime@, ADB_KEYBOARD@)),
{
    !(ime.is_empty() || contains_str(&to_chars(ime), ADB_KEYBOARD))
}

/// The index of the first application at or after `from` whose package is
/// named in `line`, or -1.
pub open spec fn app_in_line(line: Seq<char>, from: int) -> int
    decreases APP_PACKAGES@.len() - from,
{
    if from < 0 || from >= APP_PACKAGES@.len() {
        -1
    } else if contains(line, APP_PACKAGES@[from].1@) {
        from
    } else {
        app_in_line(line, from + 1)
    }
}

/// Whether a line of the window manager's report speaks of the window in
/// front.
pub open spec fn speaks_of_focus(line: Seq<char>) -> bool {
    contains(line, "mCurrentFocus"@) || contains(line, "mFocusedApp"@)
}

/// The application that a line of the window manager's report shows in
/// front, by its display name; none where the line does not speak of the
/// window in front or names no known package.
pub fn app_of_line(line: &str) -> (r: Option<&'static str>)
    ensures
        match r {
            Some(name) => speaks_of_focus(line@) && app_in_line(line@, 0) >= 0 && name
                == APP_PACKAGES@[app_in_line(line@, 0)].0,
            None => !speaks_of_focus(line@) || app_in_line(line@, 0) < 0,
        },
{
    let chars = to_chars(line);
    if !(contains_str(&chars, "mCurrentFocus") || contains_str(&chars, "mFocusedApp")) {
        return None;
    }
    let mut i: usize = 0;
    while i < APP_PACKAGES.len()
        invariant
            i <= APP_PACKAGES@.len(),
            chars@ == line@,
            speaks_of_focus(line@),
            app_in_line(line@, 0) == app_in_line(line@, i as int),
        decreases APP_PACKAGES@.len() - i,
    {
        let entry = APP_PACKAGES[i];
        if contains_str(&chars, entry.1) {
            return Some(entry.0);
        }
        i += 1;
    }
    None
}

} // verus!
