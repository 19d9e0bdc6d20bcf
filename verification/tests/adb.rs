use phone_agent::actions::coordinates::Scale;
use phone_agent::actions::handler::{ActionHandler, ActionResult};
use phone_agent::actions::parser::parse_action;
use phone_agent::adb::connection::{
    get_adb_prefix, ADBConnection, AdbError, ConnectionType, DeviceInfo,
};
use phone_agent::adb::device::{
    app_of_line, key_args, launch_args, needs_keyboard_restore, needs_keyboard_switch,
    swipe_args, swipe_duration, tap_args, type_text_args,
};
use phone_agent::adb::screenshot::{Screenshot, ScreenshotError};

#[test]
fn test_adb_connection_new() {
    let conn = ADBConnection::new();
    assert_eq!(conn.adb_path(), "adb");
}

#[test]
fn test_get_adb_prefix() {
    let prefix = get_adb_prefix(None);
    assert_eq!(prefix, vec!["adb"]);

    let prefix_with_device = get_adb_prefix(Some("device123"));
    assert_eq!(prefix_with_device, vec!["adb", "-s", "device123"]);
}

#[test]
fn test_base64_encoding() {
    let text = "Hello, 世界!";
    let args = type_text_args(text).unwrap();
    let encoded = args.last().unwrap();
    assert!(!encoded.is_empty());
    assert_eq!(encoded, "SGVsbG8sIOS4lueVjCE=");
    assert_eq!(
        &args[..7],
        ["shell", "am", "broadcast", "-a", "ADB_INPUT_B64", "--es", "msg"]
    );
}

#[test]
fn test_fallback_screenshot() {
    let screenshot = Screenshot::fallback(true);
    assert_eq!(screenshot.width, 1080);
    assert_eq!(screenshot.height, 2400);
    assert!(screenshot.is_sensitive);
    assert!(!screenshot.base64_data.is_empty());
}

#[test]
fn captures_are_told_apart() {
    let refused = Screenshot::from_capture(&vec![1, 2, 3], "Status: -1");
    assert!(refused.is_sensitive);
    let short = Screenshot::from_capture(&vec![1, 2, 3], "");
    assert!(!short.is_sensitive);
    assert_eq!((short.width, short.height), (1080, 2400));
    let no_png = Screenshot::from_capture(&vec![0; 64], "");
    assert_eq!(no_png, short);
    let header_only = Screenshot::from_capture(&vec![0x89, 0x50, 0x4e, 0x47, 0x0d, 0x0a, 0x1a, 0x0a], "");
    assert_eq!(header_only, short);
    // a real picture keeps its size: the fallback itself is one
    let fallback = Screenshot::fallback(false);
    let png = base64_decode(&fallback.base64_data);
    let real = Screenshot::from_capture(&png, "");
    assert_eq!(real, fallback);
    let made = Screenshot::new("abc".to_string(), 3, 4, false);
    assert_eq!(made.base64_data, "abc");
    assert_eq!(
        ScreenshotError::CaptureFailed("x".to_string()).message(),
        "Failed to capture screenshot: x"
    );
    assert_eq!(ScreenshotError::Timeout.message(), "Screenshot timeout");
}

fn base64_decode(text: &str) -> Vec<u8> {
    let value = |c: u8| -> u32 {
        match c {
            b'A'..=b'Z' => (c - b'A') as u32,
            b'a'..=b'z' => (c - b'a') as u32 + 26,
            b'0'..=b'9' => (c - b'0') as u32 + 52,
            b'+' => 62,
            b'/' => 63,
            _ => 0,
        }
    };
    let mut out = Vec::new();
    for chunk in text.as_bytes().chunks(4) {
        let pad = chunk.iter().filter(|&&c| c == b'=').count();
        let mut n: u32 = 0;
        for &c in chunk {
            n = (n << 6) | value(c);
        }
        let bytes = [(n >> 16) as u8, (n >> 8) as u8, n as u8];
        out.extend_from_slice(&bytes[..3 - pad]);
    }
    out
}

#[test]
fn command_lines_and_durations() {
    assert_eq!(tap_args(10, 20), ["shell", "input", "tap", "10", "20"]);
    assert_eq!(
        swipe_args(1, 2, 3, 4, 1500),
        ["shell", "input", "swipe", "1", "2", "3", "4", "1500"]
    );
    assert_eq!(key_args("4"), ["shell", "input", "keyevent", "4"]);
    assert_eq!(
        launch_args("com.tencent.mm"),
        [
            "shell",
            "monkey",
            "-p",
            "com.tencent.mm",
            "-c",
            "android.intent.category.LAUNCHER",
            "1"
        ]
    );
    assert_eq!(swipe_duration(0, 0, 10, 10), 1000);
    assert_eq!(swipe_duration(0, 0, 1000, 1000), 2000);
    assert_eq!(swipe_duration(0, 0, 1000, 700), 1490);
    assert_eq!(swipe_duration(1000, 700, 0, 0), 1490);
    assert_eq!(swipe_duration(0, 0, u32::MAX, u32::MAX), 2000);
    assert!(needs_keyboard_switch("com.google.android.inputmethod.latin/.LatinIME"));
    assert!(!needs_keyboard_switch("com.android.adbkeyboard/.AdbIME"));
    assert!(!needs_keyboard_restore(""));
    assert!(!needs_keyboard_restore("com.android.adbkeyboard/.AdbIME"));
    assert!(needs_keyboard_restore("other/.IME"));
    assert_eq!(
        app_of_line("  mCurrentFocus=Window{1 u0 com.tencent.mm/.ui.LauncherUI}"),
        Some("微信")
    );
    assert_eq!(app_of_line("  other=Window{com.tencent.mm}"), None);
    assert_eq!(app_of_line("mFocusedApp=com.unknown.app"), None);
}

#[test]
fn connection_answers() {
    assert_eq!(ADBConnection::with_path("/opt/adb").adb_path(), "/opt/adb");
    assert_eq!(ADBConnection::default().adb_path(), "adb");
    assert_eq!(ADBConnection::connect_address("10.0.0.1"), "10.0.0.1:5555");
    assert_eq!(ADBConnection::connect_address("10.0.0.1:7"), "10.0.0.1:7");
    assert_eq!(
        ADBConnection::interpret_connect("h:1", "Already CONNECTED to h:1\n"),
        Ok("Connected to h:1".to_string())
    );
    assert_eq!(
        ADBConnection::interpret_connect("h:1", "  failed to reach h:1 \n"),
        Err(AdbError::Connection("failed to reach h:1".to_string()))
    );
    assert_eq!(AdbError::Timeout(30).message(), "Connection timeout after 30s");
    assert_eq!(
        AdbError::DeviceNotFound("x".to_string()).message(),
        "Device not found: x"
    );
    assert_eq!(Scale::identity().parts(), (1, 1));
}

#[test]
fn test_launch_app_unknown() {
    let handler = ActionHandler::new(None);
    let action = parse_action("do(action=\"Launch\", app=\"UnknownApp123\")").unwrap();
    let done = handler.execute(&action, 1080, 1920, true);
    assert!(!done.result.success);
    assert_eq!(done.command, None);
    assert_eq!(
        done.result,
        ActionResult::failure("App not found: UnknownApp123")
    );
}

#[test]
fn listed_devices_are_read() {
    let out = "List of devices attached\n\
               emulator-5554          device product:sdk model:Pixel_7 device:emu\n\
               \n\
               192.168.1.5:5555\toffline\n\
               usb-1234 unauthorized usb:1-1 model:model:X\n\
               lonely\n";
    assert_eq!(
        ADBConnection::parse_devices(out),
        vec![
            DeviceInfo {
                device_id: "emulator-5554".to_string(),
                status: "device".to_string(),
                connection_type: ConnectionType::Wifi,
                model: Some("Pixel_7".to_string()),
                android_version: None,
            },
            DeviceInfo {
                device_id: "192.168.1.5:5555".to_string(),
                status: "offline".to_string(),
                connection_type: ConnectionType::Remote,
                model: None,
                android_version: None,
            },
            DeviceInfo {
                device_id: "usb-1234".to_string(),
                status: "unauthorized".to_string(),
                connection_type: ConnectionType::Usb,
                model: Some("X".to_string()),
                android_version: None,
            },
        ]
    );
    assert!(ADBConnection::parse_devices("").is_empty());
    assert!(ADBConnection::parse_devices("a b").is_empty());
    assert_eq!(ADBConnection::parse_devices("\na b").len(), 1);
}

#[test]
fn a_reading_decides_what_a_capture_is() {
    let png = vec![0x89, 0x50, 0x4e, 0x47, 0x0d, 0x0a, 0x1a, 0x0a, 1, 2, 3];
    let fallback = Screenshot::fallback(false);

    let picture = Screenshot::from_reading(&png, "", Some((720, 1280)));
    assert_eq!((picture.width, picture.height), (720, 1280));
    assert!(!picture.is_sensitive);
    assert_eq!(picture.base64_data, "iVBORw0KGgoBAgM=");

    // no picture was read: the black picture stands in
    assert_eq!(Screenshot::from_reading(&png, "", None), fallback);
    // the bytes do not start as a PNG does, whatever was read
    assert_eq!(
        Screenshot::from_reading(&vec![1, 2, 3], "", Some((720, 1280))),
        fallback
    );
    let mut off = png.clone();
    off[7] = 0x0b;
    assert_eq!(Screenshot::from_reading(&off, "", Some((720, 1280))), fallback);
    // the words say that the capture failed, whatever was read
    for words in ["Status: -1", "Failed to capture", "an error occurred"] {
        let refused = Screenshot::from_reading(&png, words, Some((720, 1280)));
        assert_eq!(refused, Screenshot::fallback(true));
        assert!(refused.is_sensitive);
    }
    // the words are read in their own case
    assert_eq!(
        Screenshot::from_reading(&png, "failed, Error", Some((1, 2))).width,
        1
    );
}
