//! How the device is reached: the command line of the debug bridge and what
//! its answers mean.

use crate::actions::parser::option_view;
use crate::number::{decimal, push_decimal};
use crate::text::{
    contains, contains_str, fields, filled, from_chars, has_prefix, lines_view, lowercase,
    push_str, remove_all, split_on, to_chars, to_lowercase, trim, trim_chars,
};
use vstd::prelude::*;

verus! {

/// How a device is connected.
#[derive(Debug, Clone, Copy, PartialEq, Eq, Structural)]
pub enum ConnectionType {
    Usb,
    Wifi,
    Remote,
}

/// What is known of a connected device.
#[derive(Debug, Clone, PartialEq, Eq)]
pub struct DeviceInfo {
    pub device_id: String,
    pub status: String,
    pub connection_type: ConnectionType,
    pub model: Option<String>,
    pub android_version: Option<String>,
}

/// What went wrong with the debug bridge.
#[derive(Debug, Clone, PartialEq, Eq)]
pub enum AdbError {
    Timeout(u64),
    Connection(String),
    CommandFailed(String),
    DeviceNotFound(String),
}

/// The text of an error, as it is shown to a reader.
pub open spec fn adb_error_text(e: AdbError) -> Seq<char> {
    match e {
        AdbError::Timeout(secs) => "Connection timeout after "@ + decimal(secs as nat) + "s"@,
        AdbError::Connection(t) => "Connection error: "@ + t@,
        AdbError::CommandFailed(t) => "Command execution failed: "@ + t@,
        AdbError::DeviceNotFound(t) => "Device not found: "@ + t@,
    }
}

impl AdbError {
    /// The text of the error, as it is shown to a reader.
    pub fn message(&self) -> (r: String)
        ensures
            r@ == adb_error_text(*self),
    {
        let mut out: Vec<char> = Vec::new();
        match self {
            AdbError::Timeout(secs) => {
                push_str(&mut out, "Connection timeout after ");
                push_decimal(&mut out, *secs as u128);
                push_str(&mut out, "s");
            },
            AdbError::Connection(t) => {
                push_str(&mut out, "Connection error: ");
                push_str(&mut out, t.as_str());
            },
            AdbError::CommandFailed(t) => {
                push_str(&mut out, "Command execution failed: ");
                push_str(&mut out, t.as_str());
            },
            AdbError::DeviceNotFound(t) => {
                push_str(&mut out, "Device not found: ");
                push_str(&mut out, t.as_str());
            },
        }
        assert(out@ =~= adb_error_text(*self));
        from_chars(&out)
    }
}

/// The debug bridge, by the path of its program.
#[derive(Debug, Clone, PartialEq, Eq)]
pub struct ADBConnection {
    adb_path: String,
}

/// The address to connect to: `address` itself where it names a port, with
/// the standard port 5555 otherwise.
pub open spec fn full_address(address: Seq<char>) -> Seq<char> {
    if contains(address, ":"@) {
        address
    } else {
        address + ":5555"@
    }
}

/// Whether the bridge's answer says that the device is connected.
pub open spec fn says_connected(answer: Seq<char>) -> bool {
    contains(lowercase(answer), "connected"@)
}

impl ADBConnection {
    /// The path of the bridge's program.
    pub closed spec fn path(self) -> Seq<char> {
        self.adb_path@
    }

    /// The bridge found as `adb`.
    pub fn new() -> (r: Self)
        ensures
            r.path() == "adb"@,
    {
        ADBConnection { adb_path: String::from_str("adb") }
    }

    /// The bridge found at `adb_path`.
    pub fn with_path(adb_path: &str) -> (r: Self)
        ensures
            r.path() == adb_path@,
    {
        ADBConnection { adb_path: String::from_str(adb_path) }
    }

    /// The path of the bridge's program.
    pub fn adb_path(&self) -> (r: &str)
        ensures
            r@ == self.path(),
    {
        self.adb_path.as_str()
    }

    /// The address that a connection to `address` is made to.
    pub fn connect_address(address: &str) -> (r: String)
        ensures
            r@ == full_address(address@),
    {
        let chars = to_chars(address);
        if contains_str(&chars, ":") {
            String::from_str(address)
        } else {
            let mut out = chars;
            push_str(&mut out, ":5555");
            from_chars(&out)
        }
    }

    /// What the bridge's answer to a connection to `address` means: the
    /// device is connected where the answer says so, in whatever case;
    /// otherwise the trimmed answer is the error.
    pub fn interpret_connect(address: &str, answer: &str) -> (r: Result<String, AdbError>)
        ensures
            match r {
                Ok(text) => says_connected(answer@) && text@ == "Connected to "@ + address@,
                Err(e) => !says_connected(answer@) && (e matches AdbError::Connection(t) && t@
                    == trim(answer@)),
            },
    {
        let lower = to_chars(to_lowercase(answer).as_str());
        if contains_str(&lower, "connected") {
            let mut out = to_chars("Connected to ");
            push_str(&mut out, address);
            Ok(from_chars(&out))
        } else {
            Err(AdbError::Connection(from_chars(&trim_chars(&to_chars(answer)))))
        }
    }
}

impl Default for ADBConnection {
    fn default() -> (r: Self)
        ensures
            r.path() == "adb"@,
    {
        ADBConnection::new()
    }
}

/// The start of a command line of the bridge: the program, and the device
/// where one is named.
pub open spec fn adb_prefix(device_id: Option<Seq<char>>) -> Seq<Seq<char>> {
    match device_id {
        Some(id) => seq!["adb"@, "-s"@, id],
        None => seq!["adb"@],
    }
}

/// The start of a command line of the bridge.
pub fn get_adb_prefix(device_id: Option<&str>) -> (r: Vec<String>)
    ensures
        crate::json::texts_view(r@) == adb_prefix(
            match device_id {
                Some(id) => Some(id@),
                None => None,
            },
        ),
{
    let mut prefix: Vec<String> = Vec::new();
    prefix.push(String::from_str("adb"));
    match device_id {
        Some(id) => {
            prefix.push(String::from_str("-s"));
            prefix.push(String::from_str(id));
            assert(crate::json::texts_view(prefix@) =~= seq!["adb"@, "-s"@, id@]);
        },
        None => {
            assert(crate::json::texts_view(prefix@) =~= seq!["adb"@]);
        },
    }
    prefix
}

/// The mathematical value of a [`DeviceInfo`].
pub struct DeviceInfoView {
    pub device_id: Seq<char>,
    pub status: Seq<char>,
    pub connection_type: ConnectionType,
    pub model: Option<Seq<char>>,
    pub android_version: Option<Seq<char>>,
}

impl View for DeviceInfo {
    type V = DeviceInfoView;

    open spec fn view(&self) -> DeviceInfoView {
        DeviceInfoView {
            device_id: self.device_id@,
            status: self.status@,
            connection_type: self.connection_type,
            model: option_view(self.model),
            android_version: option_view(self.android_version),
        }
    }
}

/// How a device with the identifier `id` is connected: remotely where the
/// identifier names a port, over USB where it says so, wireless
/// otherwise.
pub open spec fn connection_of(id: Seq<char>) -> ConnectionType {
    if contains(id, ":"@) {
        ConnectionType::Remote
    } else if contains(id, "usb"@) {
        ConnectionType::Usb
    } else {
        ConnectionType::Wifi
    }
}

/// The model named among `parts`: what the first part that starts with
/// `model:` holds besides that mark.
pub open spec fn model_among(parts: Seq<Seq<char>>) -> Option<Seq<char>>
    decreases parts.len(),
{
    if parts.len() == 0 {
        None
    } else if has_prefix(parts[0], "model:"@) {
        Some(remove_all(parts[0], "model:"@))
    } else {
        model_among(parts.skip(1))
    }
}

/// The device that a line of the bridge's list stands for: the line must
/// have at least two parts, the identifier and the status.
pub open spec fn device_of(line: Seq<char>) -> Option<DeviceInfoView> {
    let parts = fields(line);
    if parts.len() >= 2 {
        Some(
            DeviceInfoView {
                device_id: parts[0],
                status: parts[1],
                connection_type: connection_of(parts[0]),
                model: model_among(parts),
                android_version: None,
            },
        )
    } else {
        None
    }
}

/// The devices that the lines stand for, in order.
pub open spec fn devices_of(lines: Seq<Seq<char>>) -> Seq<DeviceInfoView>
    decreases lines.len(),
{
    if lines.len() == 0 {
        Seq::empty()
    } else {
        match device_of(lines.last()) {
            Some(d) => devices_of(lines.drop_last()).push(d),
            None => devices_of(lines.drop_last()),
        }
    }
}

/// The devices that the bridge lists: its first line is a heading, and
/// each further line that is not empty stands for a device.
pub open spec fn listed_devices(stdout: Seq<char>) -> Seq<DeviceInfoView> {
    devices_of(filled(split_on(stdout, '\n').skip(1)))
}

/// The values of a list of devices.
pub open spec fn devices_view(list: Seq<DeviceInfo>) -> Seq<DeviceInfoView> {
    list.map_values(|d: DeviceInfo| d@)
}

/// The device that a line of the bridge's list stands for.
fn read_device(line: &Vec<char>) -> (r: Option<DeviceInfo>)
    ensures
        match r {
            Some(d) => device_of(line@) == Some(d@),
            None => device_of(line@) is None,
        },
{
    let parts = crate::text::split_fields(line);
    if parts.len() < 2 {
        return None;
    }
    let ghost all = lines_view(parts@);
    let connection_type = if contains_str(&parts[0], ":") {
        ConnectionType::Remote
    } else if contains_str(&parts[0], "usb") {
        ConnectionType::Usb
    } else {
        ConnectionType::Wifi
    };
    let mut model: Option<String> = None;
    let mut i: usize = 0;
    assert(all.skip(0) == all);
    while i < parts.len()
        invariant_except_break
            model is None,
            model_among(all) == model_among(all.skip(i as int)),
        invariant
            i <= parts.len(),
            all == lines_view(parts@),
        ensures
            option_view(model) == model_among(all),
        decreases parts.len() - i,
    {
        let ghost rest = all.skip(i as int);
        assert(rest[0] == parts@[i as int]@);
        assert(rest.skip(1) == all.skip(i + 1));
        if crate::text::starts_with_str(&parts[i], "model:") {
            let part = &parts[i];
            assert(part@.subrange(0, part.len() as int) == part@);
            model = Some(
                from_chars(&crate::text::remove_all_str(part, 0, part.len(), "model:")),
            );
            break ;
        }
        i += 1;
    }
    Some(
        DeviceInfo {
            device_id: from_chars(&parts[0]),
            status: from_chars(&parts[1]),
            connection_type,
            model,
            android_version: None,
        },
    )
}

impl ADBConnection {
    /// The devices that the bridge lists in `stdout`.
    pub fn parse_devices(stdout: &str) -> (r: Vec<DeviceInfo>)
        ensures
            devices_view(r@) == listed_devices(stdout@),
    {
        let text = to_chars(stdout);
        let mut newline: Vec<char> = Vec::new();
        newline.push('\n');
        assert(newline@ =~= seq!['\n']);
        let first = match crate::text::find(&text, &newline) {
            Some(first) => first,
            None => {
                proof {
                    crate::text::lemma_index_from(text@, newline@, 0);
                    assert forall|i: int| 0 <= i < text@.len() implies #[trigger] text@[i]
                        != '\n' by {
                        if text@[i] == '\n' {
                            assert(text@.subrange(i, i + 1) =~= newline@);
                            assert(crate::text::occurs_at(text@, newline@, i));
                        }
                    }
                    crate::text::lemma_split_on_plain(text@, '\n');
                    assert(split_on(text@, '\n').skip(1) =~= Seq::<Seq<char>>::empty());
                }
                return Vec::new();
            },
        };
        proof {
            crate::text::lemma_index_from(text@, newline@, 0);
            assert(crate::text::occurs_at(text@, newline@, first as int));
            assert(newline@.len() == 1);
            assert(first + 1 <= text.len());
        }
        let rest = crate::text::copy_range(&text, first + 1, text.len());
        proof {
            let head = text@.subrange(0, first as int);
            assert forall|i: int| 0 <= i < head.len() implies #[trigger] head[i] != '\n' by {
                if head[i] == '\n' {
                    assert(text@.subrange(i, i + 1) =~= newline@);
                    assert(crate::text::occurs_at(text@, newline@, i));
                }
            }
            assert(text@.subrange(first as int, first + 1) == newline@);
            assert(text@[first as int] == newline@[0]);
            assert(text@ =~= head + seq!['\n'] + rest@);
            crate::text::lemma_split_on_first(head, rest@, '\n');
            assert((seq![head] + split_on(rest@, '\n')).skip(1) =~= split_on(rest@, '\n'));
        }
        let lines = crate::text::nonempty_lines(&rest);
        let ghost all = lines_view(lines@);
        let mut devices: Vec<DeviceInfo> = Vec::new();
        let mut i: usize = 0;
        assert(all.take(0) =~= Seq::empty());
        assert(devices_view(devices@) =~= Seq::empty());
        while i < lines.len()
            invariant
                i <= lines.len(),
                all == lines_view(lines@),
                devices_view(devices@) == devices_of(all.take(i as int)),
            decreases lines.len() - i,
        {
            assert(all.take(i + 1).drop_last() == all.take(i as int));
            assert(all.take(i + 1).last() == lines@[i as int]@);
            match read_device(&lines[i]) {
                Some(d) => {
                    let ghost before = devices_view(devices@);
                    devices.push(d);
                    assert(devices_view(devices@) =~= before.push(d@));
                },
                None => {},
            }
            i += 1;
        }
        assert(all.take(lines.len() as int) == all);
        devices
    }
}

} // verus!
