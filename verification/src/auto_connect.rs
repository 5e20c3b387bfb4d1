//! Auto Connect interface class (class id 45): when and where a
//! communication module connects by itself.
use vstd::prelude::*;
use crate::cosem_object::{denied, invalid, yields, CosemObject};
use crate::data_object::{copy_vec, is_octets, ok_octets, DataObject};
use crate::datetime::{lemma_date_time_roundtrip, CosemDateTime};
use crate::error::{access_denied, invalid_data, invalid_data_number, DlmsResult};
use crate::obis::ObisCode;
use crate::selective_access::SelectiveAccessDescriptor;
use crate::text::{copy_string, spec_utf8_lossy, string_bytes, string_from_bytes_lossy};
use vstd::utf8::encode_utf8;

verus! {

/// Operating mode of the auto-connect function.
#[derive(Debug, Clone, Copy, PartialEq, Eq, Structural)]
pub enum AutoConnectMode {
    Disabled,
    Always,
    WaitingForWindow,
}

impl AutoConnectMode {
    pub open spec fn spec_to_u8(self) -> u8 {
        match self {
            AutoConnectMode::Disabled => 0,
            AutoConnectMode::Always => 1,
            AutoConnectMode::WaitingForWindow => 2,
        }
    }

    /// The mode of a wire code; unknown codes read as `Disabled`.
    pub open spec fn spec_from_u8(value: u8) -> AutoConnectMode {
        match value {
            1 => AutoConnectMode::Always,
            2 => AutoConnectMode::WaitingForWindow,
            _ => AutoConnectMode::Disabled,
        }
    }

    pub fn from_u8(value: u8) -> (r: AutoConnectMode)
        ensures
            r == AutoConnectMode::spec_from_u8(value),
    {
        match value {
            0 => AutoConnectMode::Disabled,
            1 => AutoConnectMode::Always,
            2 => AutoConnectMode::WaitingForWindow,
            _ => AutoConnectMode::Disabled,
        }
    }

    pub fn to_u8(self) -> (r: u8)
        ensures
            r == self.spec_to_u8(),
    {
        match self {
            AutoConnectMode::Disabled => 0,
            AutoConnectMode::Always => 1,
            AutoConnectMode::WaitingForWindow => 2,
        }
    }

    /// Any mode but `Disabled`.
    pub fn is_enabled(self) -> (r: bool)
        ensures
            r == (self != AutoConnectMode::Disabled),
    {
        matches!(self, AutoConnectMode::Always | AutoConnectMode::WaitingForWindow)
    }
}

/// State of the connection.
#[derive(Debug, Clone, Copy, PartialEq, Eq, Structural)]
pub enum ConnectionStatus {
    NotConnected,
    Connecting,
    Connected,
    Failed,
}

impl ConnectionStatus {
    pub open spec fn spec_to_u8(self) -> u8 {
        match self {
            ConnectionStatus::NotConnected => 0,
            ConnectionStatus::Connecting => 1,
            ConnectionStatus::Connected => 2,
            ConnectionStatus::Failed => 3,
        }
    }

    /// The status of a wire code; unknown codes read as `NotConnected`.
    pub open spec fn spec_from_u8(value: u8) -> ConnectionStatus {
        match value {
            1 => ConnectionStatus::Connecting,
            2 => ConnectionStatus::Connected,
            3 => ConnectionStatus::Failed,
            _ => ConnectionStatus::NotConnected,
        }
    }

    pub fn from_u8(value: u8) -> (r: ConnectionStatus)
        ensures
            r == ConnectionStatus::spec_from_u8(value),
    {
        match value {
            0 => ConnectionStatus::NotConnected,
            1 => ConnectionStatus::Connecting,
            2 => ConnectionStatus::Connected,
            3 => ConnectionStatus::Failed,
            _ => ConnectionStatus::NotConnected,
        }
    }

    pub fn to_u8(self) -> (r: u8)
        ensures
            r == self.spec_to_u8(),
    {
        match self {
            ConnectionStatus::NotConnected => 0,
            ConnectionStatus::Connecting => 1,
            ConnectionStatus::Connected => 2,
            ConnectionStatus::Failed => 3,
        }
    }

    pub fn is_connected(self) -> (r: bool)
        ensures
            r == (self == ConnectionStatus::Connected),
    {
        matches!(self, ConnectionStatus::Connected)
    }

    pub fn is_in_progress(self) -> (r: bool)
        ensures
            r == (self == ConnectionStatus::Connecting),
    {
        matches!(self, ConnectionStatus::Connecting)
    }
}

/// Every mode and status survives the trip through its wire code.
pub proof fn lemma_auto_connect_codes_roundtrip(m: AutoConnectMode, s: ConnectionStatus)
    ensures
        AutoConnectMode::spec_from_u8(m.spec_to_u8()) == m,
        ConnectionStatus::spec_from_u8(s.spec_to_u8()) == s,
{
}

/// A window in which connections may be made, with the days of the week it
/// applies to (bit 0 Monday to bit 6 Sunday).
#[derive(Debug, Clone, Copy, PartialEq, Eq, Structural)]
pub struct ConnectionTimeWindow {
    pub start_time: CosemDateTime,
    pub end_time: CosemDateTime,
    pub days_of_week: u8,
}

impl ConnectionTimeWindow {
    pub fn new(start_time: CosemDateTime, end_time: CosemDateTime, days_of_week: u8) -> (r: ConnectionTimeWindow)
        ensures
            r == (ConnectionTimeWindow { start_time, end_time, days_of_week }),
    {
        ConnectionTimeWindow { start_time, end_time, days_of_week }
    }

    /// The window an array `[OctetString(start), OctetString(end),
    /// Unsigned8(days), ..]` denotes; each time needs at least twelve bytes.
    pub open spec fn spec_from_data_object(d: DataObject) -> Option<ConnectionTimeWindow> {
        match d {
            DataObject::Array(arr) => if arr@.len() >= 3 {
                match (arr@[0], arr@[1], arr@[2]) {
                    (
                        DataObject::OctetString(s),
                        DataObject::OctetString(e),
                        DataObject::Unsigned8(days),
                    ) => if s@.len() >= 12 && e@.len() >= 12 {
                        Some(
                            ConnectionTimeWindow {
                                start_time: CosemDateTime::spec_decode(s@),
                                end_time: CosemDateTime::spec_decode(e@),
                                days_of_week: days,
                            },
                        )
                    } else {
                        None
                    },
                    _ => None,
                }
            } else {
                None
            },
            _ => None,
        }
    }

    /// `d` is `[OctetString(start bytes), OctetString(end bytes), Unsigned8(days)]`.
    pub open spec fn is_encoding(self, d: DataObject) -> bool {
        d matches DataObject::Array(arr) && arr@.len() == 3 && is_octets(
            arr@[0],
            self.start_time.spec_encode(),
        ) && is_octets(arr@[1], self.end_time.spec_encode()) && arr@[2] == DataObject::Unsigned8(
            self.days_of_week,
        )
    }

    /// The array form; reading it back gives the window again.
    pub fn to_data_object(&self) -> (r: DataObject)
        ensures
            self.is_encoding(r),
            ConnectionTimeWindow::spec_from_data_object(r) == Some(*self),
    {
        let mut items: Vec<DataObject> = Vec::new();
        items.push(DataObject::OctetString(self.start_time.encode()));
        items.push(DataObject::OctetString(self.end_time.encode()));
        items.push(DataObject::Unsigned8(self.days_of_week));
        proof {
            lemma_date_time_roundtrip(self.start_time);
            lemma_date_time_roundtrip(self.end_time);
        }
        DataObject::Array(items)
    }

    /// Reads a window from its array form.
    pub fn from_data_object(value: &DataObject) -> (r: DlmsResult<ConnectionTimeWindow>)
        ensures
            r is Ok <==> ConnectionTimeWindow::spec_from_data_object(*value) is Some,
            r matches Ok(w) ==> ConnectionTimeWindow::spec_from_data_object(*value) == Some(w),
            r is Err ==> invalid(r),
    {
        match value {
            DataObject::Array(arr) => {
                if arr.len() < 3 {
                    return Err(invalid_data("Expected Array for ConnectionTimeWindow"));
                }
                let start_time = match &arr[0] {
                    DataObject::OctetString(bytes) if bytes.len() >= 12 => {
                        match CosemDateTime::decode(bytes.as_slice()) {
                            Ok(t) => t,
                            Err(e) => return Err(e),
                        }
                    },
                    _ => return Err(invalid_data("Expected OctetString for start_time")),
                };
                let end_time = match &arr[1] {
                    DataObject::OctetString(bytes) if bytes.len() >= 12 => {
                        match CosemDateTime::decode(bytes.as_slice()) {
                            Ok(t) => t,
                            Err(e) => return Err(e),
                        }
                    },
                    _ => return Err(invalid_data("Expected OctetString for end_time")),
                };
                let days_of_week = match &arr[2] {
                    DataObject::Unsigned8(d) => *d,
                    _ => return Err(invalid_data("Expected Unsigned8 for days_of_week")),
                };
                Ok(ConnectionTimeWindow { start_time, end_time, days_of_week })
            },
            _ => Err(invalid_data("Expected Array for ConnectionTimeWindow")),
        }
    }
}

/// The windows read from `items`, in order, leaving out the elements that
/// do not read as a window.
pub open spec fn parsed_windows(items: Seq<DataObject>) -> Seq<ConnectionTimeWindow>
    decreases items.len(),
{
    if items.len() == 0 {
        Seq::empty()
    } else {
        let before = parsed_windows(items.drop_last());
        match ConnectionTimeWindow::spec_from_data_object(items.last()) {
            Some(w) => before.push(w),
            None => before,
        }
    }
}

/// `d` is the array of the encodings of `ws`, in order.
pub open spec fn is_window_table(d: DataObject, ws: Seq<ConnectionTimeWindow>) -> bool {
    d matches DataObject::Array(items) && items@.len() == ws.len() && forall|i: int|
        0 <= i < ws.len() ==> ws[i].is_encoding(#[trigger] items@[i])
}

/// The state of an [`AutoConnect`].
pub struct AutoConnectView {
    pub logical_name: ObisCode,
    pub mode: AutoConnectMode,
    pub repetition_delay: u32,
    pub repetition_number: u16,
    pub calling_windows: Seq<ConnectionTimeWindow>,
    pub destination: Seq<char>,
    pub status: ConnectionStatus,
}

/// A fresh object: disabled, 60 s between attempts, no limit on attempts,
/// no windows, no destination, not connected.
pub open spec fn auto_connect_defaults(logical_name: ObisCode) -> AutoConnectView {
    AutoConnectView {
        logical_name,
        mode: AutoConnectMode::Disabled,
        repetition_delay: 60,
        repetition_number: 0,
        calling_windows: Seq::empty(),
        destination: Seq::empty(),
        status: ConnectionStatus::NotConnected,
    }
}

/// Auto Connect interface class (class id 45).
pub struct AutoConnect {
    logical_name: ObisCode,
    mode: AutoConnectMode,
    repetition_delay: u32,
    repetition_number: u16,
    calling_windows: Vec<ConnectionTimeWindow>,
    destination: String,
    status: ConnectionStatus,
}

impl View for AutoConnect {
    type V = AutoConnectView;

    closed spec fn view(&self) -> AutoConnectView {
        AutoConnectView {
            logical_name: self.logical_name,
            mode: self.mode,
            repetition_delay: self.repetition_delay,
            repetition_number: self.repetition_number,
            calling_windows: self.calling_windows@,
            destination: self.destination@,
            status: self.status,
        }
    }
}

/// Reads the windows of `items`, skipping the elements that are not windows.
fn read_windows(items: &Vec<DataObject>) -> (r: Vec<ConnectionTimeWindow>)
    ensures
        r@ == parsed_windows(items@),
{
    let mut out: Vec<ConnectionTimeWindow> = Vec::new();
    let mut i: usize = 0;
    while i < items.len()
        invariant
            i <= items@.len(),
            out@ == parsed_windows(items@.take(i as int)),
        decreases items@.len() - i,
    {
        assert(items@.take(i + 1).drop_last() =~= items@.take(i as int));
        assert(items@.take(i + 1).last() == items@[i as int]);
        match ConnectionTimeWindow::from_data_object(&items[i]) {
            Ok(w) => out.push(w),
            Err(_) => {},
        }
        i = i + 1;
    }
    assert(items@.take(items@.len() as int) =~= items@);
    out
}

fn encode_windows(windows: &Vec<ConnectionTimeWindow>) -> (r: DataObject)
    ensures
        is_window_table(r, windows@),
{
    let mut items: Vec<DataObject> = Vec::new();
    let mut i: usize = 0;
    while i < windows.len()
        invariant
            i <= windows@.len(),
            items@.len() == i,
            forall|j: int| 0 <= j < i ==> windows@[j].is_encoding(#[trigger] items@[j]),
        decreases windows@.len() - i,
    {
        items.push(windows[i].to_data_object());
        i = i + 1;
    }
    DataObject::Array(items)
}

impl AutoConnect {
    pub const CLASS_ID: u16 = 45;
    pub const ATTR_LOGICAL_NAME: u8 = 1;
    pub const ATTR_MODE: u8 = 2;
    pub const ATTR_REPETITION_DELAY: u8 = 3;
    pub const ATTR_REPETITION_NUMBER: u8 = 4;
    pub const ATTR_CALLING_WINDOW: u8 = 5;
    pub const ATTR_DESTINATION: u8 = 6;
    pub const ATTR_STATUS: u8 = 7;

    /// Default OBIS code 0-0:45.0.0.255.
    pub fn default_obis() -> (r: ObisCode)
        ensures
            r == (ObisCode { a: 0, b: 0, c: 45, d: 0, e: 0, f: 255 }),
    {
        ObisCode::new(0, 0, 45, 0, 0, 255)
    }

    pub fn new(logical_name: ObisCode) -> (r: AutoConnect)
        ensures
            r@ == auto_connect_defaults(logical_name),
    {
        AutoConnect {
            logical_name,
            mode: AutoConnectMode::Disabled,
            repetition_delay: 60,
            repetition_number: 0,
            calling_windows: Vec::new(),
            destination: String::new(),
            status: ConnectionStatus::NotConnected,
        }
    }

    pub fn with_default_obis() -> (r: AutoConnect)
        ensures
            r@ == auto_connect_defaults(ObisCode { a: 0, b: 0, c: 45, d: 0, e: 0, f: 255 }),
    {
        Self::new(Self::default_obis())
    }

    pub fn mode(&self) -> (r: AutoConnectMode)
        ensures
            r == self@.mode,
    {
        self.mode
    }

    pub fn set_mode(&mut self, mode: AutoConnectMode)
        ensures
            final(self)@ == (AutoConnectView { mode, ..old(self)@ }),
    {
        self.mode = mode;
    }

    pub fn repetition_delay(&self) -> (r: u32)
        ensures
            r == self@.repetition_delay,
    {
        self.repetition_delay
    }

    pub fn set_repetition_delay(&mut self, delay: u32)
        ensures
            final(self)@ == (AutoConnectView { repetition_delay: delay, ..old(self)@ }),
    {
        self.repetition_delay = delay;
    }

    pub fn repetition_number(&self) -> (r: u16)
        ensures
            r == self@.repetition_number,
    {
        self.repetition_number
    }

    pub fn set_repetition_number(&mut self, number: u16)
        ensures
            final(self)@ == (AutoConnectView { repetition_number: number, ..old(self)@ }),
    {
        self.repetition_number = number;
    }

    pub fn calling_windows(&self) -> (r: Vec<ConnectionTimeWindow>)
        ensures
            r@ == self@.calling_windows,
    {
        copy_vec(&self.calling_windows)
    }

    pub fn add_calling_window(&mut self, window: ConnectionTimeWindow)
        ensures
            final(self)@ == (AutoConnectView {
                calling_windows: old(self)@.calling_windows.push(window),
                ..old(self)@
            }),
    {
        self.calling_windows.push(window);
    }

    pub fn clear_calling_windows(&mut self)
        ensures
            final(self)@ == (AutoConnectView { calling_windows: Seq::empty(), ..old(self)@ }),
    {
        self.calling_windows = Vec::new();
    }

    pub fn destination(&self) -> (r: String)
        ensures
            r@ == self@.destination,
    {
        copy_string(&self.destination)
    }

    pub fn set_destination(&mut self, dest: String)
        ensures
            final(self)@ == (AutoConnectView { destination: dest@, ..old(self)@ }),
    {
        self.destination = dest;
    }

    pub fn status(&self) -> (r: ConnectionStatus)
        ensures
            r == self@.status,
    {
        self.status
    }

    pub fn set_status(&mut self, status: ConnectionStatus)
        ensures
            final(self)@ == (AutoConnectView { status, ..old(self)@ }),
    {
        self.status = status;
    }

    /// Switches to `Always`.
    pub fn enable(&mut self)
        ensures
            final(self)@ == (AutoConnectView { mode: AutoConnectMode::Always, ..old(self)@ }),
    {
        self.mode = AutoConnectMode::Always;
    }

    /// Switches to `Disabled`.
    pub fn disable(&mut self)
        ensures
            final(self)@ == (AutoConnectView { mode: AutoConnectMode::Disabled, ..old(self)@ }),
    {
        self.mode = AutoConnectMode::Disabled;
    }

    pub fn is_enabled(&self) -> (r: bool)
        ensures
            r == (self@.mode != AutoConnectMode::Disabled),
    {
        self.mode.is_enabled()
    }
}

impl CosemObject for AutoConnect {
    fn class_id(&self) -> (r: u16)
        ensures
            r == 45,
    {
        Self::CLASS_ID
    }

    fn obis_code(&self) -> (r: ObisCode)
        ensures
            r == self@.logical_name,
    {
        self.logical_name
    }

    fn get_attribute(
        &self,
        attribute_id: u8,
        selective_access: Option<&SelectiveAccessDescriptor>,
    ) -> (r: DlmsResult<DataObject>)
        ensures
            match attribute_id {
                1 => ok_octets(r, self@.logical_name.spec_bytes()),
                2 => yields(r, DataObject::Enumerate(self@.mode.spec_to_u8())),
                3 => yields(r, DataObject::Unsigned32(self@.repetition_delay)),
                4 => yields(r, DataObject::Unsigned16(self@.repetition_number)),
                5 => r matches Ok(d) && is_window_table(d, self@.calling_windows),
                6 => ok_octets(r, encode_utf8(self@.destination)),
                7 => yields(r, DataObject::Enumerate(self@.status.spec_to_u8())),
                _ => invalid(r),
            },
    {
        match attribute_id {
            1 => Ok(DataObject::OctetString(self.logical_name.to_bytes())),
            2 => Ok(DataObject::Enumerate(self.mode.to_u8())),
            3 => Ok(DataObject::Unsigned32(self.repetition_delay)),
            4 => Ok(DataObject::Unsigned16(self.repetition_number)),
            5 => Ok(encode_windows(&self.calling_windows)),
            6 => Ok(DataObject::OctetString(string_bytes(&self.destination))),
            7 => Ok(DataObject::Enumerate(self.status.to_u8())),
            _ => Err(invalid_data_number("Auto Connect has no attribute ", attribute_id as u64)),
        }
    }

    /// The calling windows are written from an array: the elements that read
    /// as windows replace the list, the others are skipped; `Null` empties
    /// the list. The destination is written from an octet string decoded as
    /// UTF-8 with invalid sequences replaced.
    fn set_attribute(
        &mut self,
        attribute_id: u8,
        value: DataObject,
        selective_access: Option<&SelectiveAccessDescriptor>,
    ) -> (r: DlmsResult<()>)
        ensures
            r is Err ==> final(self)@ == old(self)@,
            match attribute_id {
                1 => denied(r),
                2 => match value {
                    DataObject::Enumerate(v) => r is Ok && final(self)@ == (AutoConnectView {
                        mode: AutoConnectMode::spec_from_u8(v),
                        ..old(self)@
                    }),
                    _ => invalid(r),
                },
                3 => match value {
                    DataObject::Unsigned32(v) => r is Ok && final(self)@ == (AutoConnectView {
                        repetition_delay: v,
                        ..old(self)@
                    }),
                    _ => invalid(r),
                },
                4 => match value {
                    DataObject::Unsigned16(v) => r is Ok && final(self)@ == (AutoConnectView {
                        repetition_number: v,
                        ..old(self)@
                    }),
                    _ => invalid(r),
                },
                5 => match value {
                    DataObject::Array(items) => r is Ok && final(self)@ == (AutoConnectView {
                        calling_windows: parsed_windows(items@),
                        ..old(self)@
                    }),
                    DataObject::Null => r is Ok && final(self)@ == (AutoConnectView {
                        calling_windows: Seq::empty(),
                        ..old(self)@
                    }),
                    _ => invalid(r),
                },
                6 => match value {
                    DataObject::OctetString(b) => r is Ok && final(self)@ == (AutoConnectView {
                        destination: spec_utf8_lossy(b@),
                        ..old(self)@
                    }),
                    _ => invalid(r),
                },
                7 => match value {
                    DataObject::Enumerate(v) => r is Ok && final(self)@ == (AutoConnectView {
                        status: ConnectionStatus::spec_from_u8(v),
                        ..old(self)@
                    }),
                    _ => invalid(r),
                },
                _ => invalid(r),
            },
    {
        match attribute_id {
            1 => Err(access_denied("Attribute 1 (logical_name) is read-only")),
            2 => match value {
                DataObject::Enumerate(mode) => {
                    self.mode = AutoConnectMode::from_u8(mode);
                    Ok(())
                },
                _ => Err(invalid_data("Expected Enumerate for mode")),
            },
            3 => match value {
                DataObject::Unsigned32(delay) => {
                    self.repetition_delay = delay;
                    Ok(())
                },
                _ => Err(invalid_data("Expected Unsigned32 for repetition_delay")),
            },
            4 => match value {
                DataObject::Unsigned16(number) => {
                    self.repetition_number = number;
                    Ok(())
                },
                _ => Err(invalid_data("Expected Unsigned16 for repetition_number")),
            },
            5 => match value {
                DataObject::Array(items) => {
                    self.calling_windows = read_windows(&items);
                    Ok(())
                },
                DataObject::Null => {
                    self.calling_windows = Vec::new();
                    Ok(())
                },
                _ => Err(invalid_data("Expected Array for calling_window")),
            },
            6 => match value {
                DataObject::OctetString(bytes) => {
                    self.destination = string_from_bytes_lossy(bytes.as_slice());
                    Ok(())
                },
                _ => Err(invalid_data("Expected OctetString for destination")),
            },
            7 => match value {
                DataObject::Enumerate(status) => {
                    self.status = ConnectionStatus::from_u8(status);
                    Ok(())
                },
                _ => Err(invalid_data("Expected Enumerate for status")),
            },
            _ => Err(invalid_data_number("Auto Connect has no attribute ", attribute_id as u64)),
        }
    }

    fn invoke_method(
        &mut self,
        method_id: u8,
        parameters: Option<DataObject>,
        selective_access: Option<&SelectiveAccessDescriptor>,
    ) -> (r: DlmsResult<Option<DataObject>>)
        ensures
            invalid(r),
            final(self)@ == old(self)@,
    {
        Err(invalid_data_number("Auto Connect has no method ", method_id as u64))
    }
}

/// Writing the calling windows back as they were read (attribute 5) leaves
/// exactly the windows that were read.
pub proof fn lemma_window_table_write_back(d: DataObject, ws: Seq<ConnectionTimeWindow>)
    requires
        is_window_table(d, ws),
    ensures
        d matches DataObject::Array(items) && parsed_windows(items@) == ws,
{
    let items = d->Array_0;
    lemma_windows_of_encodings(items@, ws);
}

/// The windows read from the encodings of `ws` are `ws`.
proof fn lemma_windows_of_encodings(items: Seq<DataObject>, ws: Seq<ConnectionTimeWindow>)
    requires
        items.len() == ws.len(),
        forall|i: int| 0 <= i < ws.len() ==> ws[i].is_encoding(#[trigger] items[i]),
    ensures
        parsed_windows(items) == ws,
    decreases ws.len(),
{
    if ws.len() > 0 {
        let n = ws.len() - 1;
        lemma_windows_of_encodings(items.drop_last(), ws.drop_last());
        let w = ws[n];
        assert(w.is_encoding(items[n]));
        lemma_date_time_roundtrip(w.start_time);
        lemma_date_time_roundtrip(w.end_time);
        assert(ConnectionTimeWindow::spec_from_data_object(items.last()) == Some(w));
        assert(ws.drop_last().push(w) =~= ws);
    } else {
        assert(ws =~= Seq::empty());
    }
}

} // verus!
