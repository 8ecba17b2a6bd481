//! Opening an adapter: scan for adapters, open the first free one, and, for
//! an I2C session, configure it for I2C and set the bus bitrate.
//!
//! Each step is a call into the C library; [`OpenSession`] decides what to
//! call next from what the previous call returned. The caller performs each
//! [`OpenAction`] and hands the value it got back to [`OpenSession::step`],
//! until the session is finished. The first call that fails ends the
//! session with its status as the error.
use vstd::prelude::*;
use vstd::pervasive::unreached;

use crate::devices::{
    find_unused_aardvark_devices, free_ports, lemma_first_free_port,
    lemma_scanned_ports_are_buffer_prefix, scanned_ports, DEVICE_BUFFER_LEN,
};
use crate::error::{check_count, AardvarkError, AardvarkResult, UNABLE_TO_FIND_UNUSED_DEVICE_CODE};
use crate::i2c::I2CDevice;

verus! {

/// Configuration that enables both the SPI and the I2C subsystems.
pub const AA_CONFIG_SPI_I2C: u32 = 0x03;

/// Where a session stands: which call it waits for.
#[derive(Debug, Clone, Copy, PartialEq, Eq, Structural)]
pub enum OpenStage {
    FindDevices,
    OpenPort,
    Configure,
    SetBitrate,
    Finished,
}

/// What the last call into the C library gave back.
#[derive(Debug)]
pub enum OpenEvent {
    /// The scan's return value and the buffer of port numbers it filled.
    DevicesFound { count: i32, ports: Vec<u16> },
    /// The return value of an open, configure or bitrate call.
    Returned(i32),
}

/// What to do next.
#[derive(Debug)]
pub enum OpenAction {
    /// Scan for adapters, with room for `max_devices` port numbers.
    FindDevices { max_devices: i32 },
    /// Open the adapter on `port`.
    OpenPort { port: i32 },
    /// Configure the adapter's subsystems.
    Configure { handle: i32, config: u32 },
    /// Set the I2C bus bitrate, in kHz.
    SetBitrate { handle: i32, bitrate_khz: i32 },
    /// A session that only opens an adapter is over: its handle or the error.
    Opened(AardvarkResult<i32>),
    /// An I2C session is over: the device or the error.
    Ready(AardvarkResult<I2CDevice>),
}

/// A session as plain values: its stage, whether it goes on to set up I2C,
/// the bitrate it will set, and the handle of the opened adapter.
pub struct OpenView {
    pub stage: OpenStage,
    pub for_i2c: bool,
    pub bitrate_khz: i32,
    pub handle: i32,
}

/// The session's work is over with the error `code`.
pub open spec fn fails_with(for_i2c: bool, action: OpenAction, code: i32) -> bool {
    if for_i2c {
        action matches OpenAction::Ready(Err(e)) && e@ == code
    } else {
        action matches OpenAction::Opened(Err(e)) && e@ == code
    }
}

/// The event a stage waits for: the scan's result at the start, a returned
/// value afterwards, and nothing once finished.
pub open spec fn expects(stage: OpenStage, event: OpenEvent) -> bool {
    match stage {
        OpenStage::FindDevices => event is DevicesFound,
        OpenStage::Finished => false,
        _ => event is Returned,
    }
}

/// One step of a session: from the state `s` and the `event`, the state `t`
/// and the `action` that follow.
pub open spec fn step_spec(s: OpenView, event: OpenEvent, t: OpenView, action: OpenAction) -> bool {
    match s.stage {
        OpenStage::FindDevices => {
            let count = event->count;
            let free = free_ports(scanned_ports(count, event->ports@));
            if count < 0 {
                t.stage == OpenStage::Finished && fails_with(s.for_i2c, action, count)
            } else if free.len() == 0 {
                t.stage == OpenStage::Finished && fails_with(
                    s.for_i2c,
                    action,
                    UNABLE_TO_FIND_UNUSED_DEVICE_CODE,
                )
            } else {
                &&& t == OpenView { stage: OpenStage::OpenPort, ..s }
                &&& action == OpenAction::OpenPort { port: free[0] as i32 }
            }
        },
        OpenStage::OpenPort => {
            let handle = event->Returned_0;
            if handle < 0 {
                t.stage == OpenStage::Finished && fails_with(s.for_i2c, action, handle)
            } else if s.for_i2c {
                &&& t == OpenView { stage: OpenStage::Configure, handle, ..s }
                &&& action == OpenAction::Configure { handle, config: AA_CONFIG_SPI_I2C }
            } else {
                &&& t == OpenView { stage: OpenStage::Finished, handle, ..s }
                &&& action == OpenAction::Opened(Ok(handle))
            }
        },
        OpenStage::Configure => {
            let value = event->Returned_0;
            if value < 0 {
                t.stage == OpenStage::Finished && fails_with(s.for_i2c, action, value)
            } else {
                &&& t == OpenView { stage: OpenStage::SetBitrate, ..s }
                &&& action == OpenAction::SetBitrate { handle: s.handle, bitrate_khz: s.bitrate_khz }
            }
        },
        OpenStage::SetBitrate => {
            let value = event->Returned_0;
            if value < 0 {
                t.stage == OpenStage::Finished && fails_with(s.for_i2c, action, value)
            } else {
                &&& t == OpenView { stage: OpenStage::Finished, ..s }
                &&& action matches OpenAction::Ready(Ok(d)) && d@ == s.handle
            }
        },
        OpenStage::Finished => false,
    }
}

/// A session of opening an adapter, waiting for the result of a call.
#[derive(Debug)]
pub struct OpenSession {
    stage: OpenStage,
    for_i2c: bool,
    bitrate_khz: i32,
    handle: i32,
}

impl View for OpenSession {
    type V = OpenView;

    closed spec fn view(&self) -> OpenView {
        OpenView {
            stage: self.stage,
            for_i2c: self.for_i2c,
            bitrate_khz: self.bitrate_khz,
            handle: self.handle,
        }
    }
}

/// Starts opening the first free adapter: the session, and its first
/// action, a scan. The session ends with the adapter's handle.
pub fn find_and_open_first_unused_device() -> (r: (OpenSession, OpenAction))
    ensures
        r.0@ == (OpenView { stage: OpenStage::FindDevices, for_i2c: false, bitrate_khz: 0, handle: 0 }),
        r.1 == (OpenAction::FindDevices { max_devices: DEVICE_BUFFER_LEN as i32 }),
{
    (
        OpenSession { stage: OpenStage::FindDevices, for_i2c: false, bitrate_khz: 0, handle: 0 },
        OpenAction::FindDevices { max_devices: DEVICE_BUFFER_LEN as i32 },
    )
}

/// Starts opening the first free adapter for I2C at `bitrate_khz`: the
/// session, and its first action, a scan. The session ends with the device.
pub fn open_i2c(bitrate_khz: i32) -> (r: (OpenSession, OpenAction))
    ensures
        r.0@ == (OpenView {
            stage: OpenStage::FindDevices,
            for_i2c: true,
            bitrate_khz,
            handle: 0,
        }),
        r.1 == (OpenAction::FindDevices { max_devices: DEVICE_BUFFER_LEN as i32 }),
{
    (
        OpenSession { stage: OpenStage::FindDevices, for_i2c: true, bitrate_khz, handle: 0 },
        OpenAction::FindDevices { max_devices: DEVICE_BUFFER_LEN as i32 },
    )
}

impl OpenSession {
    fn fail(&mut self, error: AardvarkError) -> (action: OpenAction)
        ensures
            final(self)@ == (OpenView { stage: OpenStage::Finished, ..old(self)@ }),
            fails_with(old(self)@.for_i2c, action, error@),
            old(self)@.for_i2c ==> (action matches OpenAction::Ready(Err(e)) && e@ == error@),
            !old(self)@.for_i2c ==> (action matches OpenAction::Opened(Err(e)) && e@ == error@),
    {
        self.stage = OpenStage::Finished;
        if self.for_i2c {
            OpenAction::Ready(Err(error))
        } else {
            OpenAction::Opened(Err(error))
        }
    }

    /// The stage the session is at.
    pub fn stage(&self) -> (s: OpenStage)
        ensures
            s == self@.stage,
    {
        self.stage
    }

    /// Takes what the last action's call gave back and decides the next
    /// action.
    pub fn step(&mut self, event: OpenEvent) -> (action: OpenAction)
        requires
            expects(old(self)@.stage, event),
        ensures
            step_spec(old(self)@, event, final(self)@, action),
            // A failed call ends the session with that call's status.
            (event is DevicesFound && event->count < 0) ==> final(self)@.stage
                == OpenStage::Finished && (old(self)@.for_i2c ==> (action matches OpenAction::Ready(
                Err(e)) && e@ == event->count)) && (!old(self)@.for_i2c ==> (
            action matches OpenAction::Opened(Err(e)) && e@ == event->count)),
            (event is Returned && event->Returned_0 < 0) ==> final(self)@.stage
                == OpenStage::Finished && (old(self)@.for_i2c ==> (action matches OpenAction::Ready(
                Err(e)) && e@ == event->Returned_0)) && (!old(self)@.for_i2c ==> (
            action matches OpenAction::Opened(Err(e)) && e@ == event->Returned_0)),
            // A scan opens the first scanned port whose busy bit is clear ...
            (event is DevicesFound && event->count >= 0 && exists|k: int|
                0 <= k < event->ports@.len() && k < event->count && event->ports@[k] & 0x8000u16
                    == 0) ==> exists|k: int|
                0 <= k < event->ports@.len() && k < event->count && event->ports@[k] & 0x8000u16
                    == 0 && (forall|j: int| 0 <= j < k ==> #[trigger] event->ports@[j] & 0x8000u16 != 0)
                    && action == (OpenAction::OpenPort { port: event->ports@[k] as i32 }),
            // ... and, where there is none, ends with the library's own error.
            (event is DevicesFound && event->count >= 0 && forall|k: int|
                0 <= k < event->ports@.len() && k < event->count ==> #[trigger] event->ports@[k]
                    & 0x8000u16 != 0) ==> final(self)@.stage == OpenStage::Finished && (old(
                self,
            )@.for_i2c ==> (action matches OpenAction::Ready(Err(e)) && e@ == 1)) && (!old(
                self,
            )@.for_i2c ==> (action matches OpenAction::Opened(Err(e)) && e@ == 1)),
            // Successful calls after the scan.
            (old(self)@.stage == OpenStage::OpenPort && event->Returned_0 >= 0) ==> (
            old(self)@.for_i2c ==> action == (OpenAction::Configure {
                handle: event->Returned_0,
                config: 3,
            })) && (!old(self)@.for_i2c ==> action == OpenAction::Opened(Ok(event->Returned_0))),
            (old(self)@.stage == OpenStage::Configure && event->Returned_0 >= 0) ==> action == (
            OpenAction::SetBitrate {
                handle: old(self)@.handle,
                bitrate_khz: old(self)@.bitrate_khz,
            }),
            (old(self)@.stage == OpenStage::SetBitrate && event->Returned_0 >= 0) ==> (
            action matches OpenAction::Ready(Ok(d)) && d@ == old(self)@.handle),
    {
        let ghost s = self@;
        let ghost ev = event;
        let action = self.advance(event);
        proof {
            if ev is DevicesFound {
                lemma_scan_step(s, ev->count, ev->ports, self@, action);
            } else {
                lemma_returned_step(s, ev->Returned_0, self@, action);
            }
        }
        action
    }

    fn advance(&mut self, event: OpenEvent) -> (action: OpenAction)
        requires
            expects(old(self)@.stage, event),
        ensures
            step_spec(old(self)@, event, final(self)@, action),
    {
        match (self.stage, event) {
            (OpenStage::FindDevices, OpenEvent::DevicesFound { count, ports }) => {
                match find_unused_aardvark_devices(count, ports.as_slice()) {
                    Err(e) => self.fail(e),
                    Ok(free) => {
                        if free.len() == 0 {
                            self.fail(AardvarkError::unable_to_find_unused_device())
                        } else {
                            self.stage = OpenStage::OpenPort;
                            OpenAction::OpenPort { port: free[0] as i32 }
                        }
                    },
                }
            },
            (OpenStage::OpenPort, OpenEvent::Returned(value)) => match check_count(value) {
                Err(e) => self.fail(e),
                Ok(handle) => {
                    self.handle = handle;
                    if self.for_i2c {
                        self.stage = OpenStage::Configure;
                        OpenAction::Configure { handle, config: AA_CONFIG_SPI_I2C }
                    } else {
                        self.stage = OpenStage::Finished;
                        OpenAction::Opened(Ok(handle))
                    }
                },
            },
            (OpenStage::Configure, OpenEvent::Returned(value)) => match check_count(value) {
                Err(e) => self.fail(e),
                Ok(_) => {
                    self.stage = OpenStage::SetBitrate;
                    OpenAction::SetBitrate { handle: self.handle, bitrate_khz: self.bitrate_khz }
                },
            },
            (OpenStage::SetBitrate, OpenEvent::Returned(value)) => match check_count(value) {
                Err(e) => self.fail(e),
                Ok(_) => {
                    self.stage = OpenStage::Finished;
                    OpenAction::Ready(Ok(I2CDevice::new(self.handle)))
                },
            },
            _ => unreached(),
        }
    }
}

/// An I2C session in which every call succeeds opens the first free port
/// of the scan, configures that adapter for I2C, sets the requested
/// bitrate, and ends with the device of the handle that the open returned.
pub proof fn lemma_i2c_session_success(
    bitrate_khz: i32,
    count: i32,
    ports: Vec<u16>,
    handle: i32,
    configured: i32,
    bitrate_set: i32,
    s1: OpenView,
    a1: OpenAction,
    s2: OpenView,
    a2: OpenAction,
    s3: OpenView,
    a3: OpenAction,
    s4: OpenView,
    a4: OpenAction,
)
    requires
        count >= 0,
        free_ports(scanned_ports(count, ports@)).len() > 0,
        handle >= 0,
        configured >= 0,
        bitrate_set >= 0,
        step_spec(
            OpenView { stage: OpenStage::FindDevices, for_i2c: true, bitrate_khz, handle: 0 },
            OpenEvent::DevicesFound { count, ports },
            s1,
            a1,
        ),
        step_spec(s1, OpenEvent::Returned(handle), s2, a2),
        step_spec(s2, OpenEvent::Returned(configured), s3, a3),
        step_spec(s3, OpenEvent::Returned(bitrate_set), s4, a4),
    ensures
        a1 == (OpenAction::OpenPort { port: free_ports(scanned_ports(count, ports@))[0] as i32 }),
        a2 == (OpenAction::Configure { handle, config: AA_CONFIG_SPI_I2C }),
        a3 == (OpenAction::SetBitrate { handle, bitrate_khz }),
        s4.stage == OpenStage::Finished,
        a4 matches OpenAction::Ready(Ok(d)) && d@ == handle,
{
}

/// A session that only opens an adapter, in which the scan finds a free
/// adapter and the open succeeds, ends with the handle that the open returned.
pub proof fn lemma_open_session_success(
    count: i32,
    ports: Vec<u16>,
    handle: i32,
    s1: OpenView,
    a1: OpenAction,
    s2: OpenView,
    a2: OpenAction,
)
    requires
        count >= 0,
        free_ports(scanned_ports(count, ports@)).len() > 0,
        handle >= 0,
        step_spec(
            OpenView { stage: OpenStage::FindDevices, for_i2c: false, bitrate_khz: 0, handle: 0 },
            OpenEvent::DevicesFound { count, ports },
            s1,
            a1,
        ),
        step_spec(s1, OpenEvent::Returned(handle), s2, a2),
    ensures
        a1 == (OpenAction::OpenPort { port: free_ports(scanned_ports(count, ports@))[0] as i32 }),
        s2.stage == OpenStage::Finished,
        a2 == OpenAction::Opened(Ok(handle)),
{
}

/// A failed scan ends the session with the scan's status as the error, and
/// a scan that finds no free adapter ends it with the library's own error.
pub proof fn lemma_scan_failure_ends_session(
    s: OpenView,
    count: i32,
    ports: Vec<u16>,
    t: OpenView,
    action: OpenAction,
)
    requires
        s.stage == OpenStage::FindDevices,
        count < 0 || free_ports(scanned_ports(count, ports@)).len() == 0,
        step_spec(s, OpenEvent::DevicesFound { count, ports }, t, action),
    ensures
        t.stage == OpenStage::Finished,
        fails_with(
            s.for_i2c,
            action,
            if count < 0 {
                count
            } else {
                UNABLE_TO_FIND_UNUSED_DEVICE_CODE
            },
        ),
{
}

/// A call after the scan that returns a negative status ends the session
/// with that status as the error; no later call is made.
pub proof fn lemma_call_failure_ends_session(
    s: OpenView,
    value: i32,
    t: OpenView,
    action: OpenAction,
)
    requires
        s.stage == OpenStage::OpenPort || s.stage == OpenStage::Configure || s.stage
            == OpenStage::SetBitrate,
        value < 0,
        step_spec(s, OpenEvent::Returned(value), t, action),
    ensures
        t.stage == OpenStage::Finished,
        fails_with(s.for_i2c, action, value),
        !expects(t.stage, OpenEvent::Returned(value)),
{
}

/// What a scan step does, in terms of the scan's count and buffer: a
/// negative count ends the session with that count as the error; otherwise
/// the session opens the port at the least index, within the count, whose
/// busy bit is clear, or, where every such port is busy, ends with the
/// library's own error (code 1).
pub proof fn lemma_scan_step(
    s: OpenView,
    count: i32,
    ports: Vec<u16>,
    t: OpenView,
    action: OpenAction,
)
    requires
        s.stage == OpenStage::FindDevices,
        step_spec(s, OpenEvent::DevicesFound { count, ports }, t, action),
    ensures
        count < 0 ==> t.stage == OpenStage::Finished && (s.for_i2c ==> (
        action matches OpenAction::Ready(Err(e)) && e@ == count)) && (!s.for_i2c ==> (
        action matches OpenAction::Opened(Err(e)) && e@ == count)),
        (count >= 0 && exists|k: int|
            0 <= k < ports@.len() && k < count && ports@[k] & 0x8000u16 == 0) ==> exists|k: int|
            0 <= k < ports@.len() && k < count && ports@[k] & 0x8000u16 == 0 && (forall|j: int|
                0 <= j < k ==> #[trigger] ports@[j] & 0x8000u16 != 0) && action == (
            OpenAction::OpenPort { port: ports@[k] as i32 }),
        (count >= 0 && forall|k: int|
            0 <= k < ports@.len() && k < count ==> #[trigger] ports@[k] & 0x8000u16 != 0) ==> t.stage
            == OpenStage::Finished && (s.for_i2c ==> (action matches OpenAction::Ready(Err(e)) && e@
            == 1)) && (!s.for_i2c ==> (action matches OpenAction::Opened(Err(e)) && e@ == 1)),
{
    if count >= 0 {
        let scanned = scanned_ports(count, ports@);
        lemma_scanned_ports_are_buffer_prefix(count, ports@);
        lemma_first_free_port(scanned);
        if exists|k: int| 0 <= k < ports@.len() && k < count && ports@[k] & 0x8000u16 == 0 {
            let k0 = choose|k: int| 0 <= k < ports@.len() && k < count && ports@[k] & 0x8000u16 == 0;
            assert(scanned[k0] == ports@[k0]);
            assert(free_ports(scanned).len() > 0);
            let k = choose|k: int|
                0 <= k < scanned.len() && scanned[k] & 0x8000u16 == 0 && free_ports(scanned)[0]
                    == scanned[k] && forall|j: int| 0 <= j < k ==> #[trigger] scanned[j] & 0x8000u16
                    != 0;
            assert(scanned[k] == ports@[k]);
            assert forall|j: int| 0 <= j < k implies #[trigger] ports@[j] & 0x8000u16 != 0 by {
                assert(scanned[j] == ports@[j]);
            }
        }
        if forall|k: int| 0 <= k < ports@.len() && k < count ==> #[trigger] ports@[k] & 0x8000u16 != 0 {
            if free_ports(scanned).len() > 0 {
                let k = choose|k: int|
                    0 <= k < scanned.len() && scanned[k] & 0x8000u16 == 0 && free_ports(scanned)[0]
                        == scanned[k] && forall|j: int| 0 <= j < k ==> #[trigger] scanned[j]
                        & 0x8000u16 != 0;
                assert(scanned[k] == ports@[k]);
                assert(ports@[k] & 0x8000u16 != 0);
            }
        }
    }
}

/// What a step after the scan does, in terms of the value the call
/// returned: a negative value ends the session with that value as the
/// error; otherwise an open goes on to configure SPI and I2C (code 3) on the
/// returned handle, or ends a plain open with that handle; a configure goes
/// on to set the session's bitrate; a bitrate call ends with the device of
/// the opened handle.
pub proof fn lemma_returned_step(s: OpenView, value: i32, t: OpenView, action: OpenAction)
    requires
        s.stage == OpenStage::OpenPort || s.stage == OpenStage::Configure || s.stage
            == OpenStage::SetBitrate,
        step_spec(s, OpenEvent::Returned(value), t, action),
    ensures
        value < 0 ==> t.stage == OpenStage::Finished && (s.for_i2c ==> (
        action matches OpenAction::Ready(Err(e)) && e@ == value)) && (!s.for_i2c ==> (
        action matches OpenAction::Opened(Err(e)) && e@ == value)),
        (s.stage == OpenStage::OpenPort && value >= 0) ==> (s.for_i2c ==> action == (
        OpenAction::Configure { handle: value, config: 3 })) && (!s.for_i2c ==> action
            == OpenAction::Opened(Ok(value))),
        (s.stage == OpenStage::Configure && value >= 0) ==> action == (OpenAction::SetBitrate {
            handle: s.handle,
            bitrate_khz: s.bitrate_khz,
        }),
        (s.stage == OpenStage::SetBitrate && value >= 0) ==> (action matches OpenAction::Ready(
            Ok(d)) && d@ == s.handle),
{
}

} // verus!
