//! The device session: what a session holds once the device is open, the
//! transfers that its operations ask for, and what their outcomes mean.
//!
//! A session performs no transfer itself. Each operation hands back the
//! transfer to perform as a plain value; the caller performs it on the open
//! device and hands the outcome to the function that reads it.

use crate::common::{
    configure_endpoints, find_endpoint, pair_claim_steps, resolve, Action, Endpoint, Error,
    TartResult, DEFAULT_TIMEOUT, MAX_BUF_SIZE,
};
use crate::descriptor::{Device, Direction, TransferType};
use vstd::prelude::*;
use vstd::slice::slice_to_vec;
use vstd::string::*;

verus! {

/// Register that holds the transmit status.
pub const TRANSMIT_STATUS_REGISTER: u16 = 0x00u16;

/// Register that holds the length of a transfer.
pub const TRANSFER_LENGTH_REGISTER: u16 = 0x01u16;

/// Register that holds the receive status.
pub const RECEIVE_STATUS_REGISTER: u16 = 0x02u16;

/// Address of the endpoint that the device's telemetry is read from.
pub const TELEMETRY_ADDRESS: u8 = 0x83u8;

/// The vendor request that reads or writes a register.
pub const REGISTER_REQUEST: u8 = 0x01u8;

/// Request type of a register read: vendor request, device to host.
pub const REGISTER_READ_TYPE: u8 = 0xC0u8;

/// Request type of a register write: vendor request, host to device.
pub const REGISTER_WRITE_TYPE: u8 = 0x40u8;

/// A control transfer that reads from the device.
#[derive(Clone, Copy, Debug, PartialEq, Eq, Structural)]
pub struct ControlIn {
    pub request_type: u8,
    pub request: u8,
    pub value: u16,
    pub index: u16,
    /// The number of bytes to ask for.
    pub length: usize,
    pub timeout_ms: u64,
}

/// A control transfer that writes two bytes to the device.
#[derive(Clone, Copy, Debug, PartialEq, Eq)]
pub struct ControlOut {
    pub request_type: u8,
    pub request: u8,
    pub value: u16,
    pub index: u16,
    pub data: [u8; 2],
    pub timeout_ms: u64,
}

/// A bulk transfer that reads from an endpoint.
#[derive(Clone, Copy, Debug, PartialEq, Eq, Structural)]
pub struct BulkIn {
    pub endpoint: u8,
    /// The size of the receive buffer.
    pub length: usize,
    pub timeout_ms: u64,
}

/// A bulk transfer that writes to an endpoint.
#[derive(Clone, Debug, PartialEq, Eq)]
pub struct BulkOut {
    pub endpoint: u8,
    pub data: Vec<u8>,
    pub timeout_ms: u64,
}

/// The timeout of a transfer: the one the caller names, or the default.
pub open spec fn timeout_or_default(timeout: Option<u64>) -> u64 {
    match timeout {
        Some(ms) => ms,
        None => DEFAULT_TIMEOUT,
    }
}

/// The two bytes that carry a register value, low byte first.
pub open spec fn register_bytes(value: u16) -> Seq<u8> {
    seq![(value % 0x100) as u8, (value / 0x100) as u8]
}

/// The register value that two bytes carry, low byte first.
pub open spec fn register_of(bytes: Seq<u8>) -> u16 {
    (bytes[0] + 0x100 * bytes[1]) as u16
}

/// What the outcome of a register read means: the value, where exactly two
/// bytes arrived; an input/output error, where another number did; the
/// transfer's own error, where it failed.
pub open spec fn register_read(response: Seq<u8>, outcome: TartResult<usize>) -> TartResult<u16> {
    match outcome {
        Ok(transferred) => if transferred == 2 {
            Ok(register_of(response))
        } else {
            Err(Error::Io)
        },
        Err(error) => Err(error),
    }
}

/// What the outcome of a bulk read means: the bytes that arrived, or the
/// transfer's error.
pub open spec fn bulk_read(buffer: Seq<u8>, outcome: TartResult<usize>) -> TartResult<Seq<u8>> {
    match outcome {
        Ok(transferred) => Ok(buffer.subrange(0, transferred as int)),
        Err(error) => Err(error),
    }
}

/// The telemetry endpoint that goes with the IN endpoint of a session: on the
/// same configuration, interface and alternate setting, at its own address.
pub open spec fn telemetry_of(ep_in: Endpoint) -> Endpoint {
    Endpoint {
        config: ep_in.config,
        interface: ep_in.interface,
        setting: ep_in.setting,
        address: TELEMETRY_ADDRESS,
        has_driver: false,
    }
}

/// The interfaces that a session claims: the one of the IN endpoint, and the
/// one of the OUT endpoint where it is another.
pub open spec fn claimed_interfaces(ep_in: Endpoint, ep_out: Endpoint) -> Seq<u8> {
    if ep_in.interface == ep_out.interface {
        seq![ep_in.interface]
    } else {
        seq![ep_in.interface, ep_out.interface]
    }
}

/// What a session holds.
pub struct SessionView {
    pub interfaces: Seq<u8>,
    pub ep_in: Endpoint,
    pub ep_out: Endpoint,
    pub telemetry: Endpoint,
    pub vendor: Seq<char>,
    pub label: Seq<char>,
    pub serial: Seq<char>,
}

impl SessionView {
    /// What holds of every session: each data endpoint has the direction it
    /// was resolved for, the telemetry endpoint and the list of interfaces
    /// follow from the data endpoints, and the strings are ASCII.
    pub open spec fn wf(self) -> bool {
        &&& self.ep_in.serves(Direction::In)
        &&& self.ep_out.serves(Direction::Out)
        &&& self.telemetry == telemetry_of(self.ep_in)
        &&& self.telemetry.serves(Direction::In)
        &&& self.interfaces == claimed_interfaces(self.ep_in, self.ep_out)
        &&& vstd::utf8::is_ascii_chars(self.vendor)
        &&& vstd::utf8::is_ascii_chars(self.label)
        &&& vstd::utf8::is_ascii_chars(self.serial)
    }

    /// The actions that claim the session's interfaces.
    pub open spec fn claim_steps(self) -> Seq<Action> {
        pair_claim_steps(self.ep_in, self.ep_out)
    }

    /// The actions that release the session: one attach, of the interface of
    /// the IN endpoint, where a kernel driver held that interface; none
    /// otherwise.
    pub open spec fn release_steps(self) -> Seq<Action> {
        if self.ep_in.has_driver {
            seq![Action::AttachKernelDriver { interface: self.ep_in.interface }]
        } else {
            Seq::empty()
        }
    }
}

/// The session that opening a device gives: an error where one of its strings
/// is not ASCII, or where it lacks a bulk endpoint in either direction.
pub open spec fn opened(device: Device) -> TartResult<SessionView> {
    if !(vstd::utf8::is_ascii_chars(device.manufacturer@) && vstd::utf8::is_ascii_chars(
        device.product@,
    ) && vstd::utf8::is_ascii_chars(device.serial_number@)) {
        Err(Error::BadDescriptor)
    } else {
        match (
            resolve(device, TransferType::Bulk, Direction::In),
            resolve(device, TransferType::Bulk, Direction::Out),
        ) {
            (Some(ep_in), Some(ep_out)) => Ok(
                SessionView {
                    interfaces: claimed_interfaces(ep_in, ep_out),
                    ep_in,
                    ep_out,
                    telemetry: telemetry_of(ep_in),
                    vendor: device.manufacturer@,
                    label: device.product@,
                    serial: device.serial_number@,
                },
            ),
            _ => Err(Error::NotFound),
        }
    }
}

/// A session with the device.
#[derive(Debug, PartialEq)]
pub struct AxisUSB {
    interfaces: Vec<u8>,
    ep_in: Endpoint,
    ep_out: Endpoint,
    telemetry: Endpoint,
    vendor: String,
    label: String,
    serial: String,
}

impl View for AxisUSB {
    type V = SessionView;

    closed spec fn view(&self) -> SessionView {
        SessionView {
            interfaces: self.interfaces@,
            ep_in: self.ep_in,
            ep_out: self.ep_out,
            telemetry: self.telemetry,
            vendor: self.vendor@,
            label: self.label@,
            serial: self.serial@,
        }
    }
}

impl AxisUSB {
    #[verifier::type_invariant]
    closed spec fn valid(&self) -> bool {
        self@.wf()
    }

    /// Opens a session on a device as it was read: takes its three strings,
    /// resolves the bulk IN and the bulk OUT endpoint, and derives the
    /// telemetry endpoint. The interfaces are not claimed yet: `claim` says
    /// how.
    pub fn open(device: &Device) -> (session: TartResult<AxisUSB>)
        ensures
            match session {
                Ok(session) => opened(*device) == Ok::<SessionView, Error>(session@) && session@.wf(),
                Err(error) => opened(*device) == Err::<SessionView, Error>(error),
            },
    {
        if !(device.manufacturer.is_ascii() && device.product.is_ascii()
            && device.serial_number.is_ascii()) {
            return Err(Error::BadDescriptor);
        }
        let vendor = device.manufacturer.clone();
        let label = device.product.clone();
        let serial = device.serial_number.clone();

        let mut interfaces: Vec<u8> = Vec::with_capacity(2);
        let ep_in = match find_endpoint(device, TransferType::Bulk, Direction::In) {
            Some(endpoint) => endpoint,
            None => {
                return Err(Error::NotFound);
            },
        };
        interfaces.push(ep_in.interface);

        let ep_out = match find_endpoint(device, TransferType::Bulk, Direction::Out) {
            Some(endpoint) => endpoint,
            None => {
                return Err(Error::NotFound);
            },
        };
        if ep_in.interface != ep_out.interface {
            interfaces.push(ep_out.interface);
        }
        let telemetry = Endpoint {
            config: ep_in.config,
            interface: ep_in.interface,
            setting: ep_in.setting,
            address: TELEMETRY_ADDRESS,
            has_driver: false,
        };
        assert(interfaces@ =~= claimed_interfaces(ep_in, ep_out));
        Ok(AxisUSB { interfaces, ep_in, ep_out, telemetry, vendor, label, serial })
    }

    /// The manufacturer string of the device.
    pub fn vendor(&self) -> (vendor: String)
        ensures
            vendor@ == self@.vendor,
    {
        self.vendor.clone()
    }

    /// The product string of the device.
    pub fn product(&self) -> (product: String)
        ensures
            product@ == self@.label,
    {
        self.label.clone()
    }

    /// The serial number string of the device.
    pub fn serial_number(&self) -> (serial: String)
        ensures
            serial@ == self@.serial,
    {
        self.serial.clone()
    }

    /// The telemetry endpoint.
    pub fn telemetry(&self) -> (endpoint: Endpoint)
        ensures
            endpoint == self@.telemetry,
            endpoint == telemetry_of(self@.ep_in),
    {
        proof {
            use_type_invariant(self);
        }
        self.telemetry
    }

    /// The actions that claim the interfaces of the session, in order. Each is
    /// performed on the open device and its outcome judged; the session is
    /// usable once all are through.
    pub fn claim(&self) -> (plan: Vec<Action>)
        ensures
            plan@ == self@.claim_steps(),
    {
        configure_endpoints(&self.ep_in, &self.ep_out)
    }

    /// The actions that release the session: the kernel driver is given back
    /// the interface of the IN endpoint, where it held that interface when the
    /// session was opened.
    pub fn release(&self) -> (plan: Vec<Action>)
        ensures
            plan@ == self@.release_steps(),
    {
        let mut plan: Vec<Action> = Vec::new();
        if self.ep_in.has_driver {
            plan.push(Action::AttachKernelDriver { interface: self.ep_in.interface });
        }
        plan
    }

    /// The control transfer that reads a register: a vendor request, device to
    /// host, that names the register in its value field and asks for two
    /// bytes.
    pub fn read_register(&self, register: u16, timeout: Option<u64>) -> (transfer: ControlIn)
        ensures
            transfer == (ControlIn {
                request_type: REGISTER_READ_TYPE,
                request: REGISTER_REQUEST,
                value: register,
                index: 0,
                length: 2,
                timeout_ms: timeout_or_default(timeout),
            }),
    {
        ControlIn {
            request_type: REGISTER_READ_TYPE,
            request: REGISTER_REQUEST,
            value: register,
            index: 0,
            length: 2,
            timeout_ms: timeout_of(timeout),
        }
    }

    /// The value that a register read brought: `response` is the receive
    /// buffer of the transfer, `outcome` the number of bytes that arrived or
    /// the transfer's error.
    pub fn register_value(response: [u8; 2], outcome: TartResult<usize>) -> (value: TartResult<u16>)
        ensures
            value == register_read(response@, outcome),
    {
        match outcome {
            Ok(transferred) => {
                if transferred == 2 {
                    let low: u16 = response[0] as u16;
                    let high: u16 = response[1] as u16;
                    Ok(low + 0x100 * high)
                } else {
                    Err(Error::Io)
                }
            },
            Err(error) => Err(error),
        }
    }

    /// The control transfer that writes a register: a vendor request, host to
    /// device, that names the register in its value field and carries the
    /// value in two bytes, low byte first. The number of bytes written that
    /// the transfer reports is the caller's to check.
    pub fn write_register(&self, register: u16, value: u16, timeout: Option<u64>) -> (transfer:
        ControlOut)
        ensures
            transfer.request_type == REGISTER_WRITE_TYPE,
            transfer.request == REGISTER_REQUEST,
            transfer.value == register,
            transfer.index == 0,
            transfer.data@ == register_bytes(value),
            transfer.timeout_ms == timeout_or_default(timeout),
    {
        let data: [u8; 2] = [(value % 0x100) as u8, (value / 0x100) as u8];
        ControlOut {
            request_type: REGISTER_WRITE_TYPE,
            request: REGISTER_REQUEST,
            value: register,
            index: 0,
            data,
            timeout_ms: timeout_of(timeout),
        }
    }

    /// The bulk transfer that reads from the IN endpoint into a buffer of
    /// `MAX_BUF_SIZE` bytes.
    pub fn try_read(&self, timeout: Option<u64>) -> (transfer: BulkIn)
        ensures
            transfer == (BulkIn {
                endpoint: self@.ep_in.address,
                length: MAX_BUF_SIZE,
                timeout_ms: timeout_or_default(timeout),
            }),
            self@.ep_in.serves(Direction::In),
    {
        proof {
            use_type_invariant(self);
        }
        BulkIn {
            endpoint: self.ep_in.read_address(),
            length: MAX_BUF_SIZE,
            timeout_ms: timeout_of(timeout),
        }
    }

    /// The bytes that a bulk read brought: the front of the receive buffer, as
    /// long as the transfer says. A read that brought few bytes or none is no
    /// error. The transfer cannot have brought more than the buffer holds.
    pub fn received(buffer: &[u8], outcome: TartResult<usize>) -> (bytes: TartResult<Vec<u8>>)
        requires
            outcome matches Ok(transferred) ==> transferred <= buffer@.len(),
        ensures
            match bytes {
                Ok(bytes) => bulk_read(buffer@, outcome) == Ok::<Seq<u8>, Error>(bytes@),
                Err(error) => bulk_read(buffer@, outcome) == Err::<Seq<u8>, Error>(error),
            },
    {
        match outcome {
            Ok(transferred) => Ok(slice_to_vec(vstd::slice::slice_subrange(buffer, 0, transferred))),
            Err(error) => Err(error),
        }
    }

    /// The bulk transfer that writes all of `bytes` to the OUT endpoint, with
    /// the default timeout.
    pub fn write(&self, bytes: &[u8]) -> (transfer: BulkOut)
        ensures
            transfer.endpoint == self@.ep_out.address,
            transfer.data@ == bytes@,
            transfer.timeout_ms == DEFAULT_TIMEOUT,
            self@.ep_out.serves(Direction::Out),
    {
        proof {
            use_type_invariant(self);
        }
        BulkOut {
            endpoint: self.ep_out.write_address(),
            data: slice_to_vec(bytes),
            timeout_ms: DEFAULT_TIMEOUT,
        }
    }

    /// The bulk transfer that reads from the telemetry endpoint into a buffer
    /// of `MAX_BUF_SIZE` bytes, with the default timeout.
    pub fn read_telemetry(&self) -> (transfer: BulkIn)
        ensures
            transfer == (BulkIn {
                endpoint: TELEMETRY_ADDRESS,
                length: MAX_BUF_SIZE,
                timeout_ms: DEFAULT_TIMEOUT,
            }),
    {
        proof {
            use_type_invariant(self);
        }
        BulkIn {
            endpoint: self.telemetry.read_address(),
            length: MAX_BUF_SIZE,
            timeout_ms: DEFAULT_TIMEOUT,
        }
    }
}

/// The timeout of a transfer.
fn timeout_of(timeout: Option<u64>) -> (ms: u64)
    ensures
        ms == timeout_or_default(timeout),
{
    match timeout {
        Some(ms) => ms,
        None => DEFAULT_TIMEOUT,
    }
}

/// A register value that is written and read back comes back as it was: the
/// two bytes that a write carries, handed to a read as its response, give the
/// value written.
pub proof fn lemma_register_round_trip(value: u16)
    ensures
        register_bytes(value).len() == 2,
        register_read(register_bytes(value), Ok(2)) == Ok::<u16, Error>(value),
{
}

/// A session whose claim takes the interface of the IN endpoint from a kernel
/// driver gives it back at release: with one attach, of that interface, and
/// with none of the interface of the OUT endpoint where that is another.
pub proof fn lemma_release_reattaches_once(session: SessionView)
    requires
        session.wf(),
        session.claim_steps().contains(
            Action::DetachKernelDriver { interface: session.ep_in.interface },
        ),
    ensures
        session.release_steps() == seq![
            Action::AttachKernelDriver { interface: session.ep_in.interface },
        ],
        session.ep_in.interface != session.ep_out.interface ==> !session.release_steps().contains(
            Action::AttachKernelDriver { interface: session.ep_out.interface },
        ),
{
    let detach = Action::DetachKernelDriver { interface: session.ep_in.interface };
    let steps = session.claim_steps();
    let i = choose|i: int| 0 <= i < steps.len() && steps[i] == detach;
    assert(steps[i] == detach);
    assert(session.ep_in.has_driver);
}

/// A release holds at most one action, and never anything but an attach of
/// the interface of the IN endpoint.
pub proof fn lemma_release_touches_in_only(session: SessionView)
    ensures
        session.release_steps().len() <= 1,
        forall|i: int|
            0 <= i < session.release_steps().len() ==> #[trigger] session.release_steps()[i]
                == (Action::AttachKernelDriver { interface: session.ep_in.interface }),
        session.release_steps().len() == 1 <==> session.ep_in.has_driver,
{
}

} // verus!
