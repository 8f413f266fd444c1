//! Constants, the error type, endpoint resolution and the claim sequence.

use crate::descriptor::{
    address_direction, first_in_endpoints, first_in_interfaces, first_in_settings, first_readable,
    lemma_first_readable, lemma_search_finds_first, ConfigDescriptor, Device, DeviceDescriptor,
    Direction, Interface, InterfaceDescriptor, Place, TransferType,
};
use vstd::prelude::*;

verus! {

/// USB vendor id of the device.
pub const VENDOR_ID: u16 = 0xF4CE;

/// USB product id of the device.
pub const PRODUCT_ID: u16 = 0x0003;

/// Size in bytes of the receive buffer of one bulk read.
pub const MAX_BUF_SIZE: usize = 1024;

/// Timeout of a transfer where the caller names none, in milliseconds.
pub const DEFAULT_TIMEOUT: u64 = 20;

/// Why an operation on the device failed.
#[derive(Clone, Copy, Debug, PartialEq, Eq, Structural)]
pub enum Error {
    /// Input/output error, a short control response included.
    Io,
    /// Invalid parameter.
    InvalidParam,
    /// Access denied (insufficient permissions).
    Access,
    /// No such device (it may have been disconnected).
    NoDevice,
    /// No matching device or endpoint.
    NotFound,
    /// Resource busy.
    Busy,
    /// The transfer exceeded its deadline.
    Timeout,
    /// The device offered more data than the buffer holds.
    Overflow,
    /// Pipe error.
    Pipe,
    /// System call interrupted.
    Interrupted,
    /// Insufficient memory.
    NoMem,
    /// Operation not supported on this platform.
    NotSupported,
    /// A string descriptor is unreadable or not ASCII.
    BadDescriptor,
    /// Other error.
    Other,
}

pub type TartResult<T> = Result<T, Error>;

/// An endpoint of the device, together with the interface that owns it.
#[derive(Clone, Copy, Debug, PartialEq, Eq, Structural)]
pub struct Endpoint {
    /// The value that activates the endpoint's configuration.
    pub config: u8,
    pub interface: u8,
    pub setting: u8,
    /// The endpoint's address: its number, and the direction in the top bit.
    pub address: u8,
    /// Whether a kernel driver held the interface when the endpoint was resolved.
    pub has_driver: bool,
}

impl Endpoint {
    /// Whether the endpoint's address has the given direction.
    pub open spec fn serves(&self, direction: Direction) -> bool {
        address_direction(self.address) == direction
    }

    /// An endpoint of an alternate setting, its address not yet known.
    pub fn new(cfg: u8, ix: &InterfaceDescriptor) -> (endpoint: Endpoint)
        ensures
            endpoint == (Endpoint {
                config: cfg,
                interface: ix.interface_number,
                setting: ix.setting_number,
                address: 0,
                has_driver: false,
            }),
    {
        Endpoint {
            config: cfg,
            interface: ix.interface_number,
            setting: ix.setting_number,
            address: 0u8,
            has_driver: false,
        }
    }

    /// The address to read from: the endpoint address as it stands.
    pub fn read_address(&self) -> (address: u8)
        ensures
            address == self.address,
    {
        self.address
    }

    /// The address to write to: the endpoint address with the direction bit
    /// cleared, so the endpoint number as an address of direction out.
    pub fn write_address(&self) -> (address: u8)
        ensures
            address == self.address % 0x80,
            address_direction(address) == Direction::Out,
    {
        let raw: u8 = self.address;
        assert(raw & 0x7f == raw % 0x80) by (bit_vector);
        raw & 0x7f
    }
}

/// Whether a device on the bus, its descriptor read or not, is the one looked for.
pub open spec fn is_axis_usb(device: Option<DeviceDescriptor>) -> bool {
    device matches Some(descriptor) && descriptor.vendor_id == VENDOR_ID && descriptor.product_id
        == PRODUCT_ID
}

/// Finds the device among those on the bus: the index of the first whose
/// descriptor was read and carries the vendor and product id. A device whose
/// descriptor could not be read (`None`) is passed over.
pub fn find_axis_usb(devices: &[Option<DeviceDescriptor>]) -> (found: TartResult<usize>)
    ensures
        match found {
            Ok(index) => {
                &&& index < devices@.len()
                &&& is_axis_usb(devices@[index as int])
                &&& forall|i: int| 0 <= i < index ==> !is_axis_usb(#[trigger] devices@[i])
            },
            Err(error) => {
                &&& error == Error::NotFound
                &&& forall|i: int| 0 <= i < devices@.len() ==> !is_axis_usb(#[trigger] devices@[i])
            },
        },
{
    let mut index: usize = 0;
    while index < devices.len()
        invariant
            index <= devices@.len(),
            forall|i: int| 0 <= i < index ==> !is_axis_usb(#[trigger] devices@[i]),
        decreases devices@.len() - index,
    {
        match devices[index] {
            Some(descriptor) => {
                if descriptor.vendor_id == VENDOR_ID && descriptor.product_id == PRODUCT_ID {
                    return Ok(index);
                }
            },
            None => {},
        }
        index = index + 1;
    }
    Err(Error::NotFound)
}

/// The first of the configurations whose descriptor was read.
fn first_config(configurations: &Vec<Option<ConfigDescriptor>>) -> (config: Option<
    &ConfigDescriptor,
>)
    ensures
        match first_readable(configurations@, 0) {
            Some(n) => config == Some(&configurations@[n]->0),
            None => config is None,
        },
{
    let mut n: usize = 0;
    while n < configurations.len()
        invariant
            n <= configurations@.len(),
            first_readable(configurations@, 0) == first_readable(configurations@, n as int),
        decreases configurations@.len() - n,
    {
        match &configurations[n] {
            Some(config) => {
                return Some(config);
            },
            None => {},
        }
        n = n + 1;
    }
    None
}

/// The index of the configuration whose descriptor is to be read next, given
/// the outcomes of the reads so far and the number of configurations of the
/// device: the next index as long as no descriptor could be read and one is
/// left to try, none after that.
pub open spec fn next_to_read(read: Seq<Option<ConfigDescriptor>>, count: u8) -> Option<u8> {
    if first_readable(read, 0) is None && read.len() < count {
        Some(read.len() as u8)
    } else {
        None
    }
}

/// Says which configuration descriptor to read next while a device is read.
/// The configurations are tried by index, and the first whose descriptor can
/// be read is the last one to be read.
pub fn configuration_to_read(read: &Vec<Option<ConfigDescriptor>>, count: u8) -> (next: Option<u8>)
    ensures
        next == next_to_read(read@, count),
{
    if first_config(read).is_none() && read.len() < count as usize {
        Some(read.len() as u8)
    } else {
        None
    }
}

/// The interface numbers of the alternate settings of one interface, in order.
pub open spec fn setting_numbers(interface: Interface) -> Seq<u8> {
    Seq::new(interface.descriptors@.len(), |j: int| interface.descriptors@[j].interface_number)
}

/// The interface numbers of all alternate settings of the first `upto`
/// interfaces, in order.
pub open spec fn interface_numbers(interfaces: Seq<Interface>, upto: nat) -> Seq<u8>
    decreases upto,
{
    if upto == 0 {
        Seq::empty()
    } else {
        interface_numbers(interfaces, (upto - 1) as nat) + setting_numbers(interfaces[upto - 1])
    }
}

/// Lists the interface number of every alternate setting of every interface,
/// in the device's order, from the first configuration whose descriptor was
/// read. There must be such a configuration.
pub fn find_interfaces(device: &Device) -> (interfaces: Vec<u8>)
    requires
        first_readable(device.configurations@, 0) is Some,
    ensures
        interfaces@ == ({
            let config = device.configurations@[first_readable(device.configurations@, 0)->0]->0;
            interface_numbers(config.interfaces@, config.interfaces@.len())
        }),
{
    let config = match first_config(&device.configurations) {
        Some(config) => config,
        None => {
            return Vec::new();
        },
    };
    let mut interfaces: Vec<u8> = Vec::new();
    let mut i: usize = 0;
    while i < config.interfaces.len()
        invariant
            i <= config.interfaces@.len(),
            interfaces@ == interface_numbers(config.interfaces@, i as nat),
        decreases config.interfaces@.len() - i,
    {
        let interface = &config.interfaces[i];
        let ghost before = interfaces@;
        let mut j: usize = 0;
        while j < interface.descriptors.len()
            invariant
                j <= interface.descriptors@.len(),
                interfaces@ == before + setting_numbers(*interface).subrange(0, j as int),
            decreases interface.descriptors@.len() - j,
        {
            interfaces.push(interface.descriptors[j].interface_number);
            j = j + 1;
        }
        i = i + 1;
    }
    interfaces
}

/// The endpoint at a place of a configuration, as resolution reports it. A
/// kernel driver counts as present only where the kernel said so.
pub open spec fn resolved_at(config: ConfigDescriptor, place: Place) -> Endpoint {
    Endpoint {
        config: config.number,
        interface: config.setting_at(place).interface_number,
        setting: config.setting_at(place).setting_number,
        address: config.endpoint_at(place).address,
        has_driver: config.setting_at(place).kernel_driver == Some(true),
    }
}

/// The first endpoint of a configuration that has the given transfer type and
/// direction.
pub open spec fn resolve_in(
    config: ConfigDescriptor,
    transfer_type: TransferType,
    direction: Direction,
) -> Option<Endpoint> {
    match first_in_interfaces(config.interfaces@, transfer_type, direction, 0) {
        Some(place) => Some(resolved_at(config, place)),
        None => None,
    }
}

/// The first endpoint with the given transfer type and direction in the first
/// configuration of the device whose descriptor was read.
pub open spec fn resolve(device: Device, transfer_type: TransferType, direction: Direction) -> Option<
    Endpoint,
> {
    match first_readable(device.configurations@, 0) {
        Some(n) => resolve_in(device.configurations@[n]->0, transfer_type, direction),
        None => None,
    }
}

/// Resolution picks the first match in the device's order: the endpoint it
/// gives stands at a place that holds a match while no earlier place does, and
/// it gives none only where no configuration could be read or the first
/// readable one holds no match. The endpoint's address has the direction asked
/// for.
pub proof fn lemma_resolution_is_first_match(
    device: Device,
    transfer_type: TransferType,
    direction: Direction,
)
    ensures
        match resolve(device, transfer_type, direction) {
            Some(endpoint) => {
                let n = first_readable(device.configurations@, 0)->0;
                let config = device.configurations@[n]->0;
                let place = first_in_interfaces(config.interfaces@, transfer_type, direction, 0)->0;
                &&& first_readable(device.configurations@, 0) is Some
                &&& forall|m: int| 0 <= m < n ==> (#[trigger] device.configurations@[m]) is None
                &&& config.first_match_at(place, transfer_type, direction)
                &&& endpoint == resolved_at(config, place)
                &&& endpoint.serves(direction)
            },
            None => first_readable(device.configurations@, 0) matches Some(n) ==> forall|
                place: Place,
            |
                !#[trigger] (device.configurations@[n]->0).matches_at(
                    place,
                    transfer_type,
                    direction,
                ),
        },
{
    lemma_first_readable(device.configurations@, 0);
    match first_readable(device.configurations@, 0) {
        Some(n) => {
            lemma_search_finds_first(device.configurations@[n]->0, transfer_type, direction);
        },
        None => {},
    }
}

/// A device whose first readable configuration holds a bulk endpoint in each
/// direction resolves both, each to the first match of its direction. The
/// answer for one direction is a function of the descriptors alone, so it is
/// the same whichever direction is asked for first.
pub proof fn lemma_bulk_pair_resolves(device: Device, bulk_in: Place, bulk_out: Place)
    requires
        first_readable(device.configurations@, 0) is Some,
        (device.configurations@[first_readable(device.configurations@, 0)->0]->0).matches_at(
            bulk_in,
            TransferType::Bulk,
            Direction::In,
        ),
        (device.configurations@[first_readable(device.configurations@, 0)->0]->0).matches_at(
            bulk_out,
            TransferType::Bulk,
            Direction::Out,
        ),
    ensures
        ({
            let config = device.configurations@[first_readable(device.configurations@, 0)->0]->0;
            let first_in = first_in_interfaces(
                config.interfaces@,
                TransferType::Bulk,
                Direction::In,
                0,
            );
            let first_out = first_in_interfaces(
                config.interfaces@,
                TransferType::Bulk,
                Direction::Out,
                0,
            );
            &&& first_in matches Some(place) && config.first_match_at(
                place,
                TransferType::Bulk,
                Direction::In,
            ) && resolve(device, TransferType::Bulk, Direction::In) == Some(
                resolved_at(config, place),
            )
            &&& first_out matches Some(place) && config.first_match_at(
                place,
                TransferType::Bulk,
                Direction::Out,
            ) && resolve(device, TransferType::Bulk, Direction::Out) == Some(
                resolved_at(config, place),
            )
        }),
{
    let config = device.configurations@[first_readable(device.configurations@, 0)->0]->0;
    lemma_search_finds_first(config, TransferType::Bulk, Direction::In);
    lemma_search_finds_first(config, TransferType::Bulk, Direction::Out);
}

/// The index of the first matching endpoint of one alternate setting.
fn find_in_setting(
    setting: &InterfaceDescriptor,
    transfer_type: TransferType,
    direction: Direction,
) -> (found: Option<usize>)
    ensures
        match found {
            Some(k) => {
                &&& k < setting.endpoints@.len()
                &&& first_in_endpoints(setting.endpoints@, transfer_type, direction, 0) == Some(
                    k as int,
                )
            },
            None => first_in_endpoints(setting.endpoints@, transfer_type, direction, 0) is None,
        },
{
    let mut k: usize = 0;
    while k < setting.endpoints.len()
        invariant
            k <= setting.endpoints@.len(),
            first_in_endpoints(setting.endpoints@, transfer_type, direction, 0)
                == first_in_endpoints(setting.endpoints@, transfer_type, direction, k as int),
        decreases setting.endpoints@.len() - k,
    {
        let endpoint = &setting.endpoints[k];
        if endpoint.transfer_type == transfer_type && endpoint.direction() == direction {
            return Some(k);
        }
        k = k + 1;
    }
    None
}

/// The first alternate setting of one interface that holds a match, and the
/// index of the match.
fn find_in_interface(
    interface: &Interface,
    transfer_type: TransferType,
    direction: Direction,
) -> (found: Option<(usize, usize)>)
    ensures
        match found {
            Some((j, k)) => {
                &&& j < interface.descriptors@.len()
                &&& k < interface.descriptors@[j as int].endpoints@.len()
                &&& first_in_settings(interface.descriptors@, transfer_type, direction, 0) == Some(
                    (j as int, k as int),
                )
            },
            None => first_in_settings(interface.descriptors@, transfer_type, direction, 0) is None,
        },
{
    let mut j: usize = 0;
    while j < interface.descriptors.len()
        invariant
            j <= interface.descriptors@.len(),
            first_in_settings(interface.descriptors@, transfer_type, direction, 0)
                == first_in_settings(interface.descriptors@, transfer_type, direction, j as int),
        decreases interface.descriptors@.len() - j,
    {
        match find_in_setting(&interface.descriptors[j], transfer_type, direction) {
            Some(k) => {
                return Some((j, k));
            },
            None => {},
        }
        j = j + 1;
    }
    None
}

/// The first matching endpoint of one configuration.
fn find_in_config(config: &ConfigDescriptor, transfer_type: TransferType, direction: Direction) -> (found:
    Option<Endpoint>)
    ensures
        found == resolve_in(*config, transfer_type, direction),
{
    let mut i: usize = 0;
    while i < config.interfaces.len()
        invariant
            i <= config.interfaces@.len(),
            first_in_interfaces(config.interfaces@, transfer_type, direction, 0)
                == first_in_interfaces(config.interfaces@, transfer_type, direction, i as int),
        decreases config.interfaces@.len() - i,
    {
        match find_in_interface(&config.interfaces[i], transfer_type, direction) {
            Some((j, k)) => {
                let setting = &config.interfaces[i].descriptors[j];
                let has_driver = match setting.kernel_driver {
                    Some(active) => active,
                    None => false,
                };
                return Some(
                    Endpoint {
                        config: config.number,
                        interface: setting.interface_number,
                        setting: setting.setting_number,
                        address: setting.endpoints[k].address,
                        has_driver,
                    },
                );
            },
            None => {},
        }
        i = i + 1;
    }
    None
}

/// Finds the first endpoint with the given transfer type and direction:
/// through the interfaces, their alternate settings and the endpoints of each,
/// in the device's order, of the first configuration whose descriptor was
/// read. The endpoint found has the direction asked for.
pub fn find_endpoint(device: &Device, transfer_type: TransferType, direction: Direction) -> (found:
    Option<Endpoint>)
    ensures
        found == resolve(*device, transfer_type, direction),
        found matches Some(endpoint) ==> endpoint.serves(direction),
{
    proof {
        lemma_resolution_is_first_match(*device, transfer_type, direction);
    }
    match first_config(&device.configurations) {
        Some(config) => find_in_config(config, transfer_type, direction),
        None => None,
    }
}

/// One operation on the open device in the course of claiming or releasing
/// its interfaces.
#[derive(Clone, Copy, Debug, PartialEq, Eq, Structural)]
pub enum Action {
    /// Take the interface from the kernel driver that holds it.
    DetachKernelDriver { interface: u8 },
    /// Activate a configuration.
    SetActiveConfiguration { config: u8 },
    /// Claim an interface.
    ClaimInterface { interface: u8 },
    /// Select an alternate setting of an interface.
    SetAlternateSetting { interface: u8, setting: u8 },
    /// Give the interface back to the kernel driver.
    AttachKernelDriver { interface: u8 },
}

/// What follows from the outcome of an action.
#[derive(Clone, Copy, Debug, PartialEq, Eq, Structural)]
pub enum Verdict {
    /// Go on with the next action.
    Proceed,
    /// Note the error in the log and go on with the next action.
    Tolerated(Error),
    /// Give up the operation and report the error.
    Abort(Error),
    /// The device is left without its kernel driver: end the process.
    Fatal(Error),
}

/// The detach that an endpoint's interface needs before it is claimed: one
/// where a kernel driver held the interface, none otherwise.
pub open spec fn detach_steps(endpoint: Endpoint) -> Seq<Action> {
    if endpoint.has_driver {
        seq![Action::DetachKernelDriver { interface: endpoint.interface }]
    } else {
        Seq::empty()
    }
}

/// The three actions that make an endpoint usable: activate its
/// configuration, claim its interface, select its alternate setting.
pub open spec fn activation_steps(endpoint: Endpoint) -> Seq<Action> {
    seq![
        Action::SetActiveConfiguration { config: endpoint.config },
        Action::ClaimInterface { interface: endpoint.interface },
        Action::SetAlternateSetting { interface: endpoint.interface, setting: endpoint.setting },
    ]
}

/// The claim sequence of one endpoint.
pub open spec fn claim_steps(endpoint: Endpoint) -> Seq<Action> {
    detach_steps(endpoint) + activation_steps(endpoint)
}

/// The claim sequence of a pair of endpoints. On one shared interface the
/// interface is claimed once. On two interfaces the one of the OUT endpoint is
/// claimed first, then the one of the IN endpoint.
pub open spec fn pair_claim_steps(ep_in: Endpoint, ep_out: Endpoint) -> Seq<Action> {
    if ep_in.interface == ep_out.interface {
        detach_steps(ep_in) + activation_steps(ep_out)
    } else {
        claim_steps(ep_out) + claim_steps(ep_in)
    }
}

/// What the outcome of an action means for the sequence it belongs to. A
/// failed detach is tolerated: the claim that follows fails if the detach was
/// needed. A failed attach is fatal. Any other failure ends the sequence with
/// its error.
pub open spec fn verdict_of(action: Action, outcome: TartResult<()>) -> Verdict {
    match outcome {
        Ok(_) => Verdict::Proceed,
        Err(error) => match action {
            Action::DetachKernelDriver { .. } => Verdict::Tolerated(error),
            Action::AttachKernelDriver { .. } => Verdict::Fatal(error),
            _ => Verdict::Abort(error),
        },
    }
}

/// Appends the claim sequence of one endpoint to `plan`.
fn push_claim_steps(plan: &mut Vec<Action>, endpoint: &Endpoint)
    ensures
        final(plan)@ == old(plan)@ + claim_steps(*endpoint),
{
    if endpoint.has_driver {
        plan.push(Action::DetachKernelDriver { interface: endpoint.interface });
    }
    plan.push(Action::SetActiveConfiguration { config: endpoint.config });
    plan.push(Action::ClaimInterface { interface: endpoint.interface });
    plan.push(
        Action::SetAlternateSetting { interface: endpoint.interface, setting: endpoint.setting },
    );
}

/// Plans the claim of one endpoint's interface: detach the kernel driver if
/// one held the interface, activate the configuration, claim the interface,
/// select the alternate setting.
pub fn configure_endpoint(endpoint: &Endpoint) -> (plan: Vec<Action>)
    ensures
        plan@ == claim_steps(*endpoint),
{
    let mut plan: Vec<Action> = Vec::new();
    push_claim_steps(&mut plan, endpoint);
    plan
}

/// Plans the claim of the interfaces of the two data endpoints. Where both
/// lie on one interface it is claimed once; where they do not, the interface
/// of the OUT endpoint comes first and the one of the IN endpoint second.
pub fn configure_endpoints(ep_in: &Endpoint, ep_out: &Endpoint) -> (plan: Vec<Action>)
    ensures
        plan@ == pair_claim_steps(*ep_in, *ep_out),
{
    let mut plan: Vec<Action> = Vec::new();
    if ep_in.interface == ep_out.interface {
        if ep_in.has_driver {
            plan.push(Action::DetachKernelDriver { interface: ep_in.interface });
        }
        plan.push(Action::SetActiveConfiguration { config: ep_out.config });
        plan.push(Action::ClaimInterface { interface: ep_out.interface });
        plan.push(
            Action::SetAlternateSetting { interface: ep_out.interface, setting: ep_out.setting },
        );
    } else {
        push_claim_steps(&mut plan, ep_out);
        push_claim_steps(&mut plan, ep_in);
    }
    plan
}

/// Judges the outcome of one action of a claim or release sequence.
pub fn judge(action: Action, outcome: TartResult<()>) -> (verdict: Verdict)
    ensures
        verdict == verdict_of(action, outcome),
{
    match outcome {
        Ok(_) => Verdict::Proceed,
        Err(error) => match action {
            Action::DetachKernelDriver { .. } => Verdict::Tolerated(error),
            Action::AttachKernelDriver { .. } => Verdict::Fatal(error),
            _ => Verdict::Abort(error),
        },
    }
}

} // verus!
