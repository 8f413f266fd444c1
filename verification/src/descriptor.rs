//! What the host knows of a device before a session is opened: its
//! configurations, interfaces, alternate settings and endpoints, each held as
//! plain values in the order in which the device lists them.

use vstd::prelude::*;

verus! {

/// Direction of a transfer, seen from the host.
#[derive(Clone, Copy, Debug, PartialEq, Eq, Structural)]
pub enum Direction {
    /// Device to host.
    In,
    /// Host to device.
    Out,
}

/// How an endpoint moves its data.
#[derive(Clone, Copy, Debug, PartialEq, Eq, Structural)]
pub enum TransferType {
    Control,
    Isochronous,
    Bulk,
    Interrupt,
}

/// The direction that an endpoint address encodes in its top bit.
pub open spec fn address_direction(address: u8) -> Direction {
    if address >= 0x80 {
        Direction::In
    } else {
        Direction::Out
    }
}

/// One endpoint of an alternate setting.
#[derive(Clone, Copy, Debug, PartialEq, Eq, Structural)]
pub struct EndpointDescriptor {
    /// The endpoint's address: its number, and the direction in the top bit.
    pub address: u8,
    pub transfer_type: TransferType,
}

impl EndpointDescriptor {
    /// Whether the endpoint has the given transfer type and direction.
    pub open spec fn serves(&self, transfer_type: TransferType, direction: Direction) -> bool {
        self.transfer_type == transfer_type && address_direction(self.address) == direction
    }

    /// The direction of the endpoint.
    pub fn direction(&self) -> (direction: Direction)
        ensures
            direction == address_direction(self.address),
    {
        if self.address >= 0x80 {
            Direction::In
        } else {
            Direction::Out
        }
    }
}

/// One alternate setting of an interface.
#[derive(Clone, Debug, PartialEq, Eq)]
pub struct InterfaceDescriptor {
    pub interface_number: u8,
    pub setting_number: u8,
    /// What the kernel said when asked whether one of its drivers holds the
    /// interface; `None` where it gave no answer.
    pub kernel_driver: Option<bool>,
    pub endpoints: Vec<EndpointDescriptor>,
}

/// An interface: its alternate settings.
#[derive(Clone, Debug, PartialEq, Eq)]
pub struct Interface {
    pub descriptors: Vec<InterfaceDescriptor>,
}

/// One configuration of a device.
#[derive(Clone, Debug, PartialEq, Eq)]
pub struct ConfigDescriptor {
    /// The value that activates the configuration.
    pub number: u8,
    pub interfaces: Vec<Interface>,
}

/// The ids by which a device on the bus is told from the others.
#[derive(Clone, Copy, Debug, PartialEq, Eq, Structural)]
pub struct DeviceDescriptor {
    pub vendor_id: u16,
    pub product_id: u16,
}

/// A device as it was read before a session is opened.
#[derive(Clone, Debug, PartialEq, Eq)]
pub struct Device {
    pub manufacturer: String,
    pub product: String,
    pub serial_number: String,
    /// The configurations that were tried, by index; `None` where the
    /// descriptor could not be read.
    pub configurations: Vec<Option<ConfigDescriptor>>,
}

/// A place in a configuration: an endpoint of an alternate setting of an
/// interface, each given by its index.
pub struct Place {
    pub interface: int,
    pub setting: int,
    pub endpoint: int,
}

/// Whether the device lists place `a` before place `b`.
pub open spec fn precedes(a: Place, b: Place) -> bool {
    ||| a.interface < b.interface
    ||| a.interface == b.interface && a.setting < b.setting
    ||| a.interface == b.interface && a.setting == b.setting && a.endpoint < b.endpoint
}

impl ConfigDescriptor {
    /// Whether the place names an endpoint of the configuration.
    pub open spec fn has(&self, place: Place) -> bool {
        &&& 0 <= place.interface < self.interfaces@.len()
        &&& 0 <= place.setting < self.interfaces@[place.interface].descriptors@.len()
        &&& 0 <= place.endpoint
            < self.interfaces@[place.interface].descriptors@[place.setting].endpoints@.len()
    }

    /// The alternate setting of a place.
    pub open spec fn setting_at(&self, place: Place) -> InterfaceDescriptor {
        self.interfaces@[place.interface].descriptors@[place.setting]
    }

    /// The endpoint at a place.
    pub open spec fn endpoint_at(&self, place: Place) -> EndpointDescriptor {
        self.setting_at(place).endpoints@[place.endpoint]
    }

    /// Whether the place holds an endpoint of the given transfer type and
    /// direction.
    pub open spec fn matches_at(
        &self,
        place: Place,
        transfer_type: TransferType,
        direction: Direction,
    ) -> bool {
        self.has(place) && self.endpoint_at(place).serves(transfer_type, direction)
    }

    /// Whether the place holds the first endpoint of the given transfer type
    /// and direction, in the order in which the device lists them.
    pub open spec fn first_match_at(
        &self,
        place: Place,
        transfer_type: TransferType,
        direction: Direction,
    ) -> bool {
        &&& self.matches_at(place, transfer_type, direction)
        &&& forall|other: Place|
            precedes(other, place) ==> !#[trigger] self.matches_at(
                other,
                transfer_type,
                direction,
            )
    }
}

/// The index of the first endpoint from `from` on that has the given transfer
/// type and direction.
pub open spec fn first_in_endpoints(
    endpoints: Seq<EndpointDescriptor>,
    transfer_type: TransferType,
    direction: Direction,
    from: int,
) -> Option<int>
    decreases endpoints.len() - from,
{
    if from < 0 || from >= endpoints.len() {
        None
    } else if endpoints[from].serves(transfer_type, direction) {
        Some(from)
    } else {
        first_in_endpoints(endpoints, transfer_type, direction, from + 1)
    }
}

/// The first alternate setting from `from` on that has such an endpoint, and
/// the index of its first such endpoint.
pub open spec fn first_in_settings(
    settings: Seq<InterfaceDescriptor>,
    transfer_type: TransferType,
    direction: Direction,
    from: int,
) -> Option<(int, int)>
    decreases settings.len() - from,
{
    if from < 0 || from >= settings.len() {
        None
    } else {
        match first_in_endpoints(settings[from].endpoints@, transfer_type, direction, 0) {
            Some(endpoint) => Some((from, endpoint)),
            None => first_in_settings(settings, transfer_type, direction, from + 1),
        }
    }
}

/// The place of the first such endpoint in the interfaces from `from` on.
pub open spec fn first_in_interfaces(
    interfaces: Seq<Interface>,
    transfer_type: TransferType,
    direction: Direction,
    from: int,
) -> Option<Place>
    decreases interfaces.len() - from,
{
    if from < 0 || from >= interfaces.len() {
        None
    } else {
        match first_in_settings(interfaces[from].descriptors@, transfer_type, direction, 0) {
            Some((setting, endpoint)) => Some(Place { interface: from, setting, endpoint }),
            None => first_in_interfaces(interfaces, transfer_type, direction, from + 1),
        }
    }
}

/// The index of the first configuration from `from` on whose descriptor was
/// read.
pub open spec fn first_readable(configurations: Seq<Option<ConfigDescriptor>>, from: int) -> Option<
    int,
>
    decreases configurations.len() - from,
{
    if from < 0 || from >= configurations.len() {
        None
    } else if configurations[from] is Some {
        Some(from)
    } else {
        first_readable(configurations, from + 1)
    }
}

/// The first match among the endpoints of one setting is a match, and none
/// stands between `from` and it.
pub proof fn lemma_first_in_endpoints(
    endpoints: Seq<EndpointDescriptor>,
    transfer_type: TransferType,
    direction: Direction,
    from: int,
)
    requires
        0 <= from,
    ensures
        match first_in_endpoints(endpoints, transfer_type, direction, from) {
            Some(found) => {
                &&& from <= found < endpoints.len()
                &&& endpoints[found].serves(transfer_type, direction)
                &&& forall|k: int|
                    from <= k < found ==> !(#[trigger] endpoints[k]).serves(
                        transfer_type,
                        direction,
                    )
            },
            None => forall|k: int|
                from <= k < endpoints.len() ==> !(#[trigger] endpoints[k]).serves(
                    transfer_type,
                    direction,
                ),
        },
    decreases endpoints.len() - from,
{
    if from < endpoints.len() && !endpoints[from].serves(transfer_type, direction) {
        lemma_first_in_endpoints(endpoints, transfer_type, direction, from + 1);
    }
}

/// The first match among the settings of one interface is a first match in
/// its setting, and no setting between `from` and it holds a match.
pub proof fn lemma_first_in_settings(
    settings: Seq<InterfaceDescriptor>,
    transfer_type: TransferType,
    direction: Direction,
    from: int,
)
    requires
        0 <= from,
    ensures
        match first_in_settings(settings, transfer_type, direction, from) {
            Some((setting, endpoint)) => {
                &&& from <= setting < settings.len()
                &&& first_in_endpoints(settings[setting].endpoints@, transfer_type, direction, 0)
                    == Some(endpoint)
                &&& forall|j: int|
                    from <= j < setting ==> #[trigger] first_in_endpoints(
                        settings[j].endpoints@,
                        transfer_type,
                        direction,
                        0,
                    ) is None
            },
            None => forall|j: int|
                from <= j < settings.len() ==> #[trigger] first_in_endpoints(
                    settings[j].endpoints@,
                    transfer_type,
                    direction,
                    0,
                ) is None,
        },
    decreases settings.len() - from,
{
    if from < settings.len() && first_in_endpoints(
        settings[from].endpoints@,
        transfer_type,
        direction,
        0,
    ) is None {
        lemma_first_in_settings(settings, transfer_type, direction, from + 1);
    }
}

/// The first match among the interfaces is a first match in its interface,
/// and no interface between `from` and it holds a match.
pub proof fn lemma_first_in_interfaces(
    interfaces: Seq<Interface>,
    transfer_type: TransferType,
    direction: Direction,
    from: int,
)
    requires
        0 <= from,
    ensures
        match first_in_interfaces(interfaces, transfer_type, direction, from) {
            Some(place) => {
                &&& from <= place.interface < interfaces.len()
                &&& first_in_settings(
                    interfaces[place.interface].descriptors@,
                    transfer_type,
                    direction,
                    0,
                ) == Some((place.setting, place.endpoint))
                &&& forall|i: int|
                    from <= i < place.interface ==> #[trigger] first_in_settings(
                        interfaces[i].descriptors@,
                        transfer_type,
                        direction,
                        0,
                    ) is None
            },
            None => forall|i: int|
                from <= i < interfaces.len() ==> #[trigger] first_in_settings(
                    interfaces[i].descriptors@,
                    transfer_type,
                    direction,
                    0,
                ) is None,
        },
    decreases interfaces.len() - from,
{
    if from < interfaces.len() && first_in_settings(
        interfaces[from].descriptors@,
        transfer_type,
        direction,
        0,
    ) is None {
        lemma_first_in_interfaces(interfaces, transfer_type, direction, from + 1);
    }
}

/// The first readable configuration is readable, and none before it is.
pub proof fn lemma_first_readable(configurations: Seq<Option<ConfigDescriptor>>, from: int)
    requires
        0 <= from,
    ensures
        match first_readable(configurations, from) {
            Some(found) => {
                &&& from <= found < configurations.len()
                &&& configurations[found] is Some
                &&& forall|n: int| from <= n < found ==> (#[trigger] configurations[n]) is None
            },
            None => forall|n: int|
                from <= n < configurations.len() ==> (#[trigger] configurations[n]) is None,
        },
    decreases configurations.len() - from,
{
    if from < configurations.len() && configurations[from] is None {
        lemma_first_readable(configurations, from + 1);
    }
}

/// A place that holds no match: the searches of its interface, of its setting
/// and of its endpoints say so.
proof fn lemma_no_match_at(
    config: ConfigDescriptor,
    transfer_type: TransferType,
    direction: Direction,
    place: Place,
)
    requires
        config.has(place),
        ({
            ||| first_in_settings(
                config.interfaces@[place.interface].descriptors@,
                transfer_type,
                direction,
                0,
            ) is None
            ||| first_in_endpoints(
                config.setting_at(place).endpoints@,
                transfer_type,
                direction,
                0,
            ) is None
            ||| (first_in_endpoints(
                config.setting_at(place).endpoints@,
                transfer_type,
                direction,
                0,
            ) matches Some(first) && place.endpoint < first)
        }),
    ensures
        !config.matches_at(place, transfer_type, direction),
{
    let settings = config.interfaces@[place.interface].descriptors@;
    let endpoints = config.setting_at(place).endpoints@;
    lemma_first_in_settings(settings, transfer_type, direction, 0);
    lemma_first_in_endpoints(endpoints, transfer_type, direction, 0);
    if first_in_settings(settings, transfer_type, direction, 0) is None {
        assert(first_in_endpoints(settings[place.setting].endpoints@, transfer_type, direction, 0)
            is None);
    }
}

/// The search of a configuration finds the first match in the order of the
/// device's list, and finds none only where there is none.
pub proof fn lemma_search_finds_first(
    config: ConfigDescriptor,
    transfer_type: TransferType,
    direction: Direction,
)
    ensures
        match first_in_interfaces(config.interfaces@, transfer_type, direction, 0) {
            Some(place) => config.first_match_at(place, transfer_type, direction),
            None => forall|place: Place|
                !#[trigger] config.matches_at(place, transfer_type, direction),
        },
{
    let interfaces = config.interfaces@;
    lemma_first_in_interfaces(interfaces, transfer_type, direction, 0);
    match first_in_interfaces(interfaces, transfer_type, direction, 0) {
        Some(place) => {
            let settings = interfaces[place.interface].descriptors@;
            lemma_first_in_settings(settings, transfer_type, direction, 0);
            let endpoints = settings[place.setting].endpoints@;
            lemma_first_in_endpoints(endpoints, transfer_type, direction, 0);
            assert forall|other: Place| precedes(other, place) implies !#[trigger] config.matches_at(
                other,
                transfer_type,
                direction,
            ) by {
                if config.has(other) {
                    if other.interface < place.interface {
                        assert(first_in_settings(
                            interfaces[other.interface].descriptors@,
                            transfer_type,
                            direction,
                            0,
                        ) is None);
                    } else if other.setting < place.setting {
                        assert(first_in_endpoints(
                            settings[other.setting].endpoints@,
                            transfer_type,
                            direction,
                            0,
                        ) is None);
                    }
                    lemma_no_match_at(config, transfer_type, direction, other);
                }
            }
        },
        None => {
            assert forall|place: Place| !#[trigger] config.matches_at(
                place,
                transfer_type,
                direction,
            ) by {
                if config.has(place) {
                    assert(first_in_settings(
                        interfaces[place.interface].descriptors@,
                        transfer_type,
                        direction,
                        0,
                    ) is None);
                    lemma_no_match_at(config, transfer_type, direction, place);
                }
            }
        },
    }
}

} // verus!
