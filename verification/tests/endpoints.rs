use driver::common::{
    configuration_to_read, configure_endpoint, configure_endpoints, find_axis_usb, find_endpoint,
    find_interfaces, judge, Action, Endpoint, Error, Verdict, PRODUCT_ID, VENDOR_ID,
};
use driver::descriptor::{
    ConfigDescriptor, Device, DeviceDescriptor, Direction, EndpointDescriptor, Interface,
    InterfaceDescriptor, TransferType,
};

fn endpoint(address: u8, transfer_type: TransferType) -> EndpointDescriptor {
    EndpointDescriptor { address, transfer_type }
}

fn setting(
    interface_number: u8,
    setting_number: u8,
    kernel_driver: Option<bool>,
    endpoints: Vec<EndpointDescriptor>,
) -> InterfaceDescriptor {
    InterfaceDescriptor { interface_number, setting_number, kernel_driver, endpoints }
}

fn device(configurations: Vec<Option<ConfigDescriptor>>) -> Device {
    Device {
        manufacturer: String::from("University of Otago"),
        product: String::from("TART USB"),
        serial_number: String::from("TART0001"),
        configurations,
    }
}

/// One configuration, two interfaces: interrupt and bulk endpoints on the
/// first, a second pair of bulk endpoints on the second.
fn two_interfaces() -> Device {
    device(vec![Some(ConfigDescriptor {
        number: 1,
        interfaces: vec![
            Interface {
                descriptors: vec![
                    setting(0, 0, Some(true), vec![endpoint(0x84, TransferType::Interrupt)]),
                    setting(
                        0,
                        1,
                        Some(true),
                        vec![
                            endpoint(0x02, TransferType::Bulk),
                            endpoint(0x81, TransferType::Bulk),
                            endpoint(0x85, TransferType::Bulk),
                        ],
                    ),
                ],
            },
            Interface {
                descriptors: vec![setting(
                    1,
                    0,
                    Some(false),
                    vec![endpoint(0x86, TransferType::Bulk), endpoint(0x07, TransferType::Bulk)],
                )],
            },
        ],
    })])
}

#[test]
fn read_address_is_the_address() {
    let ep = Endpoint { config: 1, interface: 0, setting: 0, address: 0x81, has_driver: false };
    assert_eq!(ep.read_address(), 0x81);
}

#[test]
fn write_address_clears_the_direction_bit() {
    let ep = Endpoint { config: 1, interface: 0, setting: 0, address: 0x81, has_driver: false };
    assert_eq!(ep.write_address(), 0x01);
    let out = Endpoint { config: 1, interface: 0, setting: 0, address: 0x02, has_driver: false };
    assert_eq!(out.write_address(), 0x02);
    let top = Endpoint { config: 1, interface: 0, setting: 0, address: 0xFF, has_driver: false };
    assert_eq!(top.write_address(), 0x7F);
}

#[test]
fn new_endpoint_has_no_address_and_no_driver() {
    let ix = setting(3, 2, Some(true), vec![endpoint(0x81, TransferType::Bulk)]);
    let ep = Endpoint::new(5, &ix);
    assert_eq!(
        ep,
        Endpoint { config: 5, interface: 3, setting: 2, address: 0, has_driver: false }
    );
}

#[test]
fn endpoint_direction_follows_the_top_bit() {
    assert_eq!(endpoint(0x80, TransferType::Bulk).direction(), Direction::In);
    assert_eq!(endpoint(0xFF, TransferType::Bulk).direction(), Direction::In);
    assert_eq!(endpoint(0x7F, TransferType::Bulk).direction(), Direction::Out);
    assert_eq!(endpoint(0x00, TransferType::Control).direction(), Direction::Out);
}

#[test]
fn find_endpoint_takes_the_first_match() {
    let device = two_interfaces();
    assert_eq!(
        find_endpoint(&device, TransferType::Bulk, Direction::In),
        Some(Endpoint { config: 1, interface: 0, setting: 1, address: 0x81, has_driver: true })
    );
    assert_eq!(
        find_endpoint(&device, TransferType::Bulk, Direction::Out),
        Some(Endpoint { config: 1, interface: 0, setting: 1, address: 0x02, has_driver: true })
    );
    assert_eq!(
        find_endpoint(&device, TransferType::Interrupt, Direction::In),
        Some(Endpoint { config: 1, interface: 0, setting: 0, address: 0x84, has_driver: true })
    );
}

#[test]
fn find_endpoint_does_not_depend_on_the_order_of_calls() {
    let device = two_interfaces();
    let in_first = find_endpoint(&device, TransferType::Bulk, Direction::In);
    let out_second = find_endpoint(&device, TransferType::Bulk, Direction::Out);
    let out_first = find_endpoint(&device, TransferType::Bulk, Direction::Out);
    let in_second = find_endpoint(&device, TransferType::Bulk, Direction::In);
    assert_eq!(in_first, in_second);
    assert_eq!(out_first, out_second);
    assert_eq!(in_first.map(|e| e.address), Some(0x81));
    assert_eq!(out_first.map(|e| e.address), Some(0x02));
}

#[test]
fn find_endpoint_finds_none_where_none_matches() {
    let device = two_interfaces();
    assert_eq!(find_endpoint(&device, TransferType::Isochronous, Direction::In), None);
    assert_eq!(find_endpoint(&device, TransferType::Interrupt, Direction::Out), None);
    assert_eq!(find_endpoint(&device, TransferType::Control, Direction::Out), None);
}

#[test]
fn find_endpoint_reads_the_first_readable_configuration_only() {
    let first = ConfigDescriptor {
        number: 4,
        interfaces: vec![Interface {
            descriptors: vec![setting(2, 0, None, vec![endpoint(0x03, TransferType::Bulk)])],
        }],
    };
    let second = ConfigDescriptor {
        number: 5,
        interfaces: vec![Interface {
            descriptors: vec![setting(0, 0, None, vec![endpoint(0x81, TransferType::Bulk)])],
        }],
    };
    let device = device(vec![None, Some(first), Some(second)]);
    assert_eq!(
        find_endpoint(&device, TransferType::Bulk, Direction::Out),
        Some(Endpoint { config: 4, interface: 2, setting: 0, address: 0x03, has_driver: false })
    );
    // The bulk IN endpoint stands in a later configuration, which is not looked at.
    assert_eq!(find_endpoint(&device, TransferType::Bulk, Direction::In), None);
}

#[test]
fn find_endpoint_finds_none_without_a_readable_configuration() {
    assert_eq!(find_endpoint(&device(vec![]), TransferType::Bulk, Direction::In), None);
    assert_eq!(find_endpoint(&device(vec![None, None]), TransferType::Bulk, Direction::In), None);
}

#[test]
fn find_endpoint_counts_an_unanswered_probe_as_no_driver() {
    let config = |probe: Option<bool>| {
        device(vec![Some(ConfigDescriptor {
            number: 1,
            interfaces: vec![Interface {
                descriptors: vec![setting(0, 0, probe, vec![endpoint(0x81, TransferType::Bulk)])],
            }],
        })])
    };
    let found = |probe: Option<bool>| {
        find_endpoint(&config(probe), TransferType::Bulk, Direction::In).map(|e| e.has_driver)
    };
    assert_eq!(found(None), Some(false));
    assert_eq!(found(Some(false)), Some(false));
    assert_eq!(found(Some(true)), Some(true));
}

#[test]
fn find_endpoint_passes_over_empty_interfaces_and_settings() {
    let device = device(vec![Some(ConfigDescriptor {
        number: 2,
        interfaces: vec![
            Interface { descriptors: vec![] },
            Interface { descriptors: vec![setting(1, 0, None, vec![])] },
            Interface {
                descriptors: vec![
                    setting(2, 0, None, vec![]),
                    setting(2, 1, Some(true), vec![endpoint(0x8A, TransferType::Bulk)]),
                ],
            },
        ],
    })]);
    assert_eq!(
        find_endpoint(&device, TransferType::Bulk, Direction::In),
        Some(Endpoint { config: 2, interface: 2, setting: 1, address: 0x8A, has_driver: true })
    );
}

#[test]
fn find_axis_usb_takes_the_first_device_with_both_ids() {
    let ours = Some(DeviceDescriptor { vendor_id: VENDOR_ID, product_id: PRODUCT_ID });
    let devices = vec![
        Some(DeviceDescriptor { vendor_id: 0x1D6B, product_id: 0x0002 }),
        None,
        Some(DeviceDescriptor { vendor_id: VENDOR_ID, product_id: 0x0004 }),
        Some(DeviceDescriptor { vendor_id: 0x1234, product_id: PRODUCT_ID }),
        ours,
        ours,
    ];
    assert_eq!(find_axis_usb(&devices), Ok(4));
    assert_eq!(VENDOR_ID, 0xF4CE);
    assert_eq!(PRODUCT_ID, 0x0003);
}

#[test]
fn find_axis_usb_reports_not_found() {
    assert_eq!(find_axis_usb(&[]), Err(Error::NotFound));
    let devices =
        vec![None, Some(DeviceDescriptor { vendor_id: 0xF4CE, product_id: 0x0002 }), None];
    assert_eq!(find_axis_usb(&devices), Err(Error::NotFound));
}

#[test]
fn find_interfaces_lists_every_alternate_setting() {
    assert_eq!(find_interfaces(&two_interfaces()), vec![0, 0, 1]);
    let bare = device(vec![None, Some(ConfigDescriptor { number: 1, interfaces: vec![] })]);
    assert_eq!(find_interfaces(&bare), Vec::<u8>::new());
}

#[test]
fn configure_endpoint_detaches_only_a_present_driver() {
    let free = Endpoint { config: 1, interface: 2, setting: 3, address: 0x81, has_driver: false };
    assert_eq!(
        configure_endpoint(&free),
        vec![
            Action::SetActiveConfiguration { config: 1 },
            Action::ClaimInterface { interface: 2 },
            Action::SetAlternateSetting { interface: 2, setting: 3 },
        ]
    );
    let held = Endpoint { has_driver: true, ..free };
    assert_eq!(
        configure_endpoint(&held),
        vec![
            Action::DetachKernelDriver { interface: 2 },
            Action::SetActiveConfiguration { config: 1 },
            Action::ClaimInterface { interface: 2 },
            Action::SetAlternateSetting { interface: 2, setting: 3 },
        ]
    );
}

#[test]
fn configure_endpoints_claims_a_shared_interface_once() {
    let ep_in = Endpoint { config: 1, interface: 0, setting: 1, address: 0x81, has_driver: true };
    let ep_out = Endpoint { config: 1, interface: 0, setting: 1, address: 0x02, has_driver: true };
    assert_eq!(
        configure_endpoints(&ep_in, &ep_out),
        vec![
            Action::DetachKernelDriver { interface: 0 },
            Action::SetActiveConfiguration { config: 1 },
            Action::ClaimInterface { interface: 0 },
            Action::SetAlternateSetting { interface: 0, setting: 1 },
        ]
    );
    let free_in = Endpoint { has_driver: false, ..ep_in };
    assert_eq!(
        configure_endpoints(&free_in, &ep_out),
        vec![
            Action::SetActiveConfiguration { config: 1 },
            Action::ClaimInterface { interface: 0 },
            Action::SetAlternateSetting { interface: 0, setting: 1 },
        ]
    );
}

#[test]
fn configure_endpoints_claims_out_before_in() {
    let ep_in = Endpoint { config: 1, interface: 0, setting: 2, address: 0x81, has_driver: true };
    let ep_out = Endpoint { config: 3, interface: 1, setting: 4, address: 0x02, has_driver: true };
    assert_eq!(
        configure_endpoints(&ep_in, &ep_out),
        vec![
            Action::DetachKernelDriver { interface: 1 },
            Action::SetActiveConfiguration { config: 3 },
            Action::ClaimInterface { interface: 1 },
            Action::SetAlternateSetting { interface: 1, setting: 4 },
            Action::DetachKernelDriver { interface: 0 },
            Action::SetActiveConfiguration { config: 1 },
            Action::ClaimInterface { interface: 0 },
            Action::SetAlternateSetting { interface: 0, setting: 2 },
        ]
    );
}

#[test]
fn judge_lets_success_proceed() {
    let actions = [
        Action::DetachKernelDriver { interface: 0 },
        Action::SetActiveConfiguration { config: 1 },
        Action::ClaimInterface { interface: 0 },
        Action::SetAlternateSetting { interface: 0, setting: 0 },
        Action::AttachKernelDriver { interface: 0 },
    ];
    for action in actions {
        assert_eq!(judge(action, Ok(())), Verdict::Proceed);
    }
}

#[test]
fn judge_tolerates_a_failed_detach() {
    assert_eq!(
        judge(Action::DetachKernelDriver { interface: 0 }, Err(Error::NotFound)),
        Verdict::Tolerated(Error::NotFound)
    );
    assert_eq!(
        judge(Action::DetachKernelDriver { interface: 3 }, Err(Error::Access)),
        Verdict::Tolerated(Error::Access)
    );
}

#[test]
fn judge_aborts_on_a_failed_claim() {
    assert_eq!(
        judge(Action::SetActiveConfiguration { config: 1 }, Err(Error::Busy)),
        Verdict::Abort(Error::Busy)
    );
    assert_eq!(
        judge(Action::ClaimInterface { interface: 0 }, Err(Error::Access)),
        Verdict::Abort(Error::Access)
    );
    assert_eq!(
        judge(Action::SetAlternateSetting { interface: 0, setting: 1 }, Err(Error::Io)),
        Verdict::Abort(Error::Io)
    );
}

#[test]
fn judge_holds_a_failed_attach_fatal() {
    assert_eq!(
        judge(Action::AttachKernelDriver { interface: 0 }, Err(Error::NoDevice)),
        Verdict::Fatal(Error::NoDevice)
    );
}

#[test]
fn configurations_are_read_up_to_the_first_readable_one() {
    let readable = Some(ConfigDescriptor { number: 1, interfaces: vec![] });
    assert_eq!(configuration_to_read(&vec![], 3), Some(0));
    assert_eq!(configuration_to_read(&vec![None], 3), Some(1));
    assert_eq!(configuration_to_read(&vec![None, None], 3), Some(2));
    assert_eq!(configuration_to_read(&vec![None, None, None], 3), None);
    assert_eq!(configuration_to_read(&vec![readable.clone()], 3), None);
    assert_eq!(configuration_to_read(&vec![None, readable], 3), None);
}

#[test]
fn no_configuration_is_read_of_a_device_without_one() {
    assert_eq!(configuration_to_read(&vec![], 0), None);
    assert_eq!(configuration_to_read(&vec![None], 1), None);
    assert_eq!(configuration_to_read(&vec![None; 255], 255), None);
    assert_eq!(configuration_to_read(&vec![None; 254], 255), Some(254));
}
