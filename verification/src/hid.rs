//! The handlers of the keyboard: what it does to the peripheral when the
//! host configures it, sends it a control request, or has read a report.

use vstd::prelude::*;
use crate::descriptor::{HidClassDescriptorType, REPORT_DESCRIPTOR, REPORT_DESCRIPTOR_LENGTH};
use crate::endpoint::{EndpointRegister, Status, TransferType};
use crate::report::{
    input_report,
    lemma_pressed_step,
    pressed_keycodes,
    scan_order,
    scanned,
    KEYCODE_OFFSET,
    KEYCODE_SLOTS,
    REPORT_SIZE,
};
use crate::request::{Dir, HidRequestCode, SetupPacket, GET_DESCRIPTOR};
use crate::usb::{well_formed, zeros, EndpointState, Usb, ENDPOINT_COUNT};

verus! {

/// The number of the control endpoint, which answers the requests.
pub const CONTROL_ENDPOINT: usize = 0;

/// The number of the interrupt endpoint, which sends the input reports.
pub const INTERRUPT_ENDPOINT: usize = 1;

/// The endpoint address of the interrupt endpoint.
pub const INTERRUPT_ADDRESS: u8 = 1;

/// Holds of a request that asks the device for a descriptor.
pub open spec fn is_get_descriptor(setup: SetupPacket) -> bool {
    setup.direction == Dir::DeviceToHost && setup.request == GET_DESCRIPTOR
}

/// The type of the descriptor that a GET_DESCRIPTOR request asks for: the
/// high byte of its value says it.
pub open spec fn requested_descriptor(setup: SetupPacket) -> Option<HidClassDescriptorType> {
    HidClassDescriptorType::parse(setup.value as int / 256)
}

/// Holds of a request that asks the device for the HID report descriptor.
pub open spec fn wants_report_descriptor(setup: SetupPacket) -> bool {
    is_get_descriptor(setup) && requested_descriptor(setup) == Some(HidClassDescriptorType::Report)
}

/// The control endpoint after a standard request, given what it was
/// before.
///
/// A request for the report descriptor puts the descriptor into the
/// transmit buffer and queues as much of it as the host asked for. A
/// request for any other descriptor queues nothing. Both enable the data
/// and the status stage. Every other request queues nothing and stalls.
pub open spec fn std_response(setup: SetupPacket, before: EndpointState) -> EndpointState {
    if is_get_descriptor(setup) {
        if wants_report_descriptor(setup) {
            EndpointState {
                register: before.register.with_status(Status::Valid, Status::Valid),
                tx_count: if setup.length <= REPORT_DESCRIPTOR_LENGTH {
                    setup.length
                } else {
                    REPORT_DESCRIPTOR_LENGTH as u16
                },
                tx_buffer: REPORT_DESCRIPTOR@ + before.tx_buffer.skip(
                    REPORT_DESCRIPTOR_LENGTH as int,
                ),
            }
        } else {
            EndpointState {
                register: before.register.with_status(Status::Valid, Status::Valid),
                tx_count: 0,
                tx_buffer: before.tx_buffer,
            }
        }
    } else {
        EndpointState {
            register: before.register.with_status(Status::Stall, Status::Stall),
            tx_count: 0,
            tx_buffer: before.tx_buffer,
        }
    }
}

/// Holds of a class request that the keyboard acknowledges: SET_IDLE and
/// SET_REPORT, sent from the host to the device.
pub open spec fn is_acknowledged(setup: SetupPacket) -> bool {
    setup.direction == Dir::HostToDevice && (HidRequestCode::parse(setup.request as int) == Some(
        HidRequestCode::SetIdle,
    ) || HidRequestCode::parse(setup.request as int) == Some(HidRequestCode::SetReport))
}

/// The control endpoint after a class request, given what it was before:
/// nothing is queued, and the endpoint is valid in both directions for a
/// request that the keyboard acknowledges and stalls for every other.
pub open spec fn class_response(setup: SetupPacket, before: EndpointState) -> EndpointState {
    let status = if is_acknowledged(setup) {
        Status::Valid
    } else {
        Status::Stall
    };
    EndpointState {
        register: before.register.with_status(status, status),
        tx_count: 0,
        tx_buffer: before.tx_buffer,
    }
}

/// What the control register of the interrupt endpoint holds once the
/// keyboard is configured: ready to send, and stalling what the host sends.
pub open spec fn interrupt_register() -> EndpointRegister {
    EndpointRegister {
        address: INTERRUPT_ADDRESS,
        transfer_type: TransferType::Interrupt,
        kind: false,
        dtog_tx: false,
        stat_tx: Status::Valid,
        dtog_rx: false,
        stat_rx: Status::Stall,
    }
}

/// The peripheral after the host has configured the device: the interrupt
/// endpoint has an empty report queued and its control register set up; the
/// other endpoints are as they were.
pub open spec fn configured(s: Seq<EndpointState>) -> Seq<EndpointState> {
    s.update(
        INTERRUPT_ENDPOINT as int,
        EndpointState {
            register: interrupt_register(),
            tx_count: REPORT_SIZE as u16,
            tx_buffer: zeros(REPORT_SIZE as nat) + s[INTERRUPT_ENDPOINT as int].tx_buffer.skip(
                REPORT_SIZE as int,
            ),
        },
    )
}

/// Holds of an endpoint whose transmit buffer begins with two zero bytes,
/// as the one of the interrupt endpoint does from the moment the device is
/// configured.
pub open spec fn header_is_zero(endpoint: EndpointState) -> bool {
    endpoint.tx_buffer[0] == 0 && endpoint.tx_buffer[1] == 0
}

/// The report in the transmit buffer of an endpoint: its first eight bytes.
pub open spec fn report_of(endpoint: EndpointState) -> Seq<u8> {
    endpoint.tx_buffer.take(REPORT_SIZE as int)
}

/// An endpoint whose transmit buffer holds `keys` from byte 2 on and
/// `padding` zero bytes behind them; every other byte is as in `before`.
pub open spec fn with_keycodes(before: EndpointState, keys: Seq<u8>, padding: nat) -> EndpointState {
    EndpointState {
        tx_buffer: before.tx_buffer.take(KEYCODE_OFFSET as int) + keys + zeros(padding)
            + before.tx_buffer.skip(KEYCODE_OFFSET + keys.len() + padding),
        ..before
    }
}

/// The interrupt endpoint after a report for the keys `down` has been put
/// into its transmit buffer: the keycodes of the pressed keys from byte 2
/// on, then zero bytes up to the end of the report. The first two bytes and
/// what lies behind the report are as they were.
pub open spec fn with_report(down: Seq<bool>, codes: Seq<u8>, before: EndpointState) -> EndpointState {
    let keys = pressed_keycodes(down, codes);
    with_keycodes(before, keys, (KEYCODE_SLOTS - keys.len()) as nat)
}

/// An endpoint made ready to send; the rest of it is as it was.
pub open spec fn ready_to_send(before: EndpointState) -> EndpointState {
    EndpointState {
        register: before.register.with_status(Status::Valid, before.register.stat_rx),
        ..before
    }
}

/// The peripheral after the host has read a report from endpoint `ep`: the
/// next report is in the transmit buffer of the interrupt endpoint, and
/// endpoint `ep` is ready to send.
pub open spec fn reported(
    ep: int,
    down: Seq<bool>,
    codes: Seq<u8>,
    s: Seq<EndpointState>,
) -> Seq<EndpointState> {
    let queued = s.update(
        INTERRUPT_ENDPOINT as int,
        with_report(down, codes, s[INTERRUPT_ENDPOINT as int]),
    );
    queued.update(ep, ready_to_send(queued[ep]))
}

/// The keyboard. It keeps nothing between two calls: what it knows is in
/// the peripheral and in its arguments.
#[derive(Clone, Copy, Debug)]
pub struct Hid {}

impl Default for Hid {
    fn default() -> (hid: Hid)
        ensures
            hid == (Hid {}),
    {
        Hid {}
    }
}

impl Hid {
    /// Answers a standard request to the HID interface.
    ///
    /// A GET_DESCRIPTOR request for the report descriptor is answered with
    /// the descriptor, cut to the length that the host asked for. A
    /// GET_DESCRIPTOR request for anything else is answered with no data.
    /// Every other request is refused with a stall.
    pub fn on_setup_iface_std(&mut self, setup: &SetupPacket, usb: &mut Usb)
        ensures
            final(usb)@ == old(usb)@.update(
                CONTROL_ENDPOINT as int,
                std_response(*setup, old(usb).endpoint(CONTROL_ENDPOINT)),
            ),
            wants_report_descriptor(*setup) ==> final(usb).endpoint(CONTROL_ENDPOINT).packet()
                == REPORT_DESCRIPTOR@.take(
                vstd::math::min(setup.length as int, REPORT_DESCRIPTOR_LENGTH as int),
            ),
            is_get_descriptor(*setup) && !wants_report_descriptor(*setup) ==> final(usb).endpoint(
                CONTROL_ENDPOINT,
            ).tx_count == 0,
            is_get_descriptor(*setup) ==> final(usb).endpoint(CONTROL_ENDPOINT).register.has_status(
                Status::Valid,
                Status::Valid,
            ),
            !is_get_descriptor(*setup) ==> final(usb).endpoint(CONTROL_ENDPOINT).tx_count == 0,
            !is_get_descriptor(*setup) ==> final(usb).endpoint(CONTROL_ENDPOINT).register.has_status(
                Status::Stall,
                Status::Stall,
            ),
    {
        proof {
            usb.lemma_well_formed();
        }
        if setup.direction == Dir::DeviceToHost && setup.request == GET_DESCRIPTOR {
            let value = setup.value;
            assert(value >> 8 == value / 256) by (bit_vector);
            match HidClassDescriptorType::from_u16(value >> 8) {
                Some(HidClassDescriptorType::Report) => {
                    usb.write_tx_bytes(CONTROL_ENDPOINT, &REPORT_DESCRIPTOR);
                    let count = if setup.length <= REPORT_DESCRIPTOR_LENGTH as u16 {
                        setup.length
                    } else {
                        REPORT_DESCRIPTOR_LENGTH as u16
                    };
                    usb.set_ep_tx_count(CONTROL_ENDPOINT, count);
                },
                _ => {
                    usb.set_ep_tx_count(CONTROL_ENDPOINT, 0);
                },
            }
            usb.configure_response(CONTROL_ENDPOINT, Status::Valid, Status::Valid);
        } else {
            usb.set_ep_tx_count(CONTROL_ENDPOINT, 0);
            usb.configure_response(CONTROL_ENDPOINT, Status::Stall, Status::Stall);
        }
    }

    /// Answers a class request to the HID interface.
    ///
    /// SET_IDLE and SET_REPORT from the host are acknowledged, whatever
    /// their value and length; what SET_REPORT carries is not looked at.
    /// Every other request is refused with a stall.
    pub fn on_setup_iface_class(&mut self, setup: &SetupPacket, usb: &mut Usb)
        ensures
            final(usb)@ == old(usb)@.update(
                CONTROL_ENDPOINT as int,
                class_response(*setup, old(usb).endpoint(CONTROL_ENDPOINT)),
            ),
            final(usb).endpoint(CONTROL_ENDPOINT).tx_count == 0,
            is_acknowledged(*setup) ==> final(usb).endpoint(CONTROL_ENDPOINT).register.has_status(
                Status::Valid,
                Status::Valid,
            ),
            !is_acknowledged(*setup) ==> final(usb).endpoint(CONTROL_ENDPOINT).register.has_status(
                Status::Stall,
                Status::Stall,
            ),
    {
        proof {
            usb.lemma_well_formed();
        }
        match (setup.direction, HidRequestCode::from_u8(setup.request)) {
            (Dir::HostToDevice, Some(HidRequestCode::SetIdle)) => {
                usb.set_ep_tx_count(CONTROL_ENDPOINT, 0);
                usb.configure_response(CONTROL_ENDPOINT, Status::Valid, Status::Valid);
            },
            (Dir::HostToDevice, Some(HidRequestCode::SetReport)) => {
                usb.set_ep_tx_count(CONTROL_ENDPOINT, 0);
                usb.configure_response(CONTROL_ENDPOINT, Status::Valid, Status::Valid);
            },
            _ => {
                usb.set_ep_tx_count(CONTROL_ENDPOINT, 0);
                usb.configure_response(CONTROL_ENDPOINT, Status::Stall, Status::Stall);
            },
        }
    }

    /// Sets up the interrupt endpoint when the host has configured the
    /// device: queues a report of eight zero bytes and makes the endpoint
    /// ready to send it, whatever its control register held.
    pub fn on_set_config(&mut self, usb: &mut Usb)
        ensures
            final(usb)@ == configured(old(usb)@),
            final(usb).endpoint(INTERRUPT_ENDPOINT).packet() == zeros(REPORT_SIZE as nat),
            final(usb).endpoint(INTERRUPT_ENDPOINT).tx_count == REPORT_SIZE,
            final(usb).endpoint(INTERRUPT_ENDPOINT).register == interrupt_register(),
    {
        proof {
            usb.lemma_well_formed();
        }
        let empty: [u8; 8] = [0, 0, 0, 0, 0, 0, 0, 0];
        usb.write_tx_bytes(INTERRUPT_ENDPOINT, &empty);
        usb.set_ep_tx_count(INTERRUPT_ENDPOINT, REPORT_SIZE as u16);
        usb.program_register(
            INTERRUPT_ENDPOINT,
            EndpointRegister {
                address: INTERRUPT_ADDRESS,
                transfer_type: TransferType::Interrupt,
                kind: false,
                dtog_tx: false,
                stat_tx: Status::Valid,
                dtog_rx: false,
                stat_rx: Status::Stall,
            },
        );
        assert(empty@ =~= zeros(REPORT_SIZE as nat));
    }

    /// Prepares the next input report when the host has read the last one
    /// from endpoint `ep`, and makes that endpoint ready to send.
    ///
    /// The keycodes of the keys that are down go into the report in the
    /// order of the scan, row by row, from byte 2 on; zero bytes fill the
    /// rest of the report. Bytes 0 and 1 are left as they are: they are zero
    /// from the moment the device is configured. A grid of two rows and two
    /// columns has at most four keys down, so the six places of the report
    /// always suffice.
    pub fn on_in(
        &mut self,
        ep: usize,
        usb: &mut Usb,
        keys_down: &[[bool; 2]; 2],
        keycodes: &[[u8; 2]; 2],
    )
        requires
            ep < ENDPOINT_COUNT,
        ensures
            final(usb)@ == reported(
                ep as int,
                scan_order(*keys_down),
                scan_order(*keycodes),
                old(usb)@,
            ),
            header_is_zero(old(usb).endpoint(INTERRUPT_ENDPOINT)) ==> report_of(
                final(usb).endpoint(INTERRUPT_ENDPOINT),
            ) == input_report(scan_order(*keys_down), scan_order(*keycodes)),
            final(usb).endpoint(ep).register.stat_tx == Status::Valid,
    {
        proof {
            usb.lemma_well_formed();
        }
        let ghost before = usb@[INTERRUPT_ENDPOINT as int];
        let ghost down = scan_order(*keys_down);
        let ghost codes = scan_order(*keycodes);
        let mut write_idx: usize = KEYCODE_OFFSET;
        let mut row: usize = 0;
        assert(with_keycodes(before, Seq::empty(), 0).tx_buffer =~= before.tx_buffer);
        while row < 2
            invariant
                row <= 2,
                well_formed(old(usb)@),
                before == old(usb)@[INTERRUPT_ENDPOINT as int],
                down == scan_order(*keys_down),
                codes == scan_order(*keycodes),
                write_idx == KEYCODE_OFFSET + scanned(down, codes, 2 * row).len(),
                write_idx <= KEYCODE_OFFSET + 2 * row,
                usb@ == old(usb)@.update(
                    INTERRUPT_ENDPOINT as int,
                    with_keycodes(before, scanned(down, codes, 2 * row), 0),
                ),
            decreases 2 - row,
        {
            let mut col: usize = 0;
            while col < 2
                invariant
                    row < 2,
                    col <= 2,
                    well_formed(old(usb)@),
                    before == old(usb)@[INTERRUPT_ENDPOINT as int],
                    down == scan_order(*keys_down),
                    codes == scan_order(*keycodes),
                    write_idx == KEYCODE_OFFSET + scanned(down, codes, 2 * row + col).len(),
                    write_idx <= KEYCODE_OFFSET + 2 * row + col,
                    usb@ == old(usb)@.update(
                        INTERRUPT_ENDPOINT as int,
                        with_keycodes(before, scanned(down, codes, 2 * row + col), 0),
                    ),
                decreases 2 - col,
            {
                let ghost n = 2 * row + col;
                proof {
                    lemma_pressed_step(down, codes, n);
                }
                if keys_down[row][col] {
                    usb.write_tx_byte(INTERRUPT_ENDPOINT, write_idx, keycodes[row][col]);
                    assert(usb@[INTERRUPT_ENDPOINT as int].tx_buffer =~= with_keycodes(
                        before,
                        scanned(down, codes, n + 1),
                        0,
                    ).tx_buffer);
                    write_idx = write_idx + 1;
                }
                col = col + 1;
            }
            row = row + 1;
        }
        let ghost keys = pressed_keycodes(down, codes);
        assert(down.take(4) =~= down && codes.take(4) =~= codes);
        while write_idx < REPORT_SIZE
            invariant
                KEYCODE_OFFSET + keys.len() <= write_idx <= REPORT_SIZE,
                well_formed(old(usb)@),
                before == old(usb)@[INTERRUPT_ENDPOINT as int],
                usb@ == old(usb)@.update(
                    INTERRUPT_ENDPOINT as int,
                    with_keycodes(before, keys, (write_idx - KEYCODE_OFFSET - keys.len()) as nat),
                ),
            decreases REPORT_SIZE - write_idx,
        {
            usb.write_tx_byte(INTERRUPT_ENDPOINT, write_idx, 0);
            assert(usb@[INTERRUPT_ENDPOINT as int].tx_buffer =~= with_keycodes(
                before,
                keys,
                (write_idx + 1 - KEYCODE_OFFSET - keys.len()) as nat,
            ).tx_buffer);
            write_idx = write_idx + 1;
        }
        let held = usb.register(ep);
        usb.configure_response(ep, Status::Valid, held.stat_rx);
    }
}

} // verus!
