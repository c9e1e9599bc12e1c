use usb_hid::endpoint::{EndpointRegister, RegisterWrite, Status, TransferType};
use usb_hid::usb::{Usb, BUFFER_SIZE, ENDPOINT_COUNT};

const STATUSES: [Status; 4] = [Status::Disabled, Status::Stall, Status::Nak, Status::Valid];

fn sample_register() -> EndpointRegister {
    EndpointRegister {
        address: 5,
        transfer_type: TransferType::Control,
        kind: true,
        dtog_tx: true,
        stat_tx: Status::Nak,
        dtog_rx: false,
        stat_rx: Status::Stall,
    }
}

fn plain_write(held: EndpointRegister) -> RegisterWrite {
    RegisterWrite {
        address: held.address,
        transfer_type: held.transfer_type,
        kind: held.kind,
        dtog_tx: false,
        stat_tx: 0,
        dtog_rx: false,
        stat_rx: 0,
    }
}

#[test]
fn status_codes() {
    assert_eq!(Status::Disabled.bits(), 0);
    assert_eq!(Status::Stall.bits(), 1);
    assert_eq!(Status::Nak.bits(), 2);
    assert_eq!(Status::Valid.bits(), 3);
}

#[test]
fn status_from_bits_reads_two_low_bits() {
    for n in 0..=255u8 {
        assert_eq!(Status::from_bits(n), STATUSES[usize::from(n & 3)]);
    }
    for s in STATUSES {
        assert_eq!(Status::from_bits(s.bits()), s);
    }
}

#[test]
fn toggle_to_is_the_exclusive_or() {
    assert_eq!(Status::Disabled.toggle_to(Status::Valid), 0b11);
    assert_eq!(Status::Valid.toggle_to(Status::Valid), 0b00);
    assert_eq!(Status::Nak.toggle_to(Status::Valid), 0b01);
    assert_eq!(Status::Stall.toggle_to(Status::Valid), 0b10);
    assert_eq!(Status::Nak.toggle_to(Status::Stall), 0b11);
    assert_eq!(Status::Valid.toggle_to(Status::Disabled), 0b11);
}

#[test]
fn toggle_to_reaches_every_status_from_every_status() {
    for held in STATUSES {
        for wanted in STATUSES {
            let written = held.toggle_to(wanted);
            assert!(written < 4);
            assert_eq!(Status::from_bits(held.bits() ^ written), wanted);
        }
    }
}

#[test]
fn reset_register() {
    let r = EndpointRegister::reset();
    assert_eq!(r.address, 0);
    assert_eq!(r.transfer_type, TransferType::Bulk);
    assert!(!r.kind);
    assert!(!r.dtog_tx);
    assert_eq!(r.stat_tx, Status::Disabled);
    assert!(!r.dtog_rx);
    assert_eq!(r.stat_rx, Status::Disabled);
}

#[test]
fn writing_zeros_keeps_toggles_and_statuses() {
    let mut r = sample_register();
    r.write(plain_write(sample_register()));
    assert_eq!(r, sample_register());
}

#[test]
fn writing_ones_flips_toggles_and_statuses() {
    let mut r = sample_register();
    r.write(RegisterWrite {
        address: 1,
        transfer_type: TransferType::Interrupt,
        kind: false,
        dtog_tx: true,
        stat_tx: 0b11,
        dtog_rx: true,
        stat_rx: 0b10,
    });
    assert_eq!(
        r,
        EndpointRegister {
            address: 1,
            transfer_type: TransferType::Interrupt,
            kind: false,
            dtog_tx: false,
            stat_tx: Status::Stall,
            dtog_rx: true,
            stat_rx: Status::Valid,
        }
    );
}

#[test]
fn writing_the_wanted_status_itself_misses_it() {
    let mut r = sample_register();
    let w = RegisterWrite { stat_tx: Status::Valid.bits(), ..plain_write(sample_register()) };
    r.write(w);
    assert_eq!(r.stat_tx, Status::Stall);
}

#[test]
fn writing_the_same_ones_twice_undoes_them() {
    let w = RegisterWrite {
        dtog_tx: true,
        stat_tx: 0b01,
        dtog_rx: true,
        stat_rx: 0b11,
        ..plain_write(sample_register())
    };
    let mut r = sample_register();
    r.write(w);
    assert_ne!(r, sample_register());
    r.write(w);
    assert_eq!(r, sample_register());
}

#[test]
fn write_reaching_computes_the_toggles() {
    let held = sample_register();
    let target = EndpointRegister {
        address: 1,
        transfer_type: TransferType::Interrupt,
        kind: false,
        dtog_tx: false,
        stat_tx: Status::Valid,
        dtog_rx: false,
        stat_rx: Status::Stall,
    };
    let w = held.write_reaching(target);
    assert_eq!(
        w,
        RegisterWrite {
            address: 1,
            transfer_type: TransferType::Interrupt,
            kind: false,
            dtog_tx: true,
            stat_tx: 0b01,
            dtog_rx: false,
            stat_rx: 0b00,
        }
    );
}

#[test]
fn write_reaching_then_write_gives_the_target() {
    for tx in STATUSES {
        for rx in STATUSES {
            for dtog_tx in [false, true] {
                for dtog_rx in [false, true] {
                    let held = EndpointRegister {
                        dtog_tx,
                        stat_tx: tx,
                        dtog_rx,
                        stat_rx: rx,
                        ..sample_register()
                    };
                    for want_tx in STATUSES {
                        for want_rx in STATUSES {
                            let target = EndpointRegister {
                                address: 1,
                                transfer_type: TransferType::Interrupt,
                                kind: false,
                                dtog_tx: !dtog_rx,
                                stat_tx: want_tx,
                                dtog_rx: false,
                                stat_rx: want_rx,
                            };
                            let mut r = held;
                            r.write(held.write_reaching(target));
                            assert_eq!(r, target);
                        }
                    }
                }
            }
        }
    }
}

#[test]
fn new_peripheral_is_reset() {
    let usb = Usb::new();
    assert_eq!(ENDPOINT_COUNT, 8);
    assert_eq!(BUFFER_SIZE, 64);
    for ep in 0..ENDPOINT_COUNT {
        assert_eq!(usb.register(ep), EndpointRegister::reset());
        assert_eq!(usb.tx_count(ep), 0);
        for i in 0..BUFFER_SIZE {
            assert_eq!(usb.tx_byte(ep, i), 0);
        }
    }
}

#[test]
fn write_tx_byte_changes_one_byte() {
    let mut usb = Usb::new();
    usb.write_tx_byte(3, 17, 0xab);
    for ep in 0..ENDPOINT_COUNT {
        for i in 0..BUFFER_SIZE {
            let expected = if ep == 3 && i == 17 { 0xab } else { 0 };
            assert_eq!(usb.tx_byte(ep, i), expected);
        }
        assert_eq!(usb.tx_count(ep), 0);
        assert_eq!(usb.register(ep), EndpointRegister::reset());
    }
    usb.write_tx_byte(7, 63, 1);
    assert_eq!(usb.tx_byte(7, 63), 1);
    assert_eq!(usb.tx_byte(3, 17), 0xab);
}

#[test]
fn write_tx_bytes_fills_from_the_start() {
    let mut usb = Usb::new();
    for i in 0..BUFFER_SIZE {
        usb.write_tx_byte(2, i, 0xee);
    }
    usb.write_tx_bytes(2, &[1, 2, 3]);
    assert_eq!(usb.tx_byte(2, 0), 1);
    assert_eq!(usb.tx_byte(2, 1), 2);
    assert_eq!(usb.tx_byte(2, 2), 3);
    for i in 3..BUFFER_SIZE {
        assert_eq!(usb.tx_byte(2, i), 0xee);
    }
    usb.write_tx_bytes(2, &[]);
    assert_eq!(usb.tx_byte(2, 0), 1);
    assert_eq!(usb.tx_byte(1, 0), 0);
    let full = [0x5au8; BUFFER_SIZE];
    usb.write_tx_bytes(2, &full);
    for i in 0..BUFFER_SIZE {
        assert_eq!(usb.tx_byte(2, i), 0x5a);
    }
}

#[test]
fn set_ep_tx_count_changes_one_count() {
    let mut usb = Usb::new();
    usb.set_ep_tx_count(4, 0xffff);
    usb.set_ep_tx_count(0, 62);
    for ep in 0..ENDPOINT_COUNT {
        let expected = match ep {
            4 => 0xffff,
            0 => 62,
            _ => 0,
        };
        assert_eq!(usb.tx_count(ep), expected);
    }
}

#[test]
fn load_register_replaces_the_register() {
    let mut usb = Usb::new();
    usb.load_register(6, sample_register());
    for ep in 0..ENDPOINT_COUNT {
        let expected = if ep == 6 { sample_register() } else { EndpointRegister::reset() };
        assert_eq!(usb.register(ep), expected);
    }
}

#[test]
fn write_register_flips_bits() {
    let mut usb = Usb::new();
    usb.load_register(1, sample_register());
    usb.write_register(
        1,
        RegisterWrite { stat_tx: 0b01, dtog_rx: true, ..plain_write(sample_register()) },
    );
    assert_eq!(
        usb.register(1),
        EndpointRegister { stat_tx: Status::Valid, dtog_rx: true, ..sample_register() }
    );
    assert_eq!(usb.register(0), EndpointRegister::reset());
}

#[test]
fn program_register_reaches_the_target() {
    let mut usb = Usb::new();
    usb.load_register(1, sample_register());
    let target = EndpointRegister {
        address: 1,
        transfer_type: TransferType::Interrupt,
        kind: false,
        dtog_tx: false,
        stat_tx: Status::Valid,
        dtog_rx: false,
        stat_rx: Status::Stall,
    };
    usb.program_register(1, target);
    assert_eq!(usb.register(1), target);
    usb.program_register(1, target);
    assert_eq!(usb.register(1), target);
}

#[test]
fn configure_response_sets_both_statuses_only() {
    for tx in STATUSES {
        for rx in STATUSES {
            for want_tx in STATUSES {
                for want_rx in STATUSES {
                    let held = EndpointRegister { stat_tx: tx, stat_rx: rx, ..sample_register() };
                    let mut usb = Usb::new();
                    usb.load_register(2, held);
                    usb.set_ep_tx_count(2, 9);
                    usb.write_tx_byte(2, 0, 0x77);
                    usb.configure_response(2, want_tx, want_rx);
                    assert_eq!(
                        usb.register(2),
                        EndpointRegister { stat_tx: want_tx, stat_rx: want_rx, ..held }
                    );
                    assert_eq!(usb.tx_count(2), 9);
                    assert_eq!(usb.tx_byte(2, 0), 0x77);
                    assert_eq!(usb.register(1), EndpointRegister::reset());
                }
            }
        }
    }
}
