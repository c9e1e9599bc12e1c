//! What holds of the peripheral over a sequence of events: configuring the
//! device again changes nothing, and from the moment the device is
//! configured every report in the interrupt endpoint is well laid out.

use vstd::prelude::*;
use crate::hid::{
    class_response,
    configured,
    header_is_zero,
    interrupt_register,
    report_of,
    reported,
    std_response,
    CONTROL_ENDPOINT,
    INTERRUPT_ENDPOINT,
};
use crate::report::{
    input_report,
    lemma_pressed_len,
    pressed_count,
    pressed_keycodes,
    KEYCODE_SLOTS,
    REPORT_SIZE,
};
use crate::request::SetupPacket;
use crate::usb::{well_formed, zeros, EndpointState, ENDPOINT_COUNT};

verus! {

/// Configuring the device twice in a row leaves the peripheral as
/// configuring it once does.
pub proof fn lemma_configured_twice(s: Seq<EndpointState>)
    requires
        well_formed(s),
    ensures
        configured(configured(s)) == configured(s),
{
    let once = configured(s)[INTERRUPT_ENDPOINT as int];
    let twice = configured(configured(s))[INTERRUPT_ENDPOINT as int];
    assert(twice.tx_buffer =~= once.tx_buffer);
}

/// Once the device is configured, the interrupt endpoint has a report of
/// eight zero bytes queued and is ready to send it. Its transmit buffer
/// begins with two zero bytes, and the other endpoints are as they were.
pub proof fn lemma_configured_report(s: Seq<EndpointState>)
    requires
        well_formed(s),
    ensures
        well_formed(configured(s)),
        configured(s)[INTERRUPT_ENDPOINT as int].tx_count == REPORT_SIZE,
        configured(s)[INTERRUPT_ENDPOINT as int].packet() == zeros(REPORT_SIZE as nat),
        configured(s)[INTERRUPT_ENDPOINT as int].register == interrupt_register(),
        header_is_zero(configured(s)[INTERRUPT_ENDPOINT as int]),
        forall|ep: int|
            0 <= ep < ENDPOINT_COUNT && ep != INTERRUPT_ENDPOINT ==> configured(s)[ep] == s[ep],
{
}

/// The layout of the report that the interrupt endpoint holds after the
/// host has read the last one, where the buffer began with two zero bytes
/// and `k` keys are down, `k` at most six: bytes 0 and 1 are zero, bytes
/// `2..2 + k` are the keycodes of the keys that are down, in the order of
/// the scan, and bytes `2 + k..8` are zero. The buffer still begins with
/// two zero bytes, and the endpoint still sends as many bytes as before.
pub proof fn lemma_report_layout(ep: int, down: Seq<bool>, codes: Seq<u8>, s: Seq<EndpointState>)
    requires
        well_formed(s),
        0 <= ep < ENDPOINT_COUNT,
        header_is_zero(s[INTERRUPT_ENDPOINT as int]),
        pressed_count(down) <= KEYCODE_SLOTS,
    ensures
        well_formed(reported(ep, down, codes, s)),
        report_of(reported(ep, down, codes, s)[INTERRUPT_ENDPOINT as int]) == input_report(
            down,
            codes,
        ),
        reported(ep, down, codes, s)[INTERRUPT_ENDPOINT as int].tx_buffer[0] == 0,
        reported(ep, down, codes, s)[INTERRUPT_ENDPOINT as int].tx_buffer[1] == 0,
        reported(ep, down, codes, s)[INTERRUPT_ENDPOINT as int].tx_buffer.subrange(
            2,
            2 + pressed_count(down) as int,
        ) == pressed_keycodes(down, codes),
        forall|i: int|
            2 + pressed_count(down) <= i < REPORT_SIZE ==> reported(
                ep,
                down,
                codes,
                s,
            )[INTERRUPT_ENDPOINT as int].tx_buffer[i] == 0,
        header_is_zero(reported(ep, down, codes, s)[INTERRUPT_ENDPOINT as int]),
        reported(ep, down, codes, s)[INTERRUPT_ENDPOINT as int].tx_count
            == s[INTERRUPT_ENDPOINT as int].tx_count,
{
    lemma_pressed_len(down, codes);
}

/// A control request leaves the interrupt endpoint, and with it the report,
/// as it is.
pub proof fn lemma_control_keeps_report(setup: SetupPacket, s: Seq<EndpointState>)
    requires
        well_formed(s),
    ensures
        s.update(
            CONTROL_ENDPOINT as int,
            std_response(setup, s[CONTROL_ENDPOINT as int]),
        )[INTERRUPT_ENDPOINT as int] == s[INTERRUPT_ENDPOINT as int],
        s.update(
            CONTROL_ENDPOINT as int,
            class_response(setup, s[CONTROL_ENDPOINT as int]),
        )[INTERRUPT_ENDPOINT as int] == s[INTERRUPT_ENDPOINT as int],
{
}

/// The first report after the device is configured is the input report
/// for the keys that are down, and it is what the endpoint sends.
pub proof fn lemma_report_after_configuration(
    ep: int,
    down: Seq<bool>,
    codes: Seq<u8>,
    s: Seq<EndpointState>,
)
    requires
        well_formed(s),
        0 <= ep < ENDPOINT_COUNT,
        pressed_count(down) <= KEYCODE_SLOTS,
    ensures
        report_of(reported(ep, down, codes, configured(s))[INTERRUPT_ENDPOINT as int])
            == input_report(down, codes),
        reported(ep, down, codes, configured(s))[INTERRUPT_ENDPOINT as int].packet()
            == input_report(down, codes),
{
    lemma_configured_report(s);
    lemma_report_layout(ep, down, codes, configured(s));
}

} // verus!
