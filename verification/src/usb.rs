//! A model of the USB peripheral: for each endpoint its control register,
//! its transmit count and its transmit buffer in packet memory.

use vstd::prelude::*;
use crate::endpoint::{EndpointRegister, RegisterWrite, Status};

verus! {

/// How many endpoints the peripheral has.
pub const ENDPOINT_COUNT: usize = 8;

/// How many bytes of packet memory each endpoint has for transmitting.
pub const BUFFER_SIZE: usize = 64;

/// The state of one endpoint.
pub struct EndpointState {
    /// What the control register holds.
    pub register: EndpointRegister,
    /// How many bytes the endpoint sends when the host next asks.
    pub tx_count: u16,
    /// The bytes of the transmit buffer.
    pub tx_buffer: Seq<u8>,
}

impl EndpointState {
    /// The bytes that the endpoint sends when the host next asks: the first
    /// `tx_count` bytes of the transmit buffer, and no more than it has.
    pub open spec fn packet(self) -> Seq<u8> {
        if self.tx_count <= self.tx_buffer.len() {
            self.tx_buffer.take(self.tx_count as int)
        } else {
            self.tx_buffer
        }
    }
}

/// A sequence of `n` zero bytes.
pub open spec fn zeros(n: nat) -> Seq<u8> {
    Seq::new(n, |i: int| 0u8)
}

/// Holds of the state of a peripheral: it has `ENDPOINT_COUNT` endpoints,
/// each with a transmit buffer of `BUFFER_SIZE` bytes.
pub open spec fn well_formed(s: Seq<EndpointState>) -> bool {
    &&& s.len() == ENDPOINT_COUNT
    &&& forall|ep: int| 0 <= ep < ENDPOINT_COUNT ==> (#[trigger] s[ep]).tx_buffer.len() == BUFFER_SIZE
}

/// The peripheral.
#[derive(Debug)]
pub struct Usb {
    registers: [EndpointRegister; ENDPOINT_COUNT],
    tx_counts: [u16; ENDPOINT_COUNT],
    tx_buffers: [[u8; BUFFER_SIZE]; ENDPOINT_COUNT],
}

impl View for Usb {
    type V = Seq<EndpointState>;

    /// The state of each endpoint, by its number.
    closed spec fn view(&self) -> Seq<EndpointState> {
        Seq::new(
            ENDPOINT_COUNT as nat,
            |ep: int|
                EndpointState {
                    register: self.registers[ep],
                    tx_count: self.tx_counts[ep],
                    tx_buffer: self.tx_buffers[ep]@,
                },
        )
    }
}

impl Usb {
    /// The state of endpoint `ep`.
    pub open spec fn endpoint(&self, ep: usize) -> EndpointState {
        self@[ep as int]
    }

    /// The state of every peripheral is well formed.
    pub proof fn lemma_well_formed(&self)
        ensures
            well_formed(self@),
    {
    }

    /// A peripheral after reset: no endpoint is set up, nothing is queued
    /// and the packet memory is zero.
    pub fn new() -> (usb: Usb)
        ensures
            well_formed(usb@),
            forall|ep: int|
                0 <= ep < ENDPOINT_COUNT ==> #[trigger] usb@[ep] == (EndpointState {
                    register: EndpointRegister::reset_value(),
                    tx_count: 0,
                    tx_buffer: zeros(BUFFER_SIZE as nat),
                }),
    {
        let usb = Usb {
            registers: [EndpointRegister::reset(); ENDPOINT_COUNT],
            tx_counts: [0u16; ENDPOINT_COUNT],
            tx_buffers: [[0u8; BUFFER_SIZE]; ENDPOINT_COUNT],
        };
        assert forall|ep: int| 0 <= ep < ENDPOINT_COUNT implies #[trigger] usb@[ep] == (EndpointState {
            register: EndpointRegister::reset_value(),
            tx_count: 0,
            tx_buffer: zeros(BUFFER_SIZE as nat),
        }) by {
            assert(usb@[ep].tx_buffer =~= zeros(BUFFER_SIZE as nat));
        }
        usb
    }

    /// What the control register of endpoint `ep` holds.
    pub fn register(&self, ep: usize) -> (r: EndpointRegister)
        requires
            ep < ENDPOINT_COUNT,
        ensures
            r == self@[ep as int].register,
    {
        self.registers[ep]
    }

    /// The transmit count of endpoint `ep`.
    pub fn tx_count(&self, ep: usize) -> (n: u16)
        requires
            ep < ENDPOINT_COUNT,
        ensures
            n == self@[ep as int].tx_count,
    {
        self.tx_counts[ep]
    }

    /// The byte at `index` of the transmit buffer of endpoint `ep`.
    pub fn tx_byte(&self, ep: usize, index: usize) -> (b: u8)
        requires
            ep < ENDPOINT_COUNT,
            index < BUFFER_SIZE,
        ensures
            b == self@[ep as int].tx_buffer[index as int],
    {
        self.tx_buffers[ep][index]
    }

    /// Takes over what the hardware reports of the control register of
    /// endpoint `ep`.
    pub fn load_register(&mut self, ep: usize, register: EndpointRegister)
        requires
            ep < ENDPOINT_COUNT,
        ensures
            final(self)@ == old(self)@.update(
                ep as int,
                (EndpointState { register, ..old(self)@[ep as int] }),
            ),
    {
        self.registers[ep] = register;
    }

    /// Writes one byte into the transmit buffer of endpoint `ep`.
    pub fn write_tx_byte(&mut self, ep: usize, index: usize, value: u8)
        requires
            ep < ENDPOINT_COUNT,
            index < BUFFER_SIZE,
        ensures
            final(self)@ == old(self)@.update(
                ep as int,
                (EndpointState {
                    tx_buffer: old(self)@[ep as int].tx_buffer.update(index as int, value),
                    ..old(self)@[ep as int]
                }),
            ),
    {
        self.tx_buffers[ep][index] = value;
    }

    /// Sets how many bytes endpoint `ep` sends when the host next asks.
    pub fn set_ep_tx_count(&mut self, ep: usize, count: u16)
        requires
            ep < ENDPOINT_COUNT,
        ensures
            final(self)@ == old(self)@.update(
                ep as int,
                (EndpointState { tx_count: count, ..old(self)@[ep as int] }),
            ),
    {
        self.tx_counts[ep] = count;
    }

    /// Writes `data` into the transmit buffer of endpoint `ep`, from its
    /// first byte on.
    pub fn write_tx_bytes(&mut self, ep: usize, data: &[u8])
        requires
            ep < ENDPOINT_COUNT,
            data@.len() <= BUFFER_SIZE,
        ensures
            final(self)@ == old(self)@.update(
                ep as int,
                (EndpointState {
                    tx_buffer: data@ + old(self)@[ep as int].tx_buffer.skip(data@.len() as int),
                    ..old(self)@[ep as int]
                }),
            ),
    {
        let ghost before = self@[ep as int];
        let mut i: usize = 0;
        assert(data@.take(0) + before.tx_buffer.skip(0) =~= before.tx_buffer);
        while i < data.len()
            invariant
                ep < ENDPOINT_COUNT,
                i <= data@.len() <= BUFFER_SIZE,
                before == old(self)@[ep as int],
                before.tx_buffer.len() == BUFFER_SIZE,
                self@ == old(self)@.update(
                    ep as int,
                    EndpointState {
                        tx_buffer: data@.take(i as int) + before.tx_buffer.skip(i as int),
                        ..before
                    },
                ),
            decreases data@.len() - i,
        {
            let ghost filled = self@[ep as int].tx_buffer;
            self.write_tx_byte(ep, i, data[i]);
            assert(filled.update(i as int, data@[i as int]) =~= data@.take(i + 1)
                + before.tx_buffer.skip(i + 1));
            i = i + 1;
        }
        assert(data@.take(data@.len() as int) =~= data@);
    }

    /// Writes `w` to the control register of endpoint `ep`; the register
    /// takes it the way the hardware does.
    pub fn write_register(&mut self, ep: usize, w: RegisterWrite)
        requires
            ep < ENDPOINT_COUNT,
        ensures
            final(self)@ == old(self)@.update(
                ep as int,
                (EndpointState {
                    register: old(self)@[ep as int].register.after_write(w),
                    ..old(self)@[ep as int]
                }),
            ),
    {
        self.registers[ep].write(w);
    }

    /// Brings the control register of endpoint `ep` to `target`, whatever it
    /// holds: reads it, works out the bits to flip and writes them.
    pub fn program_register(&mut self, ep: usize, target: EndpointRegister)
        requires
            ep < ENDPOINT_COUNT,
        ensures
            final(self)@ == old(self)@.update(
                ep as int,
                (EndpointState { register: target, ..old(self)@[ep as int] }),
            ),
    {
        let held = self.register(ep);
        let w = held.write_reaching(target);
        self.write_register(ep, w);
    }

    /// Sets the transmit and the receive status of endpoint `ep` and leaves
    /// the rest of its control register as it is.
    pub fn configure_response(&mut self, ep: usize, tx: Status, rx: Status)
        requires
            ep < ENDPOINT_COUNT,
        ensures
            final(self)@ == old(self)@.update(
                ep as int,
                (EndpointState {
                    register: old(self)@[ep as int].register.with_status(tx, rx),
                    ..old(self)@[ep as int]
                }),
            ),
    {
        let held = self.register(ep);
        self.program_register(ep, EndpointRegister { stat_tx: tx, stat_rx: rx, ..held });
    }
}

} // verus!
