//! The control register of one endpoint of the USB peripheral.
//!
//! The status fields and the data-toggle bits of the register do not take the
//! value that is written to them: every bit written as one flips the bit that
//! the register holds. [`EndpointRegister::write_reaching`] is the one place
//! that works out what to write for a wanted state.

use vstd::prelude::*;

verus! {

/// What an endpoint answers to the host in one direction.
#[derive(Clone, Copy, Debug, PartialEq, Eq, Structural)]
pub enum Status {
    /// The endpoint ignores the host.
    Disabled,
    /// The endpoint refuses the transfer.
    Stall,
    /// The endpoint is not ready yet.
    Nak,
    /// The endpoint takes part in the transfer.
    Valid,
}

impl Status {
    /// The two-bit code of the status in the control register.
    pub open spec fn code(self) -> u8 {
        match self {
            Status::Disabled => 0,
            Status::Stall => 1,
            Status::Nak => 2,
            Status::Valid => 3,
        }
    }

    /// The status that the two low bits of `bits` stand for.
    pub open spec fn of_code(bits: u8) -> Status {
        let low = bits & 3;
        if low == 0 {
            Status::Disabled
        } else if low == 1 {
            Status::Stall
        } else if low == 2 {
            Status::Nak
        } else {
            Status::Valid
        }
    }

    /// The status that a field holding `self` holds once `written` has been
    /// written to it: the bits written as one have flipped.
    pub open spec fn toggled(self, written: u8) -> Status {
        Status::of_code(self.code() ^ written)
    }

    /// The two-bit code of the status.
    pub fn bits(self) -> (b: u8)
        ensures
            b == self.code(),
            b < 4,
    {
        match self {
            Status::Disabled => 0,
            Status::Stall => 1,
            Status::Nak => 2,
            Status::Valid => 3,
        }
    }

    /// The status that the two low bits of `bits` stand for.
    pub fn from_bits(bits: u8) -> (s: Status)
        ensures
            s == Status::of_code(bits),
    {
        let low: u8 = bits & 3;
        if low == 0 {
            Status::Disabled
        } else if low == 1 {
            Status::Stall
        } else if low == 2 {
            Status::Nak
        } else {
            Status::Valid
        }
    }

    /// The value to write to a status field that holds `self` so that it
    /// holds `desired` afterwards: a one for each bit in which the two
    /// differ.
    pub fn toggle_to(self, desired: Status) -> (written: u8)
        ensures
            written == self.code() ^ desired.code(),
            written < 4,
            self.toggled(written) == desired,
    {
        proof {
            Status::lemma_toggled(self, desired);
        }
        self.bits() ^ desired.bits()
    }

    /// Writing a one for each bit in which two statuses differ takes a
    /// status field from the one to the other.
    pub proof fn lemma_toggled(held: Status, desired: Status)
        ensures
            held.code() ^ desired.code() < 4,
            held.toggled(held.code() ^ desired.code()) == desired,
    {
        let h = held.code();
        let d = desired.code();
        assert(h < 4 && d < 4 ==> (h ^ d) < 4 && (h ^ (h ^ d)) & 3 == d) by (bit_vector);
    }
}

/// The kind of transfer that an endpoint serves.
#[derive(Clone, Copy, Debug, PartialEq, Eq, Structural)]
pub enum TransferType {
    Bulk,
    Control,
    Isochronous,
    Interrupt,
}

/// What the control register of an endpoint holds.
#[derive(Clone, Copy, Debug, PartialEq, Eq, Structural)]
pub struct EndpointRegister {
    /// The endpoint address that the register answers to.
    pub address: u8,
    pub transfer_type: TransferType,
    /// The endpoint-kind flag; it means nothing for an interrupt endpoint.
    pub kind: bool,
    /// The data toggle of the transmit direction: DATA1 when set.
    pub dtog_tx: bool,
    pub stat_tx: Status,
    /// The data toggle of the receive direction: DATA1 when set.
    pub dtog_rx: bool,
    pub stat_rx: Status,
}

/// A value written to the control register of an endpoint.
#[derive(Clone, Copy, Debug, PartialEq, Eq, Structural)]
pub struct RegisterWrite {
    pub address: u8,
    pub transfer_type: TransferType,
    pub kind: bool,
    /// Written as `true`, it flips the transmit data toggle.
    pub dtog_tx: bool,
    /// Each of the two low bits written as one flips that bit of the
    /// transmit status.
    pub stat_tx: u8,
    /// Written as `true`, it flips the receive data toggle.
    pub dtog_rx: bool,
    /// Each of the two low bits written as one flips that bit of the
    /// receive status.
    pub stat_rx: u8,
}

impl EndpointRegister {
    /// What the register holds once the hardware has taken the write `w`:
    /// address, transfer type and kind are as written, the data toggles and
    /// the statuses have flipped where a one was written.
    pub open spec fn after_write(self, w: RegisterWrite) -> EndpointRegister {
        EndpointRegister {
            address: w.address,
            transfer_type: w.transfer_type,
            kind: w.kind,
            dtog_tx: self.dtog_tx != w.dtog_tx,
            stat_tx: self.stat_tx.toggled(w.stat_tx),
            dtog_rx: self.dtog_rx != w.dtog_rx,
            stat_rx: self.stat_rx.toggled(w.stat_rx),
        }
    }

    /// Holds of a register whose transmit status is `tx` and whose receive
    /// status is `rx`.
    pub open spec fn has_status(self, tx: Status, rx: Status) -> bool {
        self.stat_tx == tx && self.stat_rx == rx
    }

    /// The register with its two statuses replaced and nothing else changed.
    pub open spec fn with_status(self, tx: Status, rx: Status) -> EndpointRegister {
        EndpointRegister { stat_tx: tx, stat_rx: rx, ..self }
    }

    /// The register of an endpoint that was never set up.
    pub open spec fn reset_value() -> EndpointRegister {
        EndpointRegister {
            address: 0,
            transfer_type: TransferType::Bulk,
            kind: false,
            dtog_tx: false,
            stat_tx: Status::Disabled,
            dtog_rx: false,
            stat_rx: Status::Disabled,
        }
    }

    /// The register of an endpoint that was never set up.
    pub fn reset() -> (r: EndpointRegister)
        ensures
            r == EndpointRegister::reset_value(),
    {
        EndpointRegister {
            address: 0,
            transfer_type: TransferType::Bulk,
            kind: false,
            dtog_tx: false,
            stat_tx: Status::Disabled,
            dtog_rx: false,
            stat_rx: Status::Disabled,
        }
    }

    /// Takes a write the way the hardware does.
    pub fn write(&mut self, w: RegisterWrite)
        ensures
            *final(self) == old(self).after_write(w),
    {
        let stat_tx = Status::from_bits(self.stat_tx.bits() ^ w.stat_tx);
        let stat_rx = Status::from_bits(self.stat_rx.bits() ^ w.stat_rx);
        *self = EndpointRegister {
            address: w.address,
            transfer_type: w.transfer_type,
            kind: w.kind,
            dtog_tx: self.dtog_tx != w.dtog_tx,
            stat_tx,
            dtog_rx: self.dtog_rx != w.dtog_rx,
            stat_rx,
        };
    }

    /// The write that names `target` in the plain fields and has a one in
    /// each toggle bit in which `self` and `target` differ.
    pub open spec fn reaching(self, target: EndpointRegister) -> RegisterWrite {
        RegisterWrite {
            address: target.address,
            transfer_type: target.transfer_type,
            kind: target.kind,
            dtog_tx: self.dtog_tx != target.dtog_tx,
            stat_tx: self.stat_tx.code() ^ target.stat_tx.code(),
            dtog_rx: self.dtog_rx != target.dtog_rx,
            stat_rx: self.stat_rx.code() ^ target.stat_rx.code(),
        }
    }

    /// Whatever a register holds, the write worked out for a target takes
    /// it there.
    pub proof fn lemma_reaching(held: EndpointRegister, target: EndpointRegister)
        ensures
            held.after_write(held.reaching(target)) == target,
    {
        Status::lemma_toggled(held.stat_tx, target.stat_tx);
        Status::lemma_toggled(held.stat_rx, target.stat_rx);
    }

    /// The write that takes a register holding `self` to `target`, whatever
    /// `self` holds.
    pub fn write_reaching(&self, target: EndpointRegister) -> (w: RegisterWrite)
        ensures
            w == self.reaching(target),
            self.after_write(w) == target,
    {
        proof {
            EndpointRegister::lemma_reaching(*self, target);
        }
        RegisterWrite {
            address: target.address,
            transfer_type: target.transfer_type,
            kind: target.kind,
            dtog_tx: self.dtog_tx != target.dtog_tx,
            stat_tx: self.stat_tx.toggle_to(target.stat_tx),
            dtog_rx: self.dtog_rx != target.dtog_rx,
            stat_rx: self.stat_rx.toggle_to(target.stat_rx),
        }
    }
}

} // verus!
