//! The input report of the keyboard: eight bytes, of which the first two
//! are zero and the other six hold the keycodes of the pressed keys.

use vstd::prelude::*;
use crate::usb::zeros;

verus! {

/// The length in bytes of an input report.
pub const REPORT_SIZE: usize = 8;

/// Where the keycodes begin in an input report.
pub const KEYCODE_OFFSET: usize = 2;

/// How many keycodes an input report holds.
pub const KEYCODE_SLOTS: usize = 6;

/// The cells of a grid of two rows and two columns, row by row.
pub open spec fn scan_order<T>(grid: [[T; 2]; 2]) -> Seq<T> {
    seq![grid[0][0], grid[0][1], grid[1][0], grid[1][1]]
}

/// The keycodes of the pressed keys, in the order of the scan: `codes[i]`
/// for each `i` with `down[i]`.
pub open spec fn pressed_keycodes(down: Seq<bool>, codes: Seq<u8>) -> Seq<u8>
    decreases down.len(),
{
    if down.len() == 0 {
        Seq::empty()
    } else {
        let before = pressed_keycodes(down.drop_last(), codes.drop_last());
        if down.last() {
            before.push(codes.last())
        } else {
            before
        }
    }
}

/// The keycodes of the pressed keys among the first `n` cells of the scan.
pub open spec fn scanned(down: Seq<bool>, codes: Seq<u8>, n: int) -> Seq<u8> {
    pressed_keycodes(down.take(n), codes.take(n))
}

/// How many keys are pressed.
pub open spec fn pressed_count(down: Seq<bool>) -> nat
    decreases down.len(),
{
    if down.len() == 0 {
        0
    } else {
        pressed_count(down.drop_last()) + if down.last() {
            1nat
        } else {
            0nat
        }
    }
}

/// The input report for the keys `down`: two zero bytes, the keycodes of
/// the pressed keys, and zero bytes up to the length of the report.
pub open spec fn input_report(down: Seq<bool>, codes: Seq<u8>) -> Seq<u8> {
    let keys = pressed_keycodes(down, codes);
    zeros(KEYCODE_OFFSET as nat) + keys + zeros((KEYCODE_SLOTS - keys.len()) as nat)
}

/// There are as many keycodes of pressed keys as keys are pressed, and no
/// more than there are keys.
pub proof fn lemma_pressed_len(down: Seq<bool>, codes: Seq<u8>)
    ensures
        pressed_keycodes(down, codes).len() == pressed_count(down),
        pressed_count(down) <= down.len(),
    decreases down.len(),
{
    if down.len() > 0 {
        lemma_pressed_len(down.drop_last(), codes.drop_last());
    }
}

/// Scanning one more cell appends its keycode if the key is down, and
/// nothing if it is not.
pub proof fn lemma_pressed_step(down: Seq<bool>, codes: Seq<u8>, n: int)
    requires
        0 <= n < down.len(),
        n < codes.len(),
    ensures
        scanned(down, codes, n + 1) == if down[n] {
            scanned(down, codes, n).push(codes[n])
        } else {
            scanned(down, codes, n)
        },
{
    assert(down.take(n + 1).drop_last() =~= down.take(n));
    assert(codes.take(n + 1).drop_last() =~= codes.take(n));
}

/// The layout of an input report with `k` pressed keys, where `k` is at
/// most six: the report is eight bytes long, bytes 0 and 1 are zero, bytes
/// `2..2 + k` are the keycodes of the pressed keys in the order of the scan,
/// and the bytes from `2 + k` on are zero.
pub proof fn lemma_input_report_layout(down: Seq<bool>, codes: Seq<u8>)
    requires
        pressed_count(down) <= KEYCODE_SLOTS,
    ensures
        input_report(down, codes).len() == REPORT_SIZE,
        input_report(down, codes)[0] == 0,
        input_report(down, codes)[1] == 0,
        input_report(down, codes).subrange(2, 2 + pressed_count(down) as int) == pressed_keycodes(
            down,
            codes,
        ),
        forall|i: int|
            2 + pressed_count(down) <= i < REPORT_SIZE ==> input_report(down, codes)[i] == 0,
{
    lemma_pressed_len(down, codes);
}

} // verus!
