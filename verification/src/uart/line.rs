//! The line-editing discipline of the UART line reader, as a pure
//! function of the pending input.
//!
//! [`read_line`](crate::uart::Uart::read_line) consumes received bytes one
//! at a time into a caller-supplied buffer: a carriage return or newline
//! completes the line; a backspace or delete steps the cursor back (when it
//! can) and echoes an erase sequence; any other byte is stored, echoed, and
//! advances the cursor; and a cursor at the buffer's last cell completes
//! the line without waiting for a terminator. [`line_run`] walks that
//! discipline over a whole input sequence and returns everything the run
//! determines: the buffer's final contents, the cursor, the echoed bytes,
//! how much input was consumed, and whether the line completed.

use vstd::prelude::*;

verus! {

/// A carriage return completes a line.
pub const BYTE_CR: u8 = 13;

/// A newline completes a line.
pub const BYTE_LF: u8 = 10;

/// A backspace steps the cursor back.
pub const BYTE_BS: u8 = 8;

/// Delete acts as backspace.
pub const BYTE_DEL: u8 = 127;

/// A space, part of the erase sequence echoed for a backspace.
pub const BYTE_SPACE: u8 = 32;

/// The outcome of running the line-editing discipline over an input
/// sequence.
pub ghost struct LineOutcome {
    /// The buffer's contents when the run stops, terminator included if the
    /// line completed.
    pub buf: Seq<u8>,
    /// The cursor when the run stops; on a completed line, the line's
    /// length and the terminator's position.
    pub pos: nat,
    /// Every byte echoed back to the transmitter, in order.
    pub echo: Seq<u8>,
    /// How many input bytes the run consumed.
    pub used: nat,
    /// Whether the line completed, by terminator or by a full buffer. A run
    /// that exhausts its input first stops incomplete.
    pub done: bool,
}

/// The erase sequence echoed when a backspace removes a stored byte:
/// step back, blank the cell, step back again.
pub open spec fn erase_echo() -> Seq<u8> {
    seq![BYTE_BS, BYTE_SPACE, BYTE_BS]
}

/// Run the line-editing discipline to its end, starting from buffer
/// contents `buf`, cursor `pos`, pending input `input`, with `echo` and
/// `used` accumulating what earlier steps echoed and consumed.
pub open spec fn line_run(buf: Seq<u8>, pos: nat, input: Seq<u8>, echo: Seq<u8>, used: nat)
    -> LineOutcome
    decreases input.len(),
{
    if pos + 1 >= buf.len() {
        // the cursor reached the buffer's last cell: terminate there
        LineOutcome { buf: buf.update(pos as int, 0), pos, echo, used, done: true }
    } else if input.len() == 0 {
        LineOutcome { buf, pos, echo, used, done: false }
    } else {
        let b = input[0];
        if b == BYTE_CR || b == BYTE_LF {
            LineOutcome { buf: buf.update(pos as int, 0), pos, echo, used: used + 1, done: true }
        } else if b == BYTE_BS || b == BYTE_DEL {
            if pos > 0 {
                line_run(buf, (pos - 1) as nat, input.skip(1), echo + erase_echo(), used + 1)
            } else {
                line_run(buf, pos, input.skip(1), echo, used + 1)
            }
        } else {
            line_run(buf.update(pos as int, b), pos + 1, input.skip(1), echo.push(b), used + 1)
        }
    }
}

/// The outcome of reading one line from `input` into a fresh run over a
/// buffer holding `buf`.
pub open spec fn line_outcome(buf: Seq<u8>, input: Seq<u8>) -> LineOutcome {
    line_run(buf, 0, input, Seq::empty(), 0)
}

} // verus!
