//! The transport boundary of the driver, and the wiring rules of a 4-wire
//! serial connection.
//!
//! A transport implements [`DisplayInterface`]. The driver never talks to a
//! transport directly: it goes through [`crate::command::Recorded`], which
//! passes every request on unchanged and keeps a ghost record of each
//! [`Request`] and its outcome, as a sequence of [`Attempt`]s. The contracts
//! of the layers above are stated over that record.
//!
//! The second half of the module describes how a request is carried out on
//! the four wires (clock and data, a data/command select line, a reset line
//! and a busy line) as a list of [`WireStep`]s. The list is computed here; the
//! code that owns the pins performs it.
use vstd::prelude::*;

verus! {

/// Settle time after each edge of a hardware reset, in milliseconds.
pub const RESET_DELAY_MS: u8 = 10;

/// Largest number of bytes handed to the bus in one transfer.
pub const MAX_TRANSFER_LEN: usize = 4096;

/// What the driver needs from the connection to the controller.
pub trait DisplayInterface {
    /// Failure of a transfer.
    type Error;

    /// Sends a command byte.
    fn send_command(&mut self, command: u8) -> Result<(), Self::Error>;

    /// Sends the data bytes that belong to the last command.
    fn send_data(&mut self, data: &[u8]) -> Result<(), Self::Error>;

    /// Resets the controller through its reset line: drives the line low,
    /// then high, and waits `delay_ms` milliseconds after each edge.
    fn reset(&mut self, delay_ms: u8);

    /// Blocks until the controller no longer reports busy.
    fn busy_wait(&mut self);
}

/// Something the driver asks of a transport.
pub enum Request {
    /// Send a command byte.
    Command(u8),
    /// Send data bytes.
    Data(Seq<u8>),
    /// Reset the controller through its reset line, with this settle time in
    /// milliseconds after each edge.
    Reset(u8),
    /// Block until the controller no longer reports busy.
    BusyWait,
}

/// A request that was handed to a transport, and whether the transport
/// reported success.
pub struct Attempt {
    /// What was asked.
    pub request: Request,
    /// Whether the transport reported success. A reset and a wait cannot
    /// fail.
    pub succeeded: bool,
}

/// The record of `request` and its outcome.
pub open spec fn attempt(request: Request, succeeded: bool) -> Attempt {
    Attempt { request, succeeded }
}

/// The record of the first `count` requests of `planned`, each handed to the
/// transport once and in order. All of them succeeded, except that the last
/// one failed if `failed` is set.
pub open spec fn attempts(planned: Seq<Request>, count: int, failed: bool) -> Seq<Attempt> {
    Seq::new(count as nat, |i: int| attempt(planned[i], !(failed && i == count - 1)))
}

/// `after` extends `before` by all of `planned`: every request was handed to
/// the transport once, in order, and succeeded.
pub open spec fn completed(
    before: Seq<Attempt>,
    after: Seq<Attempt>,
    planned: Seq<Request>,
) -> bool {
    after =~= before + attempts(planned, planned.len() as int, false)
}

/// `after` extends `before` by a part of `planned` that ends in a failure:
/// the requests up to the failing one were handed to the transport once and
/// in order, the failing one was not tried again, and none after it was
/// tried.
pub open spec fn stopped_short(
    before: Seq<Attempt>,
    after: Seq<Attempt>,
    planned: Seq<Request>,
) -> bool {
    let count = after.len() - before.len();
    &&& 1 <= count <= planned.len()
    &&& after =~= before + attempts(planned, count, true)
}

/// One action on the wires of a 4-wire connection.
#[derive(Clone, Copy, Debug, PartialEq, Eq, Structural)]
pub enum WireStep {
    /// Drive the data/command line: low announces a command byte, high
    /// announces data bytes.
    SelectData { high: bool },
    /// Drive the reset line; the controller is held in reset while it is
    /// low.
    ResetLine { high: bool },
    /// Wait for this many milliseconds.
    Delay { ms: u8 },
    /// Hand the bytes `start..end` of the payload to the bus in one
    /// transfer.
    Write { start: usize, end: usize },
    /// Poll the busy line until [`still_busy`] says that the controller is
    /// idle.
    AwaitIdle,
}

/// Number of bus transfers that a payload of `len` bytes is cut into.
pub open spec fn chunk_count(len: nat) -> nat {
    ((len + MAX_TRANSFER_LEN - 1) / (MAX_TRANSFER_LEN as int)) as nat
}

/// First byte of the `index`-th bus transfer of a payload.
pub open spec fn chunk_start(index: nat) -> nat {
    index * MAX_TRANSFER_LEN as nat
}

/// One past the last byte of the `index`-th bus transfer of a payload of
/// `len` bytes.
pub open spec fn chunk_end(len: nat, index: nat) -> nat {
    if (index + 1) * MAX_TRANSFER_LEN as nat <= len {
        (index + 1) * MAX_TRANSFER_LEN as nat
    } else {
        len
    }
}

/// The bus transfers that carry a payload of `len` bytes, in order.
pub open spec fn chunk_steps(len: nat) -> Seq<WireStep> {
    Seq::new(
        chunk_count(len),
        |i: int|
            WireStep::Write {
                start: chunk_start(i as nat) as usize,
                end: chunk_end(len, i as nat) as usize,
            },
    )
}

/// The wire actions that send a command byte.
pub open spec fn command_wire_steps() -> Seq<WireStep> {
    seq![
        WireStep::SelectData { high: false },
        WireStep::Write { start: 0, end: 1 },
        WireStep::AwaitIdle,
    ]
}

/// The wire actions that send `len` data bytes.
pub open spec fn data_wire_steps(len: nat) -> Seq<WireStep> {
    seq![WireStep::SelectData { high: true }] + chunk_steps(len) + seq![WireStep::AwaitIdle]
}

/// The wire actions of a hardware reset with settle time `delay_ms`.
pub open spec fn reset_wire_steps(delay_ms: u8) -> Seq<WireStep> {
    seq![
        WireStep::ResetLine { high: false },
        WireStep::Delay { ms: delay_ms },
        WireStep::ResetLine { high: true },
        WireStep::Delay { ms: delay_ms },
    ]
}

/// The wire actions of a wait for the controller.
pub open spec fn busy_wait_wire_steps() -> Seq<WireStep> {
    seq![WireStep::AwaitIdle]
}

/// The bus transfers of a payload tile it: each holds between 1 and
/// [`MAX_TRANSFER_LEN`] bytes, the first starts at byte 0, each starts where
/// the one before it ended, and the last ends at the end of the payload.
pub proof fn chunks_tile_payload(len: nat, index: nat)
    requires
        index < chunk_count(len),
    ensures
        chunk_start(index) < chunk_end(len, index) <= len,
        chunk_end(len, index) - chunk_start(index) <= MAX_TRANSFER_LEN,
        chunk_start(0) == 0,
        index > 0 ==> chunk_start(index) == chunk_end(len, (index - 1) as nat),
        index + 1 == chunk_count(len) ==> chunk_end(len, index) == len,
{
}

/// Plans the wire actions that send one command byte: select "command",
/// write the byte, wait until the controller is idle.
pub fn send_command_steps() -> (steps: Vec<WireStep>)
    ensures
        steps@ == command_wire_steps(),
{
    let mut steps: Vec<WireStep> = Vec::new();
    steps.push(WireStep::SelectData { high: false });
    steps.push(WireStep::Write { start: 0, end: 1 });
    steps.push(WireStep::AwaitIdle);
    steps
}

/// Plans the wire actions that send `len` data bytes: select "data", write
/// the payload in transfers of at most [`MAX_TRANSFER_LEN`] bytes, wait until
/// the controller is idle.
pub fn send_data_steps(len: usize) -> (steps: Vec<WireStep>)
    ensures
        steps@ == data_wire_steps(len as nat),
{
    let mut steps: Vec<WireStep> = Vec::new();
    steps.push(WireStep::SelectData { high: true });
    let mut start: usize = 0;
    let ghost mut index: nat = 0;
    while start < len
        invariant
            start <= len,
            start < len ==> start == chunk_start(index),
            start == len ==> index == chunk_count(len as nat),
            index <= chunk_count(len as nat),
            steps@ == seq![WireStep::SelectData { high: true }] + chunk_steps(len as nat).take(
                index as int,
            ),
        decreases len - start,
    {
        let end: usize = if len - start > MAX_TRANSFER_LEN {
            start + MAX_TRANSFER_LEN
        } else {
            len
        };
        proof {
            assert(chunk_steps(len as nat).take(index as int + 1) =~= chunk_steps(len as nat).take(
                index as int,
            ).push(WireStep::Write { start, end }));
        }
        steps.push(WireStep::Write { start, end });
        start = end;
        proof {
            index = index + 1;
        }
    }
    proof {
        assert(chunk_steps(len as nat).take(index as int) =~= chunk_steps(len as nat));
    }
    steps.push(WireStep::AwaitIdle);
    steps
}

/// Plans the wire actions of a hardware reset: drive the reset line low,
/// wait, drive it high, wait.
pub fn reset_steps(delay_ms: u8) -> (steps: Vec<WireStep>)
    ensures
        steps@ == reset_wire_steps(delay_ms),
{
    let mut steps: Vec<WireStep> = Vec::new();
    steps.push(WireStep::ResetLine { high: false });
    steps.push(WireStep::Delay { ms: delay_ms });
    steps.push(WireStep::ResetLine { high: true });
    steps.push(WireStep::Delay { ms: delay_ms });
    steps
}

/// Plans the wire actions of a wait for the controller: poll the busy line
/// until the controller is idle.
pub fn busy_wait_steps() -> (steps: Vec<WireStep>)
    ensures
        steps@ == busy_wait_wire_steps(),
{
    let mut steps: Vec<WireStep> = Vec::new();
    steps.push(WireStep::AwaitIdle);
    steps
}

/// Decides, from one reading of the busy line, whether to keep waiting. The
/// controller is busy while the line reads high; a reading that failed counts
/// as idle.
pub fn still_busy<E>(reading: &Result<bool, E>) -> (busy: bool)
    ensures
        busy <==> (reading matches Ok(high) && *high),
{
    match reading {
        Ok(high) => *high,
        Err(_) => false,
    }
}

} // verus!
