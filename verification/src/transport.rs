use vstd::prelude::*;

verus! {

/// One bus transaction, as the ghost transaction log records it.
pub enum Event {
    /// A plain write: the bus address and the frame placed on the bus.
    Write { address: u8, bytes: Seq<u8> },
    /// A write followed by a read: the bus address, the outgoing frame,
    /// and the bytes the device answered with.
    Read { address: u8, bytes: Seq<u8>, response: Seq<u8> },
}

/// The ghost log of bus transactions.
pub type EventLog = Seq<Event>;

/// The ghost log of performed delays, in milliseconds.
pub type DelayLog = Seq<u32>;

/// The event of writing `val` into the register at address `reg`.
pub open spec fn write_ev(address: u8, reg: u8, val: u8) -> Event {
    Event::Write { address, bytes: seq![reg, val] }
}

/// The event of reading one byte `v` back from the register at address `reg`.
pub open spec fn read1_ev(address: u8, reg: u8, v: u8) -> Event {
    Event::Read { address, bytes: seq![reg], response: seq![v] }
}

/// The byte a single-register read answered with.
pub open spec fn read_value(e: Event) -> u8 {
    match e {
        Event::Read { response, .. } => if response.len() > 0 {
            response[0]
        } else {
            0
        },
        Event::Write { .. } => 0,
    }
}

/// The bytes a burst read answered with.
pub open spec fn read_response(e: Event) -> Seq<u8> {
    match e {
        Event::Read { response, .. } => response,
        Event::Write { .. } => Seq::empty(),
    }
}

/// The register addresses selected by the write transactions of a log, in
/// order: the first byte of every plain write frame. The bring-up ordering
/// and the firmware partitioning are stated over this projection.
pub open spec fn written_regs(log: Seq<Event>) -> Seq<u8>
    decreases log.len(),
{
    if log.len() == 0 {
        Seq::empty()
    } else {
        written_regs(log.drop_last()) + (match log.last() {
            Event::Write { bytes, .. } => if bytes.len() > 0 {
                seq![bytes[0]]
            } else {
                Seq::<u8>::empty()
            },
            Event::Read { .. } => Seq::<u8>::empty(),
        })
    }
}

/// How many write transactions of a log select the register at address `reg`.
pub open spec fn count_writes_to(log: Seq<Event>, reg: u8) -> nat
    decreases log.len(),
{
    if log.len() == 0 {
        0
    } else {
        count_writes_to(log.drop_last(), reg) + (match log.last() {
            Event::Write { bytes, .. } => if bytes.len() > 0 && bytes[0] == reg {
                1nat
            } else {
                0nat
            },
            Event::Read { .. } => 0nat,
        })
    }
}

/// The register projection distributes over concatenation of logs.
pub proof fn lemma_written_regs_append(a: Seq<Event>, b: Seq<Event>)
    ensures
        written_regs(a + b) == written_regs(a) + written_regs(b),
    decreases b.len(),
{
    if b.len() == 0 {
        assert(a + b =~= a);
        assert(written_regs(a) + written_regs(b) =~= written_regs(a));
    } else {
        lemma_written_regs_append(a, b.drop_last());
        assert((a + b).drop_last() =~= a + b.drop_last());
        assert(written_regs(a + b) =~= written_regs(a) + written_regs(b));
    }
}

/// The per-register write count distributes over concatenation of logs.
pub proof fn lemma_count_writes_append(a: Seq<Event>, b: Seq<Event>, reg: u8)
    ensures
        count_writes_to(a + b, reg) == count_writes_to(a, reg) + count_writes_to(b, reg),
    decreases b.len(),
{
    if b.len() == 0 {
        assert(a + b =~= a);
    } else {
        lemma_count_writes_append(a, b.drop_last(), reg);
        assert((a + b).drop_last() =~= a + b.drop_last());
        assert((a + b).last() == b.last());
    }
}

/// Pushing one event onto a log raises the per-register write count by one
/// exactly when the event is a write frame selecting that register.
pub proof fn lemma_count_writes_push(l: Seq<Event>, e: Event, reg: u8)
    ensures
        count_writes_to(l.push(e), reg) == count_writes_to(l, reg) + (match e {
            Event::Write { bytes, .. } => if bytes.len() > 0 && bytes[0] == reg {
                1nat
            } else {
                0nat
            },
            Event::Read { .. } => 0nat,
        }),
{
    assert(l.push(e).drop_last() =~= l);
    assert(l.push(e).last() == e);
}

/// The bus transport collaborator: a synchronous register-addressed
/// write / write-then-read primitive pair, supplied by the platform.
///
/// Implementations live outside this library; the driver's contracts are
/// stated over the ghost log of completed transactions that the trait
/// exposes. An implementation is expected to append exactly one event per
/// successful call and to leave the response buffer's length unchanged.
pub trait Transport: Sized {
    /// The transport's own opaque error type.
    type Error;

    /// The ghost log of every transaction completed so far.
    spec fn log(&self) -> EventLog;

    /// One bus write of `bytes` to the device at `address`.
    fn write(&mut self, address: u8, bytes: &[u8]) -> (r: Result<(), Self::Error>)
        ensures
            r is Ok ==> final(self).log() == old(self).log().push(Event::Write {
                address,
                bytes: bytes@,
            }),
    ;

    /// One bus write of `bytes` to the device at `address`, followed by a
    /// read that fills `response` completely.
    fn write_then_read(&mut self, address: u8, bytes: &[u8], response: &mut Vec<u8>) -> (r: Result<
        (),
        Self::Error,
    >)
        ensures
            r is Ok ==> final(response)@.len() == old(response)@.len(),
            r is Ok ==> final(self).log() == old(self).log().push(Event::Read {
                address,
                bytes: bytes@,
                response: final(response)@,
            }),
    ;
}

/// The clock/delay collaborator: a blocking wait, supplied by the platform.
///
/// Implementations live outside this library; the ghost log records the
/// waits performed, in milliseconds, so that the driver's contracts can
/// state where the fixed hardware settle times occur.
pub trait DelayProvider: Sized {
    /// The ghost log of the delays performed so far, in milliseconds.
    spec fn log(&self) -> DelayLog;

    /// Block the calling thread for at least `ms` milliseconds.
    fn delay_ms(&mut self, ms: u32)
        ensures
            final(self).log() == old(self).log().push(ms),
    ;
}

} // verus!
