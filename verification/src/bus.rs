//! The bus capability the driver is written against, and the model of what
//! happens on a bus.
//!
//! A bus handle can do two things: write bytes to a device, and write bytes
//! and then read bytes back in one combined transaction. Either of them
//! succeeds or fails with an opaque [`BusFault`]. The model records every
//! transaction as an [`Exchange`]; the driver's contracts are stated over the
//! sequence of exchanges of the handle it owns.

use vstd::prelude::*;

verus! {

/// What a caller asks of the bus in one transaction.
pub enum Request {
    /// Send `bytes` to the device at `address`.
    Write { address: u8, bytes: Seq<u8> },
    /// Send `bytes` to the device at `address`, then read `count` bytes back
    /// without releasing the bus in between.
    WriteRead { address: u8, bytes: Seq<u8>, count: nat },
}

/// How a transaction ended.
pub enum Reply {
    /// The transaction completed. `data` holds the bytes that were read back;
    /// it is empty for a plain write.
    Done { data: Seq<u8> },
    /// The transaction failed.
    Fault,
}

/// One transaction: what was asked, and how it ended.
pub struct Exchange {
    pub request: Request,
    pub reply: Reply,
}

/// The exchange of a plain write that completed (`done`) or failed.
pub open spec fn write_exchange(address: u8, bytes: Seq<u8>, done: bool) -> Exchange {
    Exchange {
        request: Request::Write { address, bytes },
        reply: if done {
            Reply::Done { data: Seq::empty() }
        } else {
            Reply::Fault
        },
    }
}

/// The exchange of a combined write and read of `count` bytes, which
/// delivered `data` if it completed (`done`).
pub open spec fn write_read_exchange(
    address: u8,
    bytes: Seq<u8>,
    count: nat,
    done: bool,
    data: Seq<u8>,
) -> Exchange {
    Exchange {
        request: Request::WriteRead { address, bytes, count },
        reply: if done {
            Reply::Done { data }
        } else {
            Reply::Fault
        },
    }
}

/// `after` is `before` followed by exactly one more exchange, and that
/// exchange was made for `request`.
pub open spec fn one_more(before: Seq<Exchange>, after: Seq<Exchange>, request: Request) -> bool {
    &&& after.len() == before.len() + 1
    &&& after.drop_last() == before
    &&& after.last().request == request
}

/// The transport error. It says only that the transaction did not complete.
#[derive(Clone, Copy, Debug, PartialEq, Eq, Structural)]
pub struct BusFault;

/// A handle on a two-wire bus.
///
/// Each call of `write` or `write_read` is one transaction, and appends one
/// exchange to `traffic`.
pub trait Bus {
    /// Every transaction made on this handle so far, oldest first.
    spec fn traffic(&self) -> Seq<Exchange>;

    /// Sends `bytes` to the device at `address`.
    fn write(&mut self, address: u8, bytes: &[u8]) -> (outcome: Result<(), BusFault>)
        ensures
            final(self).traffic() == old(self).traffic().push(
                write_exchange(address, bytes@, outcome is Ok),
            ),
    ;

    /// Sends `bytes` to the device at `address` and then fills `buffer` with
    /// the device's answer, in one transaction. After a fault the content of
    /// `buffer` is unspecified.
    fn write_read(&mut self, address: u8, bytes: &[u8], buffer: &mut [u8]) -> (outcome: Result<
        (),
        BusFault,
    >)
        ensures
            final(buffer)@.len() == old(buffer)@.len(),
            final(self).traffic() == old(self).traffic().push(
                write_read_exchange(
                    address,
                    bytes@,
                    old(buffer)@.len(),
                    outcome is Ok,
                    final(buffer)@,
                ),
            ),
    ;
}

/// One more exchange made for `request` is what pushing an exchange with
/// that request gives.
pub proof fn lemma_push_is_one_more(before: Seq<Exchange>, exchange: Exchange)
    ensures
        one_more(before, before.push(exchange), exchange.request),
        before.push(exchange).last() == exchange,
{
    assert(before.push(exchange).drop_last() =~= before);
}

/// A bus handle of which only the signatures are known: a transport that
/// was written elsewhere and makes no promise about what it does.
///
/// [`Recorded`] turns such a transport into a [`Bus`].
pub trait RawBus {
    /// Sends `bytes` to the device at `address`.
    fn write(&mut self, address: u8, bytes: &[u8]) -> Result<(), BusFault>;

    /// Sends `bytes` to the device at `address` and then reads `count` bytes
    /// back, in one transaction.
    fn write_read(&mut self, address: u8, bytes: &[u8], count: usize) -> Result<Vec<u8>, BusFault>;
}

/// A transport together with the record of what was asked of it.
///
/// Every call is handed to the transport as it is, and recorded with the way
/// it ended. What the transport answers to a combined write and read is
/// settled by [`settle`]: an answer that does not hold exactly the bytes
/// asked for counts as a fault.
pub struct Recorded<T> {
    transport: T,
    record: Ghost<Seq<Exchange>>,
}

impl<T: RawBus> Recorded<T> {
    /// The transport that the calls are handed to.
    pub closed spec fn transport(self) -> T {
        self.transport
    }

    /// `transport` with an empty record.
    pub fn new(transport: T) -> (bus: Recorded<T>)
        ensures
            bus.transport() == transport,
            bus.traffic() == Seq::<Exchange>::empty(),
    {
        Recorded { transport, record: Ghost(Seq::empty()) }
    }

    /// Gives the transport back.
    pub fn into_inner(self) -> (transport: T)
        ensures
            transport == self.transport(),
    {
        self.transport
    }
}

impl<T: RawBus> Bus for Recorded<T> {
    closed spec fn traffic(&self) -> Seq<Exchange> {
        self.record@
    }

    fn write(&mut self, address: u8, bytes: &[u8]) -> (outcome: Result<(), BusFault>) {
        let outcome = self.transport.write(address, bytes);
        proof {
            self.record@ = self.record@.push(write_exchange(address, bytes@, outcome is Ok));
        }
        outcome
    }

    /// Asks the transport for as many bytes as `buffer` holds and settles
    /// its answer with [`settle`].
    fn write_read(&mut self, address: u8, bytes: &[u8], buffer: &mut [u8]) -> (outcome: Result<
        (),
        BusFault,
    >)
        ensures
            outcome is Err ==> final(buffer)@ == old(buffer)@,
    {
        let answer = self.transport.write_read(address, bytes, buffer.len());
        let outcome = settle(answer, buffer);
        proof {
            self.record@ = self.record@.push(
                write_read_exchange(address, bytes@, buffer@.len(), outcome is Ok, buffer@),
            );
        }
        outcome
    }
}

/// Whether `answer` is a complete answer to a read of `count` bytes: the
/// transport did not fail, and it delivered exactly `count` bytes.
pub open spec fn is_complete(answer: Result<Vec<u8>, BusFault>, count: nat) -> bool {
    answer matches Ok(data) && data@.len() == count
}

/// Settles what a transport answered to a read that is to fill `buffer`.
///
/// There is no partial success. A complete answer is copied into `buffer`
/// and the read has succeeded. A fault of the transport, and an answer of
/// any other length than that of `buffer`, is a fault, and `buffer` stays as
/// it was.
pub fn settle(answer: Result<Vec<u8>, BusFault>, buffer: &mut [u8]) -> (outcome: Result<
    (),
    BusFault,
>)
    ensures
        final(buffer)@.len() == old(buffer)@.len(),
        outcome is Ok <==> is_complete(answer, old(buffer)@.len()),
        outcome is Ok ==> (answer matches Ok(data) && final(buffer)@ == data@),
        outcome is Err ==> final(buffer)@ == old(buffer)@,
{
    match answer {
        Ok(data) => {
            if data.len() == buffer.len() {
                fill(buffer, data.as_slice());
                Ok(())
            } else {
                Err(BusFault)
            }
        },
        Err(_) => Err(BusFault),
    }
}

/// Overwrites `buffer` with `source`.
pub(crate) fn fill(buffer: &mut [u8], source: &[u8])
    requires
        old(buffer)@.len() == source@.len(),
    ensures
        final(buffer)@ == source@,
{
    let mut i: usize = 0;
    while i < source.len()
        invariant
            i <= source@.len(),
            buffer@.len() == source@.len(),
            buffer@.take(i as int) == source@.take(i as int),
        decreases source@.len() - i,
    {
        buffer[i] = source[i];
        assert(buffer@.take(i + 1) =~= source@.take(i + 1));
        i = i + 1;
    }
    assert(buffer@.take(i as int) =~= buffer@);
    assert(source@.take(i as int) =~= source@);
}

} // verus!
