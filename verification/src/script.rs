//! A bus that lives in memory and follows a script.
//!
//! The script lists the transactions that are expected, in order, each with
//! the way it is to end. A call that is the next one of the script ends as
//! the script says. Any other call fails, and from then on every call fails:
//! the bus has left its script. [`ScriptedBus::done`] tells whether the
//! traffic was exactly the script.

use crate::bus::{
    fill, write_exchange, write_read_exchange, Bus, BusFault, Exchange, Reply, Request,
};
use vstd::prelude::*;

verus! {

/// One expected transaction, with the way it is to end.
pub enum Step {
    /// A plain write of `bytes` to `address`, which fails if `fault` is set.
    Write { address: u8, bytes: Vec<u8>, fault: bool },
    /// A write of `bytes` to `address` followed by a read of as many bytes
    /// as `response` holds. It delivers `response`, or fails if `fault` is
    /// set.
    WriteRead { address: u8, bytes: Vec<u8>, response: Vec<u8>, fault: bool },
}

impl Step {
    /// The exchange this step stands for.
    pub open spec fn exchange(self) -> Exchange {
        match self {
            Step::Write { address, bytes, fault } => write_exchange(address, bytes@, !fault),
            Step::WriteRead { address, bytes, response, fault } => write_read_exchange(
                address,
                bytes@,
                response@.len(),
                !fault,
                response@,
            ),
        }
    }

    /// A plain write that completes.
    pub fn write(address: u8, bytes: Vec<u8>) -> (step: Step)
        ensures
            step.exchange() == write_exchange(address, bytes@, true),
    {
        Step::Write { address, bytes, fault: false }
    }

    /// A combined write and read that completes and delivers `response`.
    pub fn write_read(address: u8, bytes: Vec<u8>, response: Vec<u8>) -> (step: Step)
        ensures
            step.exchange() == write_read_exchange(
                address,
                bytes@,
                response@.len(),
                true,
                response@,
            ),
    {
        Step::WriteRead { address, bytes, response, fault: false }
    }

    /// The same transaction, but it is to fail.
    pub fn failing(self) -> (step: Step)
        ensures
            step.exchange().request == self.exchange().request,
            step.exchange().reply == Reply::Fault,
    {
        match self {
            Step::Write { address, bytes, fault: _ } => Step::Write { address, bytes, fault: true },
            Step::WriteRead { address, bytes, response, fault: _ } => Step::WriteRead {
                address,
                bytes,
                response,
                fault: true,
            },
        }
    }
}

/// What was asked in each exchange of `exchanges`, in order.
pub open spec fn requests_of(exchanges: Seq<Exchange>) -> Seq<Request> {
    Seq::new(exchanges.len(), |i: int| exchanges[i].request)
}

/// The exchanges that a list of steps stands for.
pub open spec fn plan_of(steps: Seq<Step>) -> Seq<Exchange> {
    Seq::new(steps.len(), |i: int| steps[i].exchange())
}

/// Whether two byte strings are the same.
fn same_bytes(a: &[u8], b: &[u8]) -> (same: bool)
    ensures
        same == (a@ == b@),
{
    if a.len() != b.len() {
        return false;
    }
    let mut i: usize = 0;
    while i < a.len()
        invariant
            i <= a@.len(),
            a@.len() == b@.len(),
            a@.take(i as int) == b@.take(i as int),
        decreases a@.len() - i,
    {
        if a[i] != b[i] {
            return false;
        }
        assert(a@.take(i + 1) =~= a@.take(i as int).push(a@[i as int]));
        assert(b@.take(i + 1) =~= b@.take(i as int).push(b@[i as int]));
        i = i + 1;
    }
    assert(a@.take(i as int) =~= a@);
    assert(b@.take(i as int) =~= b@);
    true
}

/// A bus that follows a script.
pub struct ScriptedBus {
    script: Vec<Step>,
    /// How many steps of the script have been played.
    next: usize,
    /// What happened after the bus left its script; empty while it is on it.
    stray: Stray,
}

/// The part of the traffic that was not in the script. The flag and the
/// exchanges stand in one value so that both change in one assignment.
struct Stray {
    left: bool,
    extra: Ghost<Seq<Exchange>>,
}

impl ScriptedBus {
    #[verifier::type_invariant]
    spec fn well_formed(self) -> bool {
        &&& self.next <= self.script@.len()
        &&& self.stray.left <==> self.stray.extra@.len() > 0
        &&& self.stray.left ==> (self.next == self.script@.len() || self.stray.extra@[0].request
            != self.script@[self.next as int].exchange().request)
    }

    /// The exchanges the script asks for, in order.
    pub closed spec fn plan(&self) -> Seq<Exchange> {
        plan_of(self.script@)
    }

    /// Whether `request` is the next transaction of the script: the bus has
    /// not left its script, and the first step not yet played asks for
    /// `request`.
    pub open spec fn expects(&self, request: Request) -> bool {
        let played = self.traffic().len() as int;
        &&& played < self.plan().len()
        &&& self.traffic() == self.plan().take(played)
        &&& self.plan()[played].request == request
    }

    /// The step that is played next while the bus is on its script.
    pub open spec fn upcoming(&self) -> Exchange {
        self.plan()[self.traffic().len() as int]
    }

    /// A bus that expects the transactions of `script`, in order, and
    /// nothing else.
    pub fn new(script: Vec<Step>) -> (bus: ScriptedBus)
        ensures
            bus.plan() == plan_of(script@),
            bus.traffic() == Seq::<Exchange>::empty(),
    {
        let bus = ScriptedBus {
            script,
            next: 0,
            stray: Stray { left: false, extra: Ghost(Seq::empty()) },
        };
        assert(bus.traffic() =~= Seq::<Exchange>::empty());
        bus
    }

    /// The traffic is the beginning of the plan exactly while the bus has
    /// not left its script, and then as long as the steps played.
    proof fn lemma_on_script(&self)
        requires
            self.well_formed(),
        ensures
            !self.stray.left ==> self.traffic() == self.plan().take(self.next as int),
            !self.stray.left ==> self.traffic().len() == self.next,
            self.stray.left ==> self.traffic().len() > self.next,
            self.stray.left && self.traffic().len() <= self.plan().len() ==> self.traffic()
                != self.plan().take(self.traffic().len() as int),
    {
        let plan = self.plan();
        if self.stray.left {
            if self.traffic().len() <= plan.len() {
                assert(self.traffic()[self.next as int] == self.stray.extra@[0]);
                assert(plan.take(self.traffic().len() as int)[self.next as int]
                    == plan[self.next as int]);
            }
        } else {
            assert(self.traffic() =~= plan.take(self.next as int));
        }
    }

    /// Whether the traffic so far is exactly the script: every call was the
    /// next one expected, and none is left. For that it is enough that the
    /// transactions asked for were those of the script, in order: the bus
    /// then ended each as the script says.
    pub fn done(&self) -> (finished: bool)
        ensures
            finished == (self.traffic() == self.plan()),
            finished == (requests_of(self.traffic()) == requests_of(self.plan())),
    {
        proof {
            use_type_invariant(self);
            self.lemma_on_script();
            let plan = self.plan();
            let traffic = self.traffic();
            if requests_of(traffic) == requests_of(plan) {
                assert(traffic.len() == requests_of(traffic).len());
                assert(plan.len() == requests_of(plan).len());
                if self.stray.left {
                    let at = self.next as int;
                    assert(traffic[at] == self.stray.extra@[0]);
                    assert(requests_of(traffic)[at] == traffic[at].request);
                    assert(requests_of(plan)[at] == plan[at].request);
                }
            }
            if !self.stray.left && self.next == plan.len() {
                assert(plan.take(self.next as int) =~= plan);
            }
        }
        !self.stray.left && self.next == self.script.len()
    }
}

impl Bus for ScriptedBus {
    closed spec fn traffic(&self) -> Seq<Exchange> {
        self.plan().take(self.next as int) + self.stray.extra@
    }

    /// Plays the next step if it is this write, and leaves the script with
    /// a fault otherwise.
    fn write(&mut self, address: u8, bytes: &[u8]) -> (outcome: Result<(), BusFault>)
        ensures
            final(self).plan() == old(self).plan(),
            old(self).expects(Request::Write { address, bytes: bytes@ }) ==> final(self).traffic()
                == old(self).traffic().push(old(self).upcoming()),
            !old(self).expects(Request::Write { address, bytes: bytes@ }) ==> outcome is Err,
    {
        proof {
            use_type_invariant(&*self);
            self.lemma_on_script();
        }
        let ghost before = self.traffic();
        let ghost plan = self.plan();
        if !self.stray.left && self.next < self.script.len() {
            let mut expected: bool = false;
            let mut fault: bool = false;
            match &self.script[self.next] {
                Step::Write { address: a, bytes: b, fault: f } => {
                    expected = *a == address && same_bytes(b.as_slice(), bytes);
                    fault = *f;
                },
                Step::WriteRead { .. } => {},
            }
            if expected {
                self.next = self.next + 1;
                assert(self.traffic() =~= before.push(write_exchange(address, bytes@, !fault))) by {
                    assert(plan.take(self.next as int) =~= plan.take(self.next - 1).push(
                        plan[self.next - 1],
                    ));
                }
                return if fault {
                    Err(BusFault)
                } else {
                    Ok(())
                };
            }
        }
        let ghost exchange = write_exchange(address, bytes@, false);
        self.stray = Stray { left: true, extra: Ghost(self.stray.extra@.push(exchange)) };
        assert(self.traffic() =~= before.push(exchange));
        Err(BusFault)
    }

    /// Plays the next step if it is this write and read, and leaves the
    /// script with a fault otherwise.
    fn write_read(&mut self, address: u8, bytes: &[u8], buffer: &mut [u8]) -> (outcome: Result<
        (),
        BusFault,
    >)
        ensures
            final(self).plan() == old(self).plan(),
            old(self).expects(
                Request::WriteRead { address, bytes: bytes@, count: old(buffer)@.len() },
            ) ==> final(self).traffic() == old(self).traffic().push(old(self).upcoming()),
            !old(self).expects(
                Request::WriteRead { address, bytes: bytes@, count: old(buffer)@.len() },
            ) ==> outcome is Err,
            outcome is Err ==> final(buffer)@ == old(buffer)@,
    {
        proof {
            use_type_invariant(&*self);
            self.lemma_on_script();
        }
        let ghost before = self.traffic();
        let ghost plan = self.plan();
        let ghost count = buffer@.len();
        if !self.stray.left && self.next < self.script.len() {
            let mut expected: bool = false;
            let mut fault: bool = false;
            match &self.script[self.next] {
                Step::WriteRead { address: a, bytes: b, response, fault: f } => {
                    expected = *a == address && same_bytes(b.as_slice(), bytes) && response.len()
                        == buffer.len();
                    fault = *f;
                    if expected && !fault {
                        fill(buffer, response.as_slice());
                    }
                },
                Step::Write { .. } => {},
            }
            if expected {
                self.next = self.next + 1;
                assert(self.traffic() =~= before.push(
                    write_read_exchange(address, bytes@, count, !fault, buffer@),
                )) by {
                    assert(plan.take(self.next as int) =~= plan.take(self.next - 1).push(
                        plan[self.next - 1],
                    ));
                }
                return if fault {
                    Err(BusFault)
                } else {
                    Ok(())
                };
            }
        }
        let ghost exchange = write_read_exchange(address, bytes@, count, false, buffer@);
        self.stray = Stray { left: true, extra: Ghost(self.stray.extra@.push(exchange)) };
        assert(self.traffic() =~= before.push(exchange));
        Err(BusFault)
    }
}

} // verus!
