use vstd::prelude::*;

use crate::throttle::ThrottleConfig;

verus! {

/// What the task that runs one direction of a throttled relay does next.
pub enum Step {
    /// Read at most `max_len` bytes from the source stream.
    Read { max_len: usize },
    /// Sleep for `millis` milliseconds.
    Pause { millis: u64 },
    /// Write all of `chunk` to the destination stream.
    Write { chunk: Vec<u8> },
    /// Stop: `clean` after end of stream, not after a failure.
    Finished { clean: bool },
}

/// What came of the last step.
pub enum Event {
    /// A read returned these bytes; none at all means end of stream.
    Received(Vec<u8>),
    ReadFailed,
    Paused,
    Written,
    WriteFailed,
}

/// Where one direction of a throttled relay stands.
pub enum CopyPhase {
    Reading,
    Pausing,
    Writing,
    Ended { clean: bool },
}

/// Whether `event` can be the outcome of the step taken in `phase`.
pub open spec fn expected_event(phase: CopyPhase, event: Event) -> bool {
    match phase {
        CopyPhase::Reading => event is Received || event is ReadFailed,
        CopyPhase::Pausing => event is Paused,
        CopyPhase::Writing => event is Written || event is WriteFailed,
        CopyPhase::Ended { .. } => false,
    }
}

/// One direction of a throttled relay: it reads a chunk of at most the
/// configured size, pauses for the configured delay, writes the chunk to
/// the other side, and starts over until the source ends or an I/O
/// operation fails. The ghost fields record every byte read, every byte
/// written and every pause taken.
pub struct ThrottledCopy {
    config: ThrottleConfig,
    phase: CopyPhase,
    pending: Vec<u8>,
    received: Ghost<Seq<u8>>,
    forwarded: Ghost<Seq<u8>>,
    in_flight: Ghost<Seq<u8>>,
    pauses: Ghost<nat>,
}

impl ThrottledCopy {
    pub closed spec fn config(self) -> ThrottleConfig {
        self.config
    }

    pub closed spec fn phase(self) -> CopyPhase {
        self.phase
    }

    /// Every byte read from the source so far, in order.
    pub closed spec fn received(self) -> Seq<u8> {
        self.received@
    }

    /// Every byte written to the destination so far, in order.
    pub closed spec fn forwarded(self) -> Seq<u8> {
        self.forwarded@
    }

    /// The chunk read and not yet written.
    pub closed spec fn in_flight(self) -> Seq<u8> {
        self.in_flight@
    }

    /// How many pauses have been taken.
    pub closed spec fn pauses(self) -> nat {
        self.pauses@
    }

    /// The relation between the records that every reachable state keeps.
    pub closed spec fn wf(self) -> bool {
        &&& self.config.chunk_limit() > 0
        &&& self.received@ == self.forwarded@ + self.in_flight@
        &&& self.in_flight@.len() <= self.config.chunk_limit()
        &&& self.forwarded@.len() <= self.pauses@ * self.config.chunk_limit()
        &&& match self.phase {
            CopyPhase::Reading => self.in_flight@.len() == 0,
            CopyPhase::Pausing => self.pending@ == self.in_flight@ && self.in_flight@.len() > 0,
            CopyPhase::Writing => self.in_flight@.len() > 0 && self.forwarded@.len()
                + self.in_flight@.len() <= self.pauses@ * self.config.chunk_limit(),
            CopyPhase::Ended { clean } => clean ==> self.in_flight@.len() == 0,
        }
    }

    /// A direction that has moved nothing yet, and the first step it takes:
    /// a read of one full buffer.
    pub fn new(config: ThrottleConfig) -> (r: (ThrottledCopy, Step))
        ensures
            r.0.wf(),
            r.0.config() == config,
            r.0.phase() is Reading,
            r.0.received().len() == 0,
            r.0.forwarded().len() == 0,
            r.0.pauses() == 0,
            r.1 matches Step::Read { max_len } && max_len == config.chunk_limit(),
    {
        let max_len = config.buffer_size();
        let copy = ThrottledCopy {
            config,
            phase: CopyPhase::Reading,
            pending: Vec::new(),
            received: Ghost(Seq::empty()),
            forwarded: Ghost(Seq::empty()),
            in_flight: Ghost(Seq::empty()),
            pauses: Ghost(0),
        };
        (copy, Step::Read { max_len })
    }

    fn end(&mut self, clean: bool) -> (r: Step)
        requires
            old(self).wf(),
            clean ==> old(self).in_flight().len() == 0,
        ensures
            final(self).wf(),
            final(self).phase() == (CopyPhase::Ended { clean }),
            final(self).config() == old(self).config(),
            final(self).received() == old(self).received(),
            final(self).forwarded() == old(self).forwarded(),
            final(self).pauses() == old(self).pauses(),
            r == (Step::Finished { clean }),
    {
        self.phase = CopyPhase::Ended { clean };
        Step::Finished { clean }
    }

    /// Takes the outcome of the last step and gives the next one.
    pub fn on_event(&mut self, event: Event) -> (r: Step)
        requires
            old(self).wf(),
        ensures
            final(self).wf(),
            final(self).config() == old(self).config(),
            // a read that returns data is followed by a pause
            old(self).phase() is Reading && event is Received && event->Received_0@.len() > 0
                && event->Received_0@.len() <= old(self).config().chunk_limit() ==> (r matches Step::Pause {
                millis,
            } && millis == old(self).config().pause_millis() && final(self).phase() is Pausing
                && final(self).received() == old(self).received() + event->Received_0@
                && final(self).in_flight() == event->Received_0@
                && final(self).forwarded() == old(self).forwarded()),
            // a read that returns nothing ends the direction cleanly, with
            // everything read already written
            old(self).phase() is Reading && event is Received && event->Received_0@.len() == 0
                ==> (r == (Step::Finished { clean: true }) && final(self).forwarded()
                == final(self).received() && final(self).received() == old(self).received()),
            // after the pause, the chunk that was read is written
            old(self).phase() is Pausing && event is Paused ==> (r matches Step::Write { chunk }
                && chunk@ == old(self).in_flight() && final(self).phase() is Writing
                && final(self).pauses() == old(self).pauses() + 1
                && final(self).forwarded() == old(self).forwarded()),
            // once written, the next buffer is read
            old(self).phase() is Writing && event is Written ==> (r matches Step::Read { max_len }
                && max_len == old(self).config().chunk_limit() && final(self).phase() is Reading
                && final(self).forwarded() == old(self).forwarded() + old(self).in_flight()
                && final(self).received() == old(self).received()),
            // a failed read or write ends the direction with a failure
            old(self).phase() is Reading && event is ReadFailed ==> r == (Step::Finished {
                clean: false,
            }),
            old(self).phase() is Writing && event is WriteFailed ==> r == (Step::Finished {
                clean: false,
            }),
            // an event that the last step cannot have given, or a read of
            // more than was asked, is a fault of the runner: the direction
            // ends with a failure
            !(old(self).phase() is Ended) && !expected_event(old(self).phase(), event) ==> r == (
            Step::Finished { clean: false }),
            old(self).phase() is Reading && event is Received && event->Received_0@.len()
                > old(self).config().chunk_limit() ==> r == (Step::Finished { clean: false }),
            // an ended direction stays as it ended
            old(self).phase() matches CopyPhase::Ended { clean } ==> (r == (Step::Finished {
                clean,
            }) && *final(self) == *old(self)),
            // only a pause leads to a write
            r is Write ==> old(self).phase() is Pausing && event is Paused,
            final(self).forwarded().len() <= final(self).pauses() * final(self).config().chunk_limit(),
            r is Finished ==> final(self).phase() is Ended,
    {
        match self.phase {
            CopyPhase::Ended { clean } => {
                return Step::Finished { clean };
            },
            _ => {},
        }
        match event {
            Event::Received(data) => {
                if !matches!(self.phase, CopyPhase::Reading) {
                    return self.end(false);
                }
                if data.len() == 0 {
                    return self.end(true);
                }
                if data.len() > self.config.buffer_size() {
                    return self.end(false);
                }
                proof {
                    self.received@ = self.received@ + data@;
                    self.in_flight@ = data@;
                }
                self.pending = data;
                self.phase = CopyPhase::Pausing;
                Step::Pause { millis: self.config.delay_millis() }
            },
            Event::Paused => {
                if !matches!(self.phase, CopyPhase::Pausing) {
                    return self.end(false);
                }
                let mut chunk = Vec::new();
                std::mem::swap(&mut chunk, &mut self.pending);
                proof {
                    self.pauses@ = self.pauses@ + 1;
                    assert(self.forwarded@.len() + self.in_flight@.len() <= self.pauses@
                        * self.config.chunk_limit()) by (nonlinear_arith)
                        requires
                            self.forwarded@.len() <= (self.pauses@ - 1) * self.config.chunk_limit(),
                            self.in_flight@.len() <= self.config.chunk_limit(),
                    ;
                }
                self.phase = CopyPhase::Writing;
                Step::Write { chunk }
            },
            Event::Written => {
                if !matches!(self.phase, CopyPhase::Writing) {
                    return self.end(false);
                }
                proof {
                    self.forwarded@ = self.forwarded@ + self.in_flight@;
                    self.in_flight@ = Seq::empty();
                    assert(self.received@ == self.forwarded@ + self.in_flight@);
                }
                self.phase = CopyPhase::Reading;
                Step::Read { max_len: self.config.buffer_size() }
            },
            Event::ReadFailed => {
                if !matches!(self.phase, CopyPhase::Reading) {
                    return self.end(false);
                }
                self.end(false)
            },
            Event::WriteFailed => self.end(false),
        }
    }
}

/// Each byte written went out in the order it was read, and each pause let
/// through at most one buffer: the bytes forwarded so far are a prefix of
/// those read, and there were at least as many pauses as buffers needed to
/// hold them, so the time spent pausing is at least that many delays.
pub proof fn lemma_throttled_copy_keeps_order_and_pace(c: ThrottledCopy)
    requires
        c.wf(),
    ensures
        c.forwarded() == c.received().take(c.forwarded().len() as int),
        c.forwarded().len() <= c.pauses() * c.config().chunk_limit(),
        c.pauses() >= ceil_div(c.forwarded().len(), c.config().chunk_limit()),
        c.pauses() * c.config().pause_millis() >= ceil_div(
            c.forwarded().len(),
            c.config().chunk_limit(),
        ) * c.config().pause_millis(),
{
    assert(c.forwarded() =~= c.received().take(c.forwarded().len() as int));
    let n = c.forwarded().len();
    let b = c.config().chunk_limit();
    let p = c.pauses();
    assert(p as int >= (n + b - 1) as int / b as int) by (nonlinear_arith)
        requires
            n <= p * b,
            b > 0,
    ;
    assert(p * c.config().pause_millis() >= ceil_div(n, b) * c.config().pause_millis())
        by (nonlinear_arith)
        requires
            p >= ceil_div(n, b),
    ;
}

/// The least number of buffers of `b` bytes that hold `n` bytes.
pub open spec fn ceil_div(n: nat, b: nat) -> nat
    recommends
        b > 0,
{
    ((n + b - 1) / b as int) as nat
}

/// The two directions of a tunnel.
pub enum Direction {
    ClientToServer,
    ServerToClient,
}

/// How a relay of two directions ended.
pub enum RelayOutcome {
    /// Both directions reached end of stream.
    Completed,
    /// This direction failed first; the other one is left to run on, no
    /// longer awaited.
    Failed { direction: Direction },
}

/// Joins the two directions of a throttled relay: the relay ends with the
/// first failure that is reported, or succeeds once both directions have
/// ended cleanly. It is settled once, and later reports change nothing.
pub struct RelayJoin {
    client_to_server: Option<bool>,
    server_to_client: Option<bool>,
    outcome: Option<RelayOutcome>,
}

impl RelayJoin {
    /// How `direction` ended: `Some(clean)`, or `None` while it runs.
    pub closed spec fn ended(self, direction: Direction) -> Option<bool> {
        match direction {
            Direction::ClientToServer => self.client_to_server,
            Direction::ServerToClient => self.server_to_client,
        }
    }

    /// The outcome, once the relay is settled.
    pub closed spec fn settled(self) -> Option<RelayOutcome> {
        self.outcome
    }

    /// The state after `d` reports its end, and the outcome that the
    /// report settles, if any.
    pub closed spec fn join_step(self, d: Direction, clean: bool) -> (RelayJoin, Option<RelayOutcome>) {
        let c2s = if d is ClientToServer { Some(clean) } else { self.client_to_server };
        let s2c = if d is ServerToClient { Some(clean) } else { self.server_to_client };
        let r = if self.outcome is Some {
            None
        } else if !clean {
            Some(RelayOutcome::Failed { direction: d })
        } else if self.ended(other(d)) == Some(true) {
            Some(RelayOutcome::Completed)
        } else {
            None
        };
        let outcome = if self.outcome is Some { self.outcome } else { r };
        (RelayJoin { client_to_server: c2s, server_to_client: s2c, outcome }, r)
    }

    /// Neither direction has ended.
    pub fn new() -> (r: RelayJoin)
        ensures
            r.ended(Direction::ClientToServer) is None,
            r.ended(Direction::ServerToClient) is None,
            r.settled() is None,
    {
        RelayJoin { client_to_server: None, server_to_client: None, outcome: None }
    }

    /// Records that `direction` ended, cleanly or not, and gives the
    /// relay's outcome where this report settles it.
    pub fn on_direction_end(&mut self, direction: Direction, clean: bool) -> (r: Option<RelayOutcome>)
        ensures
            (*final(self), r) == old(self).join_step(direction, clean),
            final(self).ended(direction) == Some(clean),
            final(self).ended(other(direction)) == old(self).ended(other(direction)),
            old(self).settled() is Some ==> r is None && final(self).settled() == old(self).settled(),
            old(self).settled() is None && !clean ==> r == Some(RelayOutcome::Failed { direction })
                && final(self).settled() == r,
            old(self).settled() is None && clean && old(self).ended(other(direction)) == Some(true)
                ==> r == Some(RelayOutcome::Completed) && final(self).settled() == r,
            old(self).settled() is None && clean && old(self).ended(other(direction)) != Some(true)
                ==> r is None && final(self).settled() is None,
    {
        let other_clean = match direction {
            Direction::ClientToServer => {
                self.client_to_server = Some(clean);
                self.server_to_client
            },
            Direction::ServerToClient => {
                self.server_to_client = Some(clean);
                self.client_to_server
            },
        };
        if self.outcome.is_some() {
            return None;
        }
        if !clean {
            let failed = match direction {
                Direction::ClientToServer => Direction::ClientToServer,
                Direction::ServerToClient => Direction::ServerToClient,
            };
            self.outcome = Some(RelayOutcome::Failed { direction: failed });
            return Some(RelayOutcome::Failed { direction });
        }
        match other_clean {
            Some(true) => {
                self.outcome = Some(RelayOutcome::Completed);
                Some(RelayOutcome::Completed)
            },
            _ => None,
        }
    }
}

/// The direction opposite to `d`.
pub open spec fn other(d: Direction) -> Direction {
    match d {
        Direction::ClientToServer => Direction::ServerToClient,
        Direction::ServerToClient => Direction::ClientToServer,
    }
}

/// A direction that ends cleanly, such as the server's after it closed its
/// stream, neither settles the relay nor stops the other direction: that
/// one goes on until its own end, and the relay succeeds once it ends
/// cleanly too.
pub proof fn lemma_clean_end_awaits_other_direction(j: RelayJoin, d: Direction)
    requires
        j.settled() is None,
        j.ended(other(d)) is None,
    ensures
        ({
            let (after, r) = j.join_step(d, true);
            &&& r is None
            &&& after.settled() is None
            &&& after.ended(other(d)) is None
            &&& after.join_step(other(d), true).1 == Some(RelayOutcome::Completed)
        }),
{
}

} // verus!
