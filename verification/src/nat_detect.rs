//! NAT behaviour classification from STUN probe outcomes.
//!
//! The classification is a pure decision procedure over the externally
//! observed addresses of a fixed probe sequence: the first probe asks
//! rendezvous server A for the mapping of the primary socket, the second asks
//! server B for the mapping of the same socket, and the third asks server A
//! again from a second, freshly bound socket. Each probe is attempted up to
//! three times; exhausting the attempts of a probe fails the run with the
//! probe's own error. The runtime layer resolves the servers, binds the
//! sockets and performs the queries, feeding one [`AttemptOutcome`] per query
//! into the machine and obeying the [`NatStep`] it returns.

use vstd::prelude::*;

verus! {

/// How many times one probe is attempted before it counts as unanswered.
pub const PROBE_ATTEMPTS: u8 = 3;

/// The five mutually exclusive NAT categories.
#[derive(Clone, Copy, PartialEq, Eq, Structural)]
pub enum NatType {
    OpenInternet,
    FullCone,
    RestrictedCone,
    PortRestrictedCone,
    Symmetric,
}

/// Failures of a classification run.
#[derive(Clone, Copy, PartialEq, Eq, Structural)]
pub enum NatError {
    /// A rendezvous server name yielded no usable address.
    StunServerResolutionError,
    /// A local socket could not be bound.
    LocalBindError,
    /// The first probe got no reply at all: UDP egress is blocked.
    UdpBlocked,
    /// The second probe got no reply: a symmetric UDP firewall.
    SymmetricUdpFirewall,
    /// The third probe got no reply.
    Unknown,
}

/// An externally observed IPv4 endpoint.
#[derive(Clone, Copy, PartialEq, Eq, Structural)]
pub struct Endpoint {
    pub ip: u32,
    pub port: u16,
}

/// The three probes of a classification run, in order.
#[derive(Clone, Copy, PartialEq, Eq, Structural)]
pub enum ProbeKind {
    /// Query server A from the primary socket.
    InitialMapping,
    /// Query server B from the primary socket.
    SecondServer,
    /// Query server A again from a second, freshly bound socket.
    Rebind,
}

/// The result of one probe attempt.
#[derive(Clone, Copy, PartialEq, Eq, Structural)]
pub enum AttemptOutcome {
    /// The server reported this external mapping.
    Mapped(Endpoint),
    /// No usable reply arrived within the attempt's timeout.
    NoReply,
}

/// What the classifier asks for after consuming one attempt outcome.
#[derive(Clone, Copy, PartialEq, Eq, Structural)]
pub enum NatStep {
    /// Attempt the same probe again.
    Retry(ProbeKind),
    /// Move on to the next probe.
    Probe(ProbeKind),
    /// The run is over with a classification.
    Classified(NatType),
    /// The run is over with a failure.
    Failed(NatError),
}

/// The classifier's state between attempts.
pub struct NatMachine {
    /// The IP of the locally bound primary socket, compared against the first
    /// observed mapping.
    pub local_ip: u32,
    /// The probe currently being attempted; `None` once the run is over.
    pub pending: Option<ProbeKind>,
    /// Failed attempts of the pending probe so far.
    pub failures: u8,
    /// The mapping that the first probe observed.
    pub first_mapping: Option<Endpoint>,
}

/// The error with which an unanswered probe fails the run.
pub open spec fn spec_probe_failure(p: ProbeKind) -> NatError {
    match p {
        ProbeKind::InitialMapping => NatError::UdpBlocked,
        ProbeKind::SecondServer => NatError::SymmetricUdpFirewall,
        ProbeKind::Rebind => NatError::Unknown,
    }
}

/// The classification once the rebind probe observed `e` and the first probe
/// observed `first`: the exact mapping again is a full cone; the same address
/// on another port splits on the port comparison, which the exact-match test
/// has already decided, so the port-restricted cone is the general case.
pub open spec fn spec_rebind_class(first: Endpoint, e: Endpoint) -> NatType {
    if e == first {
        NatType::FullCone
    } else if e.port == first.port {
        NatType::RestrictedCone
    } else {
        NatType::PortRestrictedCone
    }
}

impl NatMachine {
    /// A machine is either finished or mid-probe with its bookkeeping in
    /// range.
    pub open spec fn wf(&self) -> bool {
        &&& self.failures < PROBE_ATTEMPTS
        &&& (match self.pending {
            Some(ProbeKind::InitialMapping) => self.first_mapping is None,
            Some(ProbeKind::SecondServer) => self.first_mapping is Some,
            Some(ProbeKind::Rebind) => self.first_mapping is Some,
            None => true,
        })
    }

    /// The run is over; no further probe is wanted.
    pub open spec fn spec_done(&self) -> bool {
        self.pending is None
    }

    /// The machine after recording one more failed attempt of the pending
    /// probe.
    pub open spec fn spec_retry(self) -> NatMachine {
        NatMachine { failures: (self.failures + 1) as u8, ..self }
    }

    /// The machine after moving on to probe `p` with the first observed
    /// mapping `first`.
    pub open spec fn spec_advance(self, p: ProbeKind, first: Endpoint) -> NatMachine {
        NatMachine {
            pending: Some(p),
            failures: 0,
            first_mapping: Some(first),
            local_ip: self.local_ip,
        }
    }

    /// The machine once the run is over.
    pub open spec fn spec_finish(self) -> NatMachine {
        NatMachine { pending: None, ..self }
    }

    /// What consuming `outcome` in state `self` yields: the successor state
    /// and the step the runtime must take.
    pub open spec fn spec_step(self, outcome: AttemptOutcome) -> (NatMachine, NatStep) {
        let p = self.pending->0;
        match outcome {
            AttemptOutcome::NoReply => {
                if self.failures + 1 < PROBE_ATTEMPTS {
                    (self.spec_retry(), NatStep::Retry(p))
                } else {
                    (self.spec_finish(), NatStep::Failed(spec_probe_failure(p)))
                }
            },
            AttemptOutcome::Mapped(e) => {
                match p {
                    ProbeKind::InitialMapping => {
                        if e.ip == self.local_ip {
                            (self.spec_finish(), NatStep::Classified(NatType::OpenInternet))
                        } else {
                            (
                                self.spec_advance(ProbeKind::SecondServer, e),
                                NatStep::Probe(ProbeKind::SecondServer),
                            )
                        }
                    },
                    ProbeKind::SecondServer => {
                        if e.ip != self.first_mapping->0.ip {
                            (self.spec_finish(), NatStep::Classified(NatType::Symmetric))
                        } else {
                            (
                                self.spec_advance(ProbeKind::Rebind, self.first_mapping->0),
                                NatStep::Probe(ProbeKind::Rebind),
                            )
                        }
                    },
                    ProbeKind::Rebind => {
                        (
                            self.spec_finish(),
                            NatStep::Classified(spec_rebind_class(self.first_mapping->0, e)),
                        )
                    },
                }
            },
        }
    }

    /// The initial state of a run for a primary socket bound to `local_ip`.
    pub open spec fn spec_begin(local_ip: u32) -> NatMachine {
        NatMachine {
            local_ip,
            pending: Some(ProbeKind::InitialMapping),
            failures: 0,
            first_mapping: None,
        }
    }

    /// A fresh run for a primary socket bound to `local_ip`, waiting for the
    /// first attempt of the initial probe.
    pub fn begin(local_ip: u32) -> (m: NatMachine)
        ensures
            m.wf(),
            m == NatMachine::spec_begin(local_ip),
    {
        NatMachine {
            local_ip,
            pending: Some(ProbeKind::InitialMapping),
            failures: 0,
            first_mapping: None,
        }
    }

    /// Consumes the outcome of one probe attempt and decides how the run
    /// continues.
    pub fn step(&mut self, outcome: AttemptOutcome) -> (s: NatStep)
        requires
            old(self).wf(),
            !old(self).spec_done(),
        ensures
            final(self).wf(),
            (*final(self), s) == old(self).spec_step(outcome),
    {
        let pending = match &self.pending {
            Some(p) => *p,
            None => ProbeKind::InitialMapping,  // unreachable under the precondition
        };
        match outcome {
            AttemptOutcome::NoReply => {
                if self.failures + 1 < PROBE_ATTEMPTS {
                    self.failures = self.failures + 1;
                    NatStep::Retry(pending)
                } else {
                    self.pending = None;
                    match pending {
                        ProbeKind::InitialMapping => NatStep::Failed(NatError::UdpBlocked),
                        ProbeKind::SecondServer => NatStep::Failed(
                            NatError::SymmetricUdpFirewall,
                        ),
                        ProbeKind::Rebind => NatStep::Failed(NatError::Unknown),
                    }
                }
            },
            AttemptOutcome::Mapped(e) => {
                match pending {
                    ProbeKind::InitialMapping => {
                        if e.ip == self.local_ip {
                            self.pending = None;
                            NatStep::Classified(NatType::OpenInternet)
                        } else {
                            self.pending = Some(ProbeKind::SecondServer);
                            self.failures = 0;
                            self.first_mapping = Some(e);
                            NatStep::Probe(ProbeKind::SecondServer)
                        }
                    },
                    ProbeKind::SecondServer => {
                        let first = match &self.first_mapping {
                            Some(f) => *f,
                            None => e,  // unreachable under the invariant
                        };
                        if e.ip != first.ip {
                            self.pending = None;
                            NatStep::Classified(NatType::Symmetric)
                        } else {
                            self.pending = Some(ProbeKind::Rebind);
                            self.failures = 0;
                            NatStep::Probe(ProbeKind::Rebind)
                        }
                    },
                    ProbeKind::Rebind => {
                        let first = match &self.first_mapping {
                            Some(f) => *f,
                            None => e,  // unreachable under the invariant
                        };
                        self.pending = None;
                        if e.ip == first.ip && e.port == first.port {
                            NatStep::Classified(NatType::FullCone)
                        } else if e.port == first.port {
                            NatStep::Classified(NatType::RestrictedCone)
                        } else {
                            NatStep::Classified(NatType::PortRestrictedCone)
                        }
                    },
                }
            },
        }
    }
}

/// A termination measure for a run that keeps feeding outcomes: each step
/// either advances to a later probe or uses up one more attempt of the
/// pending one.
pub open spec fn machine_measure(m: NatMachine) -> int {
    let rank: int = match m.pending {
        None => 0,
        Some(ProbeKind::Rebind) => 1,
        Some(ProbeKind::SecondServer) => 2,
        Some(ProbeKind::InitialMapping) => 3,
    };
    let left: int = if m.failures < PROBE_ATTEMPTS {
        PROBE_ATTEMPTS - m.failures
    } else {
        0
    };
    rank * PROBE_ATTEMPTS + left
}

/// The result of running the machine `m` over the scripted outcomes `outs`,
/// feeding `NoReply` once the script is exhausted.
pub open spec fn spec_detect(m: NatMachine, outs: Seq<AttemptOutcome>) -> Result<NatType, NatError>
    decreases outs.len(), machine_measure(m),
{
    let o = if outs.len() > 0 {
        outs[0]
    } else {
        AttemptOutcome::NoReply
    };
    let rest = if outs.len() > 0 {
        outs.drop_first()
    } else {
        outs
    };
    let next = m.spec_step(o);
    match next.1 {
        NatStep::Classified(t) => Ok(t),
        NatStep::Failed(e) => Err(e),
        _ => spec_detect(next.0, rest),
    }
}

impl NatType {
    /// Runs a whole classification over the scripted attempt outcomes,
    /// consuming them in order and treating an exhausted script as a probe
    /// that gets no reply.
    pub fn detect(local_ip: u32, outcomes: &Vec<AttemptOutcome>) -> (r: Result<NatType, NatError>)
        ensures
            r == spec_detect(NatMachine::spec_begin(local_ip), outcomes@),
    {
        let mut m = NatMachine::begin(local_ip);
        let mut i: usize = 0;
        proof {
            assert(outcomes@.skip(0) =~= outcomes@);
        }
        loop
            invariant
                m.wf(),
                !m.spec_done(),
                i <= outcomes@.len(),
                spec_detect(NatMachine::spec_begin(local_ip), outcomes@) == spec_detect(
                    m,
                    outcomes@.skip(i as int),
                ),
            decreases outcomes@.len() - i, machine_measure(m),
        {
            let ghost rest_pre = outcomes@.skip(i as int);
            let o = if i < outcomes.len() {
                let v = outcomes[i];
                i = i + 1;
                v
            } else {
                AttemptOutcome::NoReply
            };
            proof {
                if rest_pre.len() > 0 {
                    assert(rest_pre[0] == outcomes@[i - 1]);
                    assert(rest_pre.drop_first() =~= outcomes@.skip(i as int));
                } else {
                    assert(outcomes@.skip(i as int) =~= rest_pre);
                }
            }
            match m.step(o) {
                NatStep::Classified(t) => {
                    return Ok(t);
                },
                NatStep::Failed(e) => {
                    return Err(e);
                },
                NatStep::Retry(_) => (),
                NatStep::Probe(_) => (),
            }
        }
    }
}

/// An external mapping equal to the local address classifies the run as open
/// internet on the very first answered probe: the machine is finished and
/// neither the second server nor the rebind probe is ever requested.
pub proof fn lemma_open_internet_needs_one_probe(local_ip: u32, e: Endpoint)
    requires
        e.ip == local_ip,
    ensures
        ({
            let m = NatMachine::spec_begin(local_ip);
            let (m1, s1) = m.spec_step(AttemptOutcome::Mapped(e));
            s1 == NatStep::Classified(NatType::OpenInternet) && m1.spec_done()
        }),
{
}

/// Two answered probes whose observed addresses differ classify the run as
/// symmetric: the machine is finished and the rebind probe is never
/// requested.
pub proof fn lemma_symmetric_needs_two_probes(local_ip: u32, e1: Endpoint, e2: Endpoint)
    requires
        e1.ip != local_ip,
        e2.ip != e1.ip,
    ensures
        ({
            let m = NatMachine::spec_begin(local_ip);
            let (m1, s1) = m.spec_step(AttemptOutcome::Mapped(e1));
            let (m2, s2) = m1.spec_step(AttemptOutcome::Mapped(e2));
            s1 == NatStep::Probe(ProbeKind::SecondServer) && s2 == NatStep::Classified(
                NatType::Symmetric,
            ) && m2.spec_done()
        }),
{
}

} // verus!
