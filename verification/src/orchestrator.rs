//! The client connection orchestrator.
//!
//! The orchestrator decides how many connection attempts to make, in what
//! order and against which targets; it never performs an attempt itself.
//! The caller that owns the network repeatedly asks [`Orchestrator::next_target`]
//! which relay to try, performs one attempt against it (create a session,
//! then run it to completion), and reports back through
//! [`Orchestrator::record_attempt`].  Why an attempt ended is deliberately
//! ignored: retry decisions are purely policy-driven, so per-attempt
//! failures are swallowed and can never end the schedule early.

use vstd::prelude::*;

use crate::config::AttemptOutcome;
use crate::config::Endpoint;
use crate::config::RetryMode;
use crate::config::RetryPolicy;

verus! {

/// The endpoints one iteration attempts, in order: the primary, then the
/// fallback when one is configured.
pub open spec fn iteration(primary: Endpoint, fallback: Option<Endpoint>) -> Seq<Endpoint> {
    match fallback {
        Some(f) => seq![primary, f],
        None => seq![primary],
    }
}

/// The endpoints attempted by `iterations` complete iterations, in order.
pub open spec fn schedule(primary: Endpoint, fallback: Option<Endpoint>, iterations: nat) -> Seq<
    Endpoint,
>
    decreases iterations,
{
    if iterations == 0 {
        Seq::empty()
    } else {
        schedule(primary, fallback, (iterations - 1) as nat) + iteration(primary, fallback)
    }
}

/// The orchestrator's abstract state: the fixed attempt configuration,
/// how far the schedule has come, and the record of every attempt
/// directed so far, oldest first.
#[verifier::ext_equal]
pub ghost struct OrchestratorModel {
    /// Host of the local service being exposed; handed unchanged to every
    /// session creation.
    pub local_host: String,
    /// Port of the local service being exposed.
    pub local_port: u16,
    /// Optional authentication token, handed unchanged to every session
    /// creation.
    pub secret: Option<String>,
    /// The primary relay target.
    pub primary: Endpoint,
    /// The optional fallback relay target.
    pub fallback: Option<Endpoint>,
    /// Relentless or bounded operation.
    pub mode: RetryMode,
    /// Complete iterations performed so far.
    pub iterations: nat,
    /// Whether the current iteration's primary attempt has ended and its
    /// fallback attempt is still owed.
    pub pending_fallback: bool,
    /// Every endpoint attempted so far, in order.
    pub attempts: Seq<Endpoint>,
}

impl OrchestratorModel {
    /// The record of attempts is exactly the completed iterations, plus
    /// the primary attempt of the current iteration when its fallback
    /// attempt is still owed; a fallback is owed only when one is
    /// configured; bounded mode never exceeds its count.
    pub open spec fn wf(self) -> bool {
        &&& self.pending_fallback ==> self.fallback is Some
        &&& self.attempts == schedule(self.primary, self.fallback, self.iterations) + (
        if self.pending_fallback {
            seq![self.primary]
        } else {
            Seq::<Endpoint>::empty()
        })
        &&& self.mode matches RetryMode::Bounded(c) ==> self.iterations + (
        if self.pending_fallback {
            1nat
        } else {
            0nat
        }) <= c as nat
    }

    /// Whether the configured work is exhausted.  Relentless mode is
    /// never done; bounded mode is done after its full count of
    /// iterations.
    pub open spec fn done(self) -> bool {
        match self.mode {
            RetryMode::Relentless => false,
            RetryMode::Bounded(c) => self.iterations >= c as nat,
        }
    }

    /// The target of the next attempt: the fallback when one is owed for
    /// the current iteration, the primary otherwise.
    pub open spec fn next_endpoint(self) -> Endpoint {
        if self.pending_fallback {
            self.fallback->0
        } else {
            self.primary
        }
    }

    /// The state after the next attempt ends with `outcome`.  The outcome
    /// takes no part in the result: the next state depends only on the
    /// policy and on how far the schedule has come.
    pub open spec fn step(self, outcome: AttemptOutcome) -> OrchestratorModel {
        if self.pending_fallback {
            OrchestratorModel {
                iterations: self.iterations + 1,
                pending_fallback: false,
                attempts: self.attempts.push(self.fallback->0),
                ..self
            }
        } else if self.fallback is Some {
            OrchestratorModel {
                pending_fallback: true,
                attempts: self.attempts.push(self.primary),
                ..self
            }
        } else {
            OrchestratorModel {
                iterations: self.iterations + 1,
                attempts: self.attempts.push(self.primary),
                ..self
            }
        }
    }
}

/// One completed attempt keeps the orchestrator's record well formed and
/// extends it with exactly the endpoint that was owed.
pub proof fn lemma_step_preserves_wf(m: OrchestratorModel, outcome: AttemptOutcome)
    requires
        m.wf(),
        !m.done(),
    ensures
        m.step(outcome).wf(),
        m.step(outcome).attempts == m.attempts.push(m.next_endpoint()),
{
    let post = m.step(outcome);
    if m.pending_fallback {
        assert(post.attempts =~= schedule(m.primary, m.fallback, m.iterations + 1)
            + Seq::<Endpoint>::empty());
    } else if m.fallback is Some {
        assert(post.attempts =~= schedule(m.primary, m.fallback, m.iterations)
            + seq![m.primary]);
    } else {
        assert(post.attempts =~= schedule(m.primary, m.fallback, m.iterations + 1)
            + Seq::<Endpoint>::empty());
    }
}

/// Law: why an attempt ended never matters.  A failed connection, a
/// session lost while running and a clean session end all drive the
/// orchestrator to the same next state, so no per-attempt error can
/// terminate it or skip the next scheduled attempt.
pub proof fn lemma_outcome_ignored(m: OrchestratorModel, a: AttemptOutcome, b: AttemptOutcome)
    ensures
        m.step(a) == m.step(b),
{
}

/// Law: relentless mode never exhausts its work, whatever has happened so
/// far; and since a relentless policy carries no iteration count, no
/// bounded count can take part in that decision.
pub proof fn lemma_relentless_never_done(m: OrchestratorModel)
    requires
        m.mode == RetryMode::Relentless,
    ensures
        !m.done(),
{
}

/// The orchestrator's state after a whole sequence of attempt outcomes,
/// oldest first.
pub open spec fn run_steps(m: OrchestratorModel, outcomes: Seq<AttemptOutcome>) -> OrchestratorModel
    decreases outcomes.len(),
{
    if outcomes.len() == 0 {
        m
    } else {
        run_steps(m.step(outcomes[0]), outcomes.drop_first())
    }
}

/// Law: no finite observation window exhausts a relentless orchestrator.
/// After any finite sequence of attempt outcomes it is still not done and
/// its attempt record has grown by exactly one per outcome, so the number
/// of attempts — and with it the number of completed iterations — grows
/// without bound as the window grows.
pub proof fn lemma_relentless_unbounded(m: OrchestratorModel, outcomes: Seq<AttemptOutcome>)
    requires
        m.wf(),
        m.mode == RetryMode::Relentless,
    ensures
        run_steps(m, outcomes).wf(),
        !run_steps(m, outcomes).done(),
        run_steps(m, outcomes).mode == RetryMode::Relentless,
        run_steps(m, outcomes).attempts.len() == m.attempts.len() + outcomes.len(),
    decreases outcomes.len(),
{
    if outcomes.len() > 0 {
        lemma_step_preserves_wf(m, outcomes[0]);
        lemma_relentless_unbounded(m.step(outcomes[0]), outcomes.drop_first());
    }
}

/// Law: a bounded orchestrator that has exhausted its work has attempted
/// exactly its configured count of complete iterations, in order.
pub proof fn lemma_bounded_exhaustion(m: OrchestratorModel)
    requires
        m.wf(),
        m.done(),
        m.mode matches RetryMode::Bounded(_),
    ensures
        m.attempts == schedule(m.primary, m.fallback, m.mode.count()),
{
    assert(m.attempts =~= schedule(m.primary, m.fallback, m.mode.count()));
}

/// Law: the attempt order of a full schedule.  With no fallback every
/// attempt targets the primary and each iteration contributes one
/// attempt; with a fallback each iteration contributes two, the primary
/// at the even position and the fallback at the odd position right after
/// it.
pub proof fn lemma_schedule_order(primary: Endpoint, fallback: Option<Endpoint>, n: nat)
    ensures
        schedule(primary, fallback, n).len() == n * iteration(primary, fallback).len(),
        forall|i: int|
            0 <= i < schedule(primary, fallback, n).len()
                ==> #[trigger] schedule(primary, fallback, n)[i] == (
            if fallback is Some && i % 2 == 1 {
                fallback->0
            } else {
                primary
            }),
    decreases n,
{
    if n > 0 {
        lemma_schedule_order(primary, fallback, (n - 1) as nat);
        let prev = schedule(primary, fallback, (n - 1) as nat);
        let cur = schedule(primary, fallback, n);
        match fallback {
            Some(f) => {
                assert(iteration(primary, fallback).len() == 2);
                assert(prev.len() == (n - 1) * 2);
                assert(cur.len() == (n - 1) * 2 + 2);
                assert(cur.len() == n * 2);
            },
            None => {
                assert(iteration(primary, fallback).len() == 1);
                assert(prev.len() == (n - 1) * 1);
                assert(cur.len() == (n - 1) * 1 + 1);
                assert(cur.len() == n * 1);
            },
        }
        assert forall|i: int| 0 <= i < cur.len() implies #[trigger] cur[i] == (
        if fallback is Some && i % 2 == 1 {
            fallback->0
        } else {
            primary
        }) by {
            if i < prev.len() {
                assert(cur[i] == prev[i]);
            } else {
                assert(cur[i] == iteration(primary, fallback)[i - prev.len()]);
                if fallback is Some {
                    assert(prev.len() == (n - 1) * 2);
                    if i == prev.len() {
                        assert(i % 2 == 0);
                    } else {
                        assert(i == (n - 1) * 2 + 1);
                        assert(i % 2 == 1);
                    }
                }
            }
        }
    }
}

/// Drives zero, one or many sequential connection attempts against a
/// primary target and an optional fallback target, according to a retry
/// policy fixed at construction.
///
/// Decisions only live here: the caller that owns the network performs
/// each attempt against [`Self::next_target`] and reports back through
/// [`Self::record_attempt`].  The orchestrator itself cannot fail; it can
/// only exhaust its configured work (bounded mode) or go on forever
/// (relentless mode).
pub struct Orchestrator {
    local_host: String,
    local_port: u16,
    secret: Option<String>,
    primary: Endpoint,
    fallback: Option<Endpoint>,
    mode: RetryMode,
    remaining: u8,
    fallback_pending: bool,
    iterations: Ghost<nat>,
    attempts: Ghost<Seq<Endpoint>>,
}

impl View for Orchestrator {
    type V = OrchestratorModel;

    closed spec fn view(&self) -> OrchestratorModel {
        OrchestratorModel {
            local_host: self.local_host,
            local_port: self.local_port,
            secret: self.secret,
            primary: self.primary,
            fallback: self.fallback,
            mode: self.mode,
            iterations: self.iterations@,
            pending_fallback: self.fallback_pending,
            attempts: self.attempts@,
        }
    }
}

impl Orchestrator {
    /// The abstract state is well formed and the concrete bounded-mode
    /// countdown agrees with it.
    pub closed spec fn inv(&self) -> bool {
        &&& self@.wf()
        &&& match self.mode {
            RetryMode::Relentless => self.remaining == 0,
            RetryMode::Bounded(c) => self.iterations@ + self.remaining == c as nat,
        }
    }

    /// Set up an orchestrator that has attempted nothing yet, over the
    /// given local service, primary target and policy.
    pub fn new(
        local_host: String,
        local_port: u16,
        primary: Endpoint,
        secret: Option<String>,
        policy: RetryPolicy,
    ) -> (o: Orchestrator)
        ensures
            o.inv(),
            o@.local_host == local_host,
            o@.local_port == local_port,
            o@.secret == secret,
            o@.primary == primary,
            o@.fallback == policy.fallback,
            o@.mode == policy.mode,
            o@.iterations == 0,
            !o@.pending_fallback,
            o@.attempts == Seq::<Endpoint>::empty(),
    {
        let remaining: u8 = match policy.mode {
            RetryMode::Relentless => 0,
            RetryMode::Bounded(c) => c,
        };
        let o = Orchestrator {
            local_host,
            local_port,
            secret,
            primary,
            fallback: policy.fallback,
            mode: policy.mode,
            remaining,
            fallback_pending: false,
            iterations: Ghost(0),
            attempts: Ghost(Seq::empty()),
        };
        proof {
            assert(o@.attempts =~= schedule(o@.primary, o@.fallback, 0)
                + Seq::<Endpoint>::empty());
        }
        o
    }

    /// Whether the configured work is exhausted: true in bounded mode
    /// once the full count of iterations has completed, never in
    /// relentless mode.
    pub fn is_done(&self) -> (done: bool)
        requires
            self.inv(),
        ensures
            done == self@.done(),
    {
        match self.mode {
            RetryMode::Relentless => false,
            RetryMode::Bounded(_) => self.remaining == 0,
        }
    }

    /// The target of the next attempt, or `None` when the work is
    /// exhausted.  Within one iteration the primary always precedes the
    /// fallback.
    pub fn next_target(&self) -> (target: Option<&Endpoint>)
        requires
            self.inv(),
        ensures
            match target {
                Some(e) => !self@.done() && *e == self@.next_endpoint(),
                None => self@.done(),
            },
    {
        if self.is_done() {
            return None;
        }
        if self.fallback_pending {
            if let Some(f) = &self.fallback {
                return Some(f);
            }
        }
        Some(&self.primary)
    }

    /// Note that the attempt against the endpoint [`Self::next_target`]
    /// returned has ended, however it ended.  The outcome takes no part
    /// in the new state, so no connection or session error can end the
    /// schedule early or skip the next scheduled attempt.
    pub fn record_attempt(&mut self, outcome: AttemptOutcome)
        requires
            old(self).inv(),
            !old(self)@.done(),
        ensures
            final(self).inv(),
            final(self)@ == old(self)@.step(outcome),
    {
        if self.fallback_pending {
            self.fallback_pending = false;
            if let RetryMode::Bounded(_) = self.mode {
                self.remaining = self.remaining - 1;
            }
            proof {
                self.attempts@ = self.attempts@.push(self.fallback->0);
                self.iterations@ = self.iterations@ + 1;
            }
        } else if self.fallback.is_some() {
            self.fallback_pending = true;
            proof {
                self.attempts@ = self.attempts@.push(self.primary);
            }
        } else {
            if let RetryMode::Bounded(_) = self.mode {
                self.remaining = self.remaining - 1;
            }
            proof {
                self.attempts@ = self.attempts@.push(self.primary);
                self.iterations@ = self.iterations@ + 1;
            }
        }
        proof {
            lemma_step_preserves_wf(old(self)@, outcome);
            assert(self@ =~= old(self)@.step(outcome));
        }
    }

    /// The host of the local service being exposed, as fixed at
    /// construction; every attempt is made on its behalf.
    pub fn local_host(&self) -> (h: &String)
        ensures
            *h == self@.local_host,
    {
        &self.local_host
    }

    /// The port of the local service being exposed, as fixed at
    /// construction.
    pub fn local_port(&self) -> (p: u16)
        ensures
            p == self@.local_port,
    {
        self.local_port
    }

    /// The optional authentication token, handed unchanged to every
    /// session creation.
    pub fn secret(&self) -> (s: &Option<String>)
        ensures
            *s == self@.secret,
    {
        &self.secret
    }
}

} // verus!
