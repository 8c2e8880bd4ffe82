use vstd::prelude::*;

verus! {

/// Pause between two failed probes, in milliseconds.
pub const POLL_INTERVAL_MS: u64 = 150;

/// How long the sidecar has to become healthy after it was spawned, in milliseconds.
pub const STARTUP_TIMEOUT_MS: u64 = 10000;

#[derive(Clone, Copy, Debug, PartialEq, Eq, Structural)]
pub enum GatePhase {
    Polling,
    Ready,
    TimedOut,
}

/// What the caller does next while waiting for the sidecar.
#[derive(Clone, Copy, Debug, PartialEq, Eq, Structural)]
pub enum GateAction {
    /// Run one probe and report its verdict.
    Probe,
    /// Sleep this many milliseconds, then poll again.
    Sleep(u64),
    /// The sidecar is ready.
    Succeed,
    /// The deadline passed without a healthy probe.
    Fail,
}

/// A bounded wait for readiness: polled with the time elapsed since it began,
/// it asks for probes until one succeeds or the deadline passes.
#[derive(Clone, Copy, Debug, PartialEq, Eq, Structural)]
pub struct ReadinessGate {
    pub timeout_ms: u64,
    pub phase: GatePhase,
}

impl ReadinessGate {
    pub open spec fn spec_poll(self, elapsed_ms: u64) -> (ReadinessGate, GateAction) {
        match self.phase {
            GatePhase::Polling => if elapsed_ms < self.timeout_ms {
                (self, GateAction::Probe)
            } else {
                (ReadinessGate { phase: GatePhase::TimedOut, ..self }, GateAction::Fail)
            },
            GatePhase::Ready => (self, GateAction::Succeed),
            GatePhase::TimedOut => (self, GateAction::Fail),
        }
    }

    pub open spec fn spec_record(self, healthy: bool) -> (ReadinessGate, GateAction) {
        match self.phase {
            GatePhase::Polling => if healthy {
                (ReadinessGate { phase: GatePhase::Ready, ..self }, GateAction::Succeed)
            } else {
                (self, GateAction::Sleep(POLL_INTERVAL_MS))
            },
            GatePhase::Ready => (self, GateAction::Succeed),
            GatePhase::TimedOut => (self, GateAction::Fail),
        }
    }

    /// A gate that gives up once `timeout_ms` have elapsed.
    pub fn new(timeout_ms: u64) -> (r: ReadinessGate)
        ensures
            r == (ReadinessGate { timeout_ms, phase: GatePhase::Polling }),
    {
        ReadinessGate { timeout_ms, phase: GatePhase::Polling }
    }

    /// Asks what to do, with `elapsed_ms` milliseconds gone since the wait
    /// began: probe while the deadline lies ahead, else time out.
    pub fn poll(&mut self, elapsed_ms: u64) -> (r: GateAction)
        ensures
            (*final(self), r) == old(self).spec_poll(elapsed_ms),
            old(self).phase != GatePhase::Polling ==> *final(self) == *old(self),
    {
        match self.phase {
            GatePhase::Polling => {
                if elapsed_ms < self.timeout_ms {
                    GateAction::Probe
                } else {
                    self.phase = GatePhase::TimedOut;
                    GateAction::Fail
                }
            },
            GatePhase::Ready => GateAction::Succeed,
            GatePhase::TimedOut => GateAction::Fail,
        }
    }

    /// Takes the verdict of the probe just run: a healthy one ends the wait,
    /// an unhealthy one asks for a pause before the next poll.
    pub fn record(&mut self, healthy: bool) -> (r: GateAction)
        ensures
            (*final(self), r) == old(self).spec_record(healthy),
            old(self).phase != GatePhase::Polling ==> *final(self) == *old(self),
    {
        match self.phase {
            GatePhase::Polling => {
                if healthy {
                    self.phase = GatePhase::Ready;
                    GateAction::Succeed
                } else {
                    GateAction::Sleep(POLL_INTERVAL_MS)
                }
            },
            GatePhase::Ready => GateAction::Succeed,
            GatePhase::TimedOut => GateAction::Fail,
        }
    }
}

/// Drives `gate` from poll `k` on, where poll `j` happens `times[j]`
/// milliseconds after the start and its probe, if one is asked for, reports
/// `results[j]`. Yields the phase reached and the number of probes run.
pub open spec fn run_gate(gate: ReadinessGate, times: Seq<u64>, results: Seq<bool>, k: nat) -> (
    GatePhase,
    nat,
)
    decreases times.len() - k,
{
    if k >= times.len() || k >= results.len() {
        (gate.phase, k)
    } else {
        let (polled, action) = gate.spec_poll(times[k as int]);
        if action is Probe {
            let (next, after) = polled.spec_record(results[k as int]);
            if after is Sleep {
                run_gate(next, times, results, k + 1)
            } else {
                (next.phase, k + 1)
            }
        } else {
            (polled.phase, k)
        }
    }
}

proof fn lemma_run_gate_from(
    gate: ReadinessGate,
    times: Seq<u64>,
    results: Seq<bool>,
    i: nat,
    k: nat,
)
    requires
        gate.phase == GatePhase::Polling,
        times.len() == results.len(),
        i <= k < times.len(),
        forall|j: int| i <= j < k ==> #[trigger] times[j] < gate.timeout_ms,
        forall|j: int| i <= j < k ==> !#[trigger] results[j],
    ensures
        times[k as int] < gate.timeout_ms && results[k as int] ==> run_gate(gate, times, results, i)
            == (GatePhase::Ready, k + 1),
        times[k as int] >= gate.timeout_ms ==> run_gate(gate, times, results, i) == (
            GatePhase::TimedOut,
            k,
        ),
    decreases k - i,
{
    if i < k {
        lemma_run_gate_from(gate, times, results, i + 1, k);
    }
}

/// A gate succeeds with its first healthy probe, when every poll up to that
/// one came before the deadline, having run exactly that many probes; and
/// it times out at the first poll past the deadline when no probe before it
/// was healthy. Once it has settled it never polls again.
pub proof fn lemma_gate_stops_at_first_success(
    timeout_ms: u64,
    times: Seq<u64>,
    results: Seq<bool>,
    k: nat,
)
    requires
        times.len() == results.len(),
        k < times.len(),
        forall|j: int| 0 <= j < k ==> #[trigger] times[j] < timeout_ms,
        forall|j: int| 0 <= j < k ==> !#[trigger] results[j],
    ensures
        times[k as int] < timeout_ms && results[k as int] ==> run_gate(
            ReadinessGate { timeout_ms, phase: GatePhase::Polling },
            times,
            results,
            0,
        ) == (GatePhase::Ready, k + 1),
        times[k as int] >= timeout_ms ==> run_gate(
            ReadinessGate { timeout_ms, phase: GatePhase::Polling },
            times,
            results,
            0,
        ) == (GatePhase::TimedOut, k),
{
    let gate = ReadinessGate { timeout_ms, phase: GatePhase::Polling };
    lemma_run_gate_from(gate, times, results, 0, k);
}

/// A settled gate stays settled: polling it or recording a verdict changes
/// nothing, and it keeps answering the same way.
pub proof fn lemma_settled_gate_stays(gate: ReadinessGate, elapsed_ms: u64, healthy: bool)
    requires
        gate.phase != GatePhase::Polling,
    ensures
        gate.spec_poll(elapsed_ms).0 == gate,
        gate.spec_record(healthy).0 == gate,
        gate.spec_poll(elapsed_ms).1 == gate.spec_record(healthy).1,
        gate.spec_poll(elapsed_ms).1 == (if gate.phase == GatePhase::Ready {
            GateAction::Succeed
        } else {
            GateAction::Fail
        }),
{
}

} // verus!
