use vstd::prelude::*;

verus! {

/// Which screenshot shortcut a latency run presses.
#[derive(Clone, Copy, Debug, PartialEq, Eq, Structural)]
pub enum TestTarget {
    /// Shift+F2, this app's hotkey.
    SnapVault,
    /// Win+Shift+S, the system's snipping tool.
    WinShiftS,
}

/// Stage of a latency run.
#[derive(Clone, Copy, Debug, PartialEq, Eq, Structural)]
pub enum Phase {
    /// Waiting for the user to pick a test.
    Ready,
    /// Counting down before an automatic run.
    Warmup,
    /// Keys sent, waiting for the capture's result.
    Running,
    /// The result arrived.
    Done,
}

/// The target named on the command line after `--auto`.
pub open spec fn target_named(name: Seq<char>) -> Option<TestTarget> {
    if name == "snapvault"@ {
        Some(TestTarget::SnapVault)
    } else if name == "wss"@ {
        Some(TestTarget::WinShiftS)
    } else {
        None
    }
}

/// `i` is the first position of `--auto` that has an argument after it.
pub open spec fn is_first_auto(args: Seq<String>, i: int) -> bool {
    &&& 0 <= i < args.len() - 1
    &&& args[i]@ == "--auto"@
    &&& forall|j: int| 0 <= j < i ==> args[j]@ != "--auto"@
}

/// Automatic target from the command line: the argument after the first
/// `--auto` (that has one), when it is `snapvault` or `wss`.
pub fn parse_auto_target(args: &Vec<String>) -> (r: Option<TestTarget>)
    ensures
        r matches Some(t) ==> exists|i: int| #[trigger]
            is_first_auto(args@, i) && target_named(args@[i + 1]@) == Some(t),
        r is None ==> forall|i: int| #[trigger]
            is_first_auto(args@, i) ==> target_named(args@[i + 1]@) is None,
{
    let auto_flag = "--auto".to_owned();
    let snapvault = "snapvault".to_owned();
    let wss = "wss".to_owned();
    let n = args.len();
    let mut i: usize = 0;
    while n > 0 && i < n - 1
        invariant
            n == args@.len(),
            auto_flag@ == "--auto"@,
            snapvault@ == "snapvault"@,
            wss@ == "wss"@,
            forall|j: int| 0 <= j < i ==> args@[j]@ != "--auto"@,
        decreases n - i,
    {
        if args[i] == auto_flag {
            assert(is_first_auto(args@, i as int));
            let r = if args[i + 1] == snapvault {
                Some(TestTarget::SnapVault)
            } else if args[i + 1] == wss {
                Some(TestTarget::WinShiftS)
            } else {
                None
            };
            assert forall|k: int| #[trigger] is_first_auto(args@, k) implies k == i by {
                if k < i {
                } else if k > i {
                    assert(args@[i as int]@ == "--auto"@);
                }
            }
            return r;
        }
        i = i + 1;
    }
    None
}

/// A latency run: its stage and the target of an automatic run.
pub struct BenchFlow {
    phase: Phase,
    auto_target: Option<TestTarget>,
}

/// The run as plain values.
#[derive(Clone, Copy, Debug, PartialEq, Eq, Structural)]
pub struct BenchView {
    pub phase: Phase,
    pub auto_target: Option<TestTarget>,
}

impl View for BenchFlow {
    type V = BenchView;

    closed spec fn view(&self) -> BenchView {
        BenchView { phase: self.phase, auto_target: self.auto_target }
    }
}

impl BenchFlow {
    /// An automatic run starts with the warmup, a manual one ready.
    pub fn new(auto_target: Option<TestTarget>) -> (b: Self)
        ensures
            b@.auto_target == auto_target,
            b@.phase == (if auto_target is Some {
                Phase::Warmup
            } else {
                Phase::Ready
            }),
    {
        let phase = if auto_target.is_some() {
            Phase::Warmup
        } else {
            Phase::Ready
        };
        BenchFlow { phase, auto_target }
    }

    /// Current stage.
    pub fn phase(&self) -> (p: Phase)
        ensures
            p == self@.phase,
    {
        self.phase
    }

    /// An automatic run fires once its warmup has elapsed: the timer runs
    /// and the result is the target whose keys to send. Before that, and
    /// outside the warmup, nothing changes and nothing fires.
    pub fn fire_auto(&mut self, warmup_elapsed: bool) -> (t: Option<TestTarget>)
        ensures
            final(self)@ == after_auto(old(self)@, warmup_elapsed),
            t == (if final(self)@.phase != old(self)@.phase {
                old(self)@.auto_target
            } else {
                None
            }),
    {
        if self.phase == Phase::Warmup && warmup_elapsed {
            if let Some(target) = self.auto_target {
                self.phase = Phase::Running;
                return Some(target);
            }
        }
        None
    }

    /// A test button on the ready screen: the timer runs. Anywhere else
    /// nothing changes; the result says whether the test started, and so
    /// whether to send the keys.
    pub fn fire(&mut self) -> (fired: bool)
        ensures
            final(self)@ == after_fire(old(self)@),
            fired == (final(self)@.phase != old(self)@.phase),
    {
        if self.phase == Phase::Ready {
            self.phase = Phase::Running;
            true
        } else {
            false
        }
    }

    /// Whether to look for the result file.
    pub fn awaits_result(&self) -> (b: bool)
        ensures
            b == (self@.phase == Phase::Running),
    {
        self.phase == Phase::Running
    }

    /// The result file was read: a running test is done; in any other
    /// phase nothing changes.
    pub fn on_result(&mut self)
        ensures
            final(self)@ == after_result(old(self)@),
    {
        if self.phase == Phase::Running {
            self.phase = Phase::Done;
        }
    }

    /// Whether the window closes now: an automatic run that is done.
    pub fn should_close(&self) -> (b: bool)
        ensures
            b == (self@.phase == Phase::Done && self@.auto_target is Some),
    {
        self.phase == Phase::Done && self.auto_target.is_some()
    }

    /// Back (while running) or Reset (when done): ready for another test.
    /// In the other phases these buttons are not shown and nothing changes.
    pub fn back_to_ready(&mut self)
        ensures
            final(self)@ == after_back(old(self)@),
    {
        if self.phase == Phase::Running || self.phase == Phase::Done {
            self.phase = Phase::Ready;
        }
    }
}

/// The automatic run starts once its warmup has elapsed.
pub open spec fn after_auto(v: BenchView, warmup_elapsed: bool) -> BenchView {
    if v.phase == Phase::Warmup && warmup_elapsed && v.auto_target is Some {
        BenchView { phase: Phase::Running, ..v }
    } else {
        v
    }
}

/// A test button starts a test from the ready screen.
pub open spec fn after_fire(v: BenchView) -> BenchView {
    if v.phase == Phase::Ready {
        BenchView { phase: Phase::Running, ..v }
    } else {
        v
    }
}

/// The result of a running test arrives.
pub open spec fn after_result(v: BenchView) -> BenchView {
    if v.phase == Phase::Running {
        BenchView { phase: Phase::Done, ..v }
    } else {
        v
    }
}

/// Back or Reset.
pub open spec fn after_back(v: BenchView) -> BenchView {
    if v.phase == Phase::Running || v.phase == Phase::Done {
        BenchView { phase: Phase::Ready, ..v }
    } else {
        v
    }
}

/// The moves a run's phase may make: warmup or ready to running, running
/// to done or back to ready, done to ready.
pub open spec fn phase_move(a: Phase, b: Phase) -> bool {
    ||| (a == Phase::Warmup || a == Phase::Ready) && b == Phase::Running
    ||| a == Phase::Running && (b == Phase::Done || b == Phase::Ready)
    ||| a == Phase::Done && b == Phase::Ready
}

/// Every transition of a run either leaves its phase as it is or makes one
/// of the allowed moves; none of them enters the warmup or changes the
/// automatic target, so the warmup happens at most once, at the start of an
/// automatic run.
pub proof fn lemma_phase_moves(v: BenchView, warmup_elapsed: bool)
    ensures
        after_auto(v, warmup_elapsed).phase == v.phase || phase_move(
            v.phase,
            after_auto(v, warmup_elapsed).phase,
        ),
        after_fire(v).phase == v.phase || phase_move(v.phase, after_fire(v).phase),
        after_result(v).phase == v.phase || phase_move(v.phase, after_result(v).phase),
        after_back(v).phase == v.phase || phase_move(v.phase, after_back(v).phase),
        after_auto(v, warmup_elapsed).phase == Phase::Warmup ==> v.phase == Phase::Warmup,
        after_fire(v).phase == Phase::Warmup ==> v.phase == Phase::Warmup,
        after_result(v).phase == Phase::Warmup ==> v.phase == Phase::Warmup,
        after_back(v).phase == Phase::Warmup ==> v.phase == Phase::Warmup,
        after_auto(v, warmup_elapsed).auto_target == v.auto_target,
        after_fire(v).auto_target == v.auto_target,
        after_result(v).auto_target == v.auto_target,
        after_back(v).auto_target == v.auto_target,
{
}

/// The warmup ends only one way: the automatic run fires once the warmup
/// has elapsed, with its target; a test button, a result or Back and Reset
/// leave a run in warmup where it is.
pub proof fn lemma_warmup_ends_only_by_auto_fire(v: BenchView, warmup_elapsed: bool)
    requires
        v.phase == Phase::Warmup,
    ensures
        after_fire(v) == v,
        after_result(v) == v,
        after_back(v) == v,
        after_auto(v, warmup_elapsed).phase != Phase::Warmup <==> warmup_elapsed
            && v.auto_target is Some,
        after_auto(v, warmup_elapsed).phase != Phase::Warmup ==> after_auto(
            v,
            warmup_elapsed,
        ).phase == Phase::Running,
{
}

} // verus!
