use vstd::prelude::*;

verus! {

/// The lifecycle state of a supervised instance.
#[derive(Debug, Clone, Copy, PartialEq, Eq, Structural)]
pub enum InstanceStatus {
    Starting,
    Running,
    Stopping,
    Stopped,
    Crashed,
    Killing,
    Killed,
}

/// A state that ends a run and from which a new run may begin.
pub open spec fn is_resting(s: InstanceStatus) -> bool {
    s == InstanceStatus::Stopped || s == InstanceStatus::Crashed || s == InstanceStatus::Killed
}

/// A state in which a process handle is owned.
pub open spec fn is_live(s: InstanceStatus) -> bool {
    s == InstanceStatus::Starting || s == InstanceStatus::Running || s == InstanceStatus::Stopping
        || s == InstanceStatus::Killing
}

/// The transitions of the lifecycle state machine.
pub open spec fn is_legal_transition(from: InstanceStatus, to: InstanceStatus) -> bool {
    match (from, to) {
        (InstanceStatus::Stopped, InstanceStatus::Starting) => true,
        (InstanceStatus::Crashed, InstanceStatus::Starting) => true,
        (InstanceStatus::Killed, InstanceStatus::Starting) => true,
        (InstanceStatus::Starting, InstanceStatus::Running) => true,
        (InstanceStatus::Starting, InstanceStatus::Crashed) => true,
        (InstanceStatus::Running, InstanceStatus::Stopping) => true,
        (InstanceStatus::Running, InstanceStatus::Crashed) => true,
        (InstanceStatus::Stopping, InstanceStatus::Stopped) => true,
        (InstanceStatus::Stopping, InstanceStatus::Killing) => true,
        (InstanceStatus::Starting, InstanceStatus::Killing) => true,
        (InstanceStatus::Running, InstanceStatus::Killing) => true,
        (InstanceStatus::Killing, InstanceStatus::Killed) => true,
        (InstanceStatus::Killing, InstanceStatus::Crashed) => true,
        _ => false,
    }
}

pub fn resting(s: InstanceStatus) -> (r: bool)
    ensures
        r == is_resting(s),
{
    s == InstanceStatus::Stopped || s == InstanceStatus::Crashed || s == InstanceStatus::Killed
}

/// Returned when the current state is not among the expected ones.
#[derive(Debug, Clone, Copy, PartialEq, Eq, Structural)]
pub struct InvalidTransition {
    pub current: InstanceStatus,
    pub target: InstanceStatus,
}

/// The single place where the lifecycle state is held and changed. Every
/// change goes through `transition`, and the register keeps a record of all
/// the changes it made.
pub struct StatusRegister {
    current: InstanceStatus,
    log: Ghost<Seq<(InstanceStatus, InstanceStatus)>>,
}

impl StatusRegister {
    pub closed spec fn status(&self) -> InstanceStatus {
        self.current
    }

    /// Every change made so far, as (before, after) pairs, oldest first.
    pub closed spec fn history(&self) -> Seq<(InstanceStatus, InstanceStatus)> {
        self.log@
    }

    pub fn new() -> (r: Self)
        ensures
            r.status() == InstanceStatus::Stopped,
            r.history() == Seq::<(InstanceStatus, InstanceStatus)>::empty(),
    {
        StatusRegister { current: InstanceStatus::Stopped, log: Ghost(Seq::empty()) }
    }

    pub fn read(&self) -> (r: InstanceStatus)
        ensures
            r == self.status(),
    {
        self.current
    }

    /// Moves to `to` when the current state is one of `expected_from`;
    /// otherwise changes nothing.
    pub fn transition(&mut self, expected_from: &[InstanceStatus], to: InstanceStatus) -> (r:
        Result<(InstanceStatus, InstanceStatus), InvalidTransition>)
        ensures
            expected_from@.contains(old(self).status()) ==> {
                &&& r == Ok::<(InstanceStatus, InstanceStatus), InvalidTransition>(
                    (old(self).status(), to),
                )
                &&& final(self).status() == to
                &&& final(self).history() == old(self).history().push((old(self).status(), to))
            },
            !expected_from@.contains(old(self).status()) ==> {
                &&& r == Err::<(InstanceStatus, InstanceStatus), InvalidTransition>(
                    InvalidTransition { current: old(self).status(), target: to },
                )
                &&& *final(self) == *old(self)
            },
    {
        let mut i: usize = 0;
        while i < expected_from.len()
            invariant
                0 <= i <= expected_from@.len(),
                forall|j: int| 0 <= j < i ==> expected_from@[j] != self.current,
                self.current == old(self).current,
                self.log == old(self).log,
            decreases expected_from@.len() - i,
        {
            if expected_from[i] == self.current {
                assert(expected_from@[i as int] == self.current);
                let before = self.current;
                self.current = to;
                self.log = Ghost(self.log@.push((before, to)));
                return Ok((before, to));
            }
            i = i + 1;
        }
        assert(!expected_from@.contains(self.current));
        Err(InvalidTransition { current: self.current, target: to })
    }
}

} // verus!
