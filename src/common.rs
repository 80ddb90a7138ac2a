use vstd::prelude::*;
use vstd::std_specs::convert::{FromSpecImpl, TryFromSpecImpl};

verus! {

/// A task register: writing `Trigger` starts the task, `NoEffect` does nothing.
#[derive(Copy, Clone, Debug, PartialEq, Eq, Structural)]
pub enum Task {
    /// Has no effect
    NoEffect,
    /// Trigger task
    Trigger,
}

impl Task {
    /// The register code of the value.
    pub open spec fn code(self) -> u8 {
        match self {
            Task::NoEffect => 0,
            Task::Trigger => 1,
        }
    }

    /// The value whose register code is `v`, if any.
    pub open spec fn decode(v: u8) -> Result<Task, ()> {
        if v == 0 {
            Ok(Task::NoEffect)
        } else if v == 1 {
            Ok(Task::Trigger)
        } else {
            Err(())
        }
    }
}

impl TryFrom<u8> for Task {
    type Error = ();

    fn try_from(value: u8) -> (r: Result<Self, Self::Error>) {
        match value {
            0 => Ok(Task::NoEffect),
            1 => Ok(Task::Trigger),
            _ => Err(()),
        }
    }
}

impl TryFromSpecImpl<u8> for Task {
    open spec fn obeys_try_from_spec() -> bool {
        true
    }

    open spec fn try_from_spec(v: u8) -> Result<Task, ()> {
        Task::decode(v)
    }
}

impl From<Task> for u8 {
    fn from(task: Task) -> (r: u8) {
        match task {
            Task::NoEffect => 0,
            Task::Trigger => 1,
        }
    }
}

impl FromSpecImpl<Task> for u8 {
    open spec fn obeys_from_spec() -> bool {
        true
    }

    open spec fn from_spec(v: Task) -> u8 {
        v.code()
    }
}


} // verus!
