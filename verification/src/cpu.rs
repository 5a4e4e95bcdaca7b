//! How computations that are handed to workers can fail.

use vstd::prelude::*;
use vstd::string::*;

verus! {

/// Why a computation gave no result.
#[derive(Debug)]
pub enum CpuTaskExecutionError<E> {
    /// The workers are gone or take no more.
    Unavailable(E),
    /// The computation panicked.
    TaskPanicked,
}

impl<E> CpuTaskExecutionError<E> {
    pub open spec fn text(&self, source: Seq<char>) -> Seq<char> {
        match self {
            Self::Unavailable(_) => "CPU 执行器不可用："@ + source,
            Self::TaskPanicked => "CPU 任务执行时发生 panic"@,
        }
    }

    /// The failure in words; `source` is its source in words.
    pub fn message(&self, source: &str) -> (message: String)
        ensures
            message@ == self.text(source@),
    {
        match self {
            Self::Unavailable(_) => String::from_str("CPU 执行器不可用：").concat(source),
            Self::TaskPanicked => String::from_str("CPU 任务执行时发生 panic"),
        }
    }

    /// What the failure came from.
    pub fn source(&self) -> (source: Option<&E>)
        ensures
            match source {
                Some(found) => *self == CpuTaskExecutionError::Unavailable(*found),
                None => self is TaskPanicked,
            },
    {
        match self {
            Self::Unavailable(source) => Some(source),
            Self::TaskPanicked => None,
        }
    }
}

} // verus!
