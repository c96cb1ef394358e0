//! Download states of a single fetch, the aggregate of many, and how they may
//! follow one another.

use vstd::prelude::*;

verus! {

/// State of one unit of network work: a page image or a comic cover.
#[derive(Clone, Copy, Debug, PartialEq, Eq, Structural)]
pub enum DownloadStatus {
    Waiting,
    Downloading,
    Success,
    Fail,
}

impl DownloadStatus {
    /// The number under which the state is persisted and shown.
    pub open spec fn spec_code(self) -> int {
        match self {
            DownloadStatus::Waiting => 0,
            DownloadStatus::Downloading => 1,
            DownloadStatus::Success => 2,
            DownloadStatus::Fail => 3,
        }
    }

    /// The state that is persisted under `code`, if there is one.
    pub open spec fn spec_from_code(code: int) -> Option<DownloadStatus> {
        if code == 0 {
            Some(DownloadStatus::Waiting)
        } else if code == 1 {
            Some(DownloadStatus::Downloading)
        } else if code == 2 {
            Some(DownloadStatus::Success)
        } else if code == 3 {
            Some(DownloadStatus::Fail)
        } else {
            None
        }
    }

    /// A fetch has ended, well or badly.
    pub open spec fn spec_is_terminal(self) -> bool {
        self == DownloadStatus::Success || self == DownloadStatus::Fail
    }

    /// One step of the life of a fetch: it is picked up, it ends, or a failed
    /// one is queued again.
    pub open spec fn steps_to(self, next: DownloadStatus) -> bool {
        ||| (self == DownloadStatus::Waiting && next == DownloadStatus::Downloading)
        ||| (self == DownloadStatus::Downloading && next == DownloadStatus::Success)
        ||| (self == DownloadStatus::Downloading && next == DownloadStatus::Fail)
        ||| (self == DownloadStatus::Fail && next == DownloadStatus::Waiting)
    }

    /// What may be observed of one fetch at two consecutive moments: nothing
    /// new, or one step.
    pub open spec fn may_become(self, next: DownloadStatus) -> bool {
        self == next || self.steps_to(next)
    }

    /// The number under which the state is persisted and shown.
    pub fn code(self) -> (r: i64)
        ensures
            r == self.spec_code(),
    {
        match self {
            DownloadStatus::Waiting => 0,
            DownloadStatus::Downloading => 1,
            DownloadStatus::Success => 2,
            DownloadStatus::Fail => 3,
        }
    }

    /// The state that is persisted under `code`, if there is one.
    pub fn from_code(code: i64) -> (r: Option<DownloadStatus>)
        ensures
            r == Self::spec_from_code(code as int),
    {
        if code == 0 {
            Some(DownloadStatus::Waiting)
        } else if code == 1 {
            Some(DownloadStatus::Downloading)
        } else if code == 2 {
            Some(DownloadStatus::Success)
        } else if code == 3 {
            Some(DownloadStatus::Fail)
        } else {
            None
        }
    }

    /// Whether a fetch has ended, well or badly.
    pub fn is_terminal(self) -> (r: bool)
        ensures
            r == self.spec_is_terminal(),
    {
        match self {
            DownloadStatus::Success => true,
            DownloadStatus::Fail => true,
            _ => false,
        }
    }
}

/// State of a chapter or a comic, derived from the pages under it.
#[derive(Clone, Copy, Debug, PartialEq, Eq, Structural)]
pub enum AggregateStatus {
    /// Some page is still waiting or being fetched.
    InProgress,
    /// Every page is there.
    Complete,
    /// Every fetch has ended and at least one of them failed.
    PartialWithFailures,
}

impl AggregateStatus {
    /// The aggregate of `total` pages of which `success` succeeded and `open`
    /// are waiting or being fetched.
    pub open spec fn spec_of_counts(total: nat, success: nat, open: nat) -> AggregateStatus {
        if success == total {
            AggregateStatus::Complete
        } else if open == 0 {
            AggregateStatus::PartialWithFailures
        } else {
            AggregateStatus::InProgress
        }
    }

    /// The number under which the aggregate is persisted and shown. An
    /// aggregate in progress shows as waiting; one is never shown as
    /// downloading, which is the state of a single fetch.
    pub open spec fn spec_code(self) -> int {
        match self {
            AggregateStatus::InProgress => 0,
            AggregateStatus::Complete => 2,
            AggregateStatus::PartialWithFailures => 3,
        }
    }

    /// The aggregate that is persisted under `code`, if there is one.
    pub open spec fn spec_from_code(code: int) -> Option<AggregateStatus> {
        if code == 0 {
            Some(AggregateStatus::InProgress)
        } else if code == 2 {
            Some(AggregateStatus::Complete)
        } else if code == 3 {
            Some(AggregateStatus::PartialWithFailures)
        } else {
            None
        }
    }

    /// The aggregate of `total` pages of which `success` succeeded and `open`
    /// are waiting or being fetched.
    pub fn of_counts(total: usize, success: usize, open: usize) -> (r: AggregateStatus)
        ensures
            r == Self::spec_of_counts(total as nat, success as nat, open as nat),
    {
        if success == total {
            AggregateStatus::Complete
        } else if open == 0 {
            AggregateStatus::PartialWithFailures
        } else {
            AggregateStatus::InProgress
        }
    }

    /// The number under which the aggregate is persisted and shown.
    pub fn code(self) -> (r: i64)
        ensures
            r == self.spec_code(),
    {
        match self {
            AggregateStatus::InProgress => 0,
            AggregateStatus::Complete => 2,
            AggregateStatus::PartialWithFailures => 3,
        }
    }

    /// The aggregate that is persisted under `code`, if there is one.
    pub fn from_code(code: i64) -> (r: Option<AggregateStatus>)
        ensures
            r == Self::spec_from_code(code as int),
    {
        if code == 0 {
            Some(AggregateStatus::InProgress)
        } else if code == 2 {
            Some(AggregateStatus::Complete)
        } else if code == 3 {
            Some(AggregateStatus::PartialWithFailures)
        } else {
            None
        }
    }
}

/// A state and its number determine each other.
pub proof fn lemma_status_code_round_trip(status: DownloadStatus)
    ensures
        DownloadStatus::spec_from_code(status.spec_code()) == Some(status),
{
}

/// A fetch that has succeeded stays so: no step leads away from `Success`.
pub proof fn lemma_success_is_final(next: DownloadStatus)
    requires
        DownloadStatus::Success.may_become(next),
    ensures
        next == DownloadStatus::Success,
{
}

} // verus!
