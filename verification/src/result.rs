//! Results of applying a profile.

use vstd::prelude::*;
use vstd::string::*;
use crate::actions::Action;
use crate::text::{decimal_string, decimal_text};

verus! {

/// How one step of applying a profile stands.
#[derive(Clone, Copy, Debug, PartialEq, Eq, Structural)]
pub enum StepStatus {
    /// Not started.
    Pending,
    /// Under way.
    Running,
    /// Done.
    Success,
    /// Done, with warnings.
    Warning,
    /// Done in part: some actions failed.
    PartialSuccess,
    /// Failed.
    Error,
    /// Left out.
    Skipped,
}

impl StepStatus {
    /// The name under which the status is stored.
    pub open spec fn text(self) -> Seq<char> {
        match self {
            StepStatus::Pending => "pending"@,
            StepStatus::Running => "running"@,
            StepStatus::Success => "success"@,
            StepStatus::Warning => "warning"@,
            StepStatus::PartialSuccess => "partial_success"@,
            StepStatus::Error => "error"@,
            StepStatus::Skipped => "skipped"@,
        }
    }

    /// Whether the step got its work done, fully or in part.
    pub fn is_success(&self) -> (r: bool)
        ensures
            r == (*self == StepStatus::Success || *self == StepStatus::Warning || *self
                == StepStatus::PartialSuccess),
    {
        match self {
            StepStatus::Success | StepStatus::Warning | StepStatus::PartialSuccess => true,
            _ => false,
        }
    }

    /// Whether the step failed.
    pub fn is_error(&self) -> (r: bool)
        ensures
            r == (*self == StepStatus::Error),
    {
        match self {
            StepStatus::Error => true,
            _ => false,
        }
    }

    /// The name under which the status is stored.
    pub fn as_str(&self) -> (r: &'static str)
        ensures
            r@ == self.text(),
    {
        match self {
            StepStatus::Pending => "pending",
            StepStatus::Running => "running",
            StepStatus::Success => "success",
            StepStatus::Warning => "warning",
            StepStatus::PartialSuccess => "partial_success",
            StepStatus::Error => "error",
            StepStatus::Skipped => "skipped",
        }
    }
}

/// The overall status of a run whose actions ended with `statuses`: an
/// error if one failed, else a warning if one warned, else success.
pub open spec fn overall(statuses: Seq<StepStatus>) -> StepStatus {
    if statuses.contains(StepStatus::Error) {
        StepStatus::Error
    } else if statuses.contains(StepStatus::Warning) {
        StepStatus::Warning
    } else {
        StepStatus::Success
    }
}

/// The overall status of a run whose actions ended with `statuses`.
pub fn overall_status(statuses: &[StepStatus]) -> (r: StepStatus)
    ensures
        r == overall(statuses@),
{
    let mut warned: bool = false;
    let mut i: usize = 0;
    while i < statuses.len()
        invariant
            i <= statuses@.len(),
            forall|j: int| 0 <= j < i ==> statuses@[j] != StepStatus::Error,
            warned == exists|j: int| 0 <= j < i && statuses@[j] == StepStatus::Warning,
        decreases statuses@.len() - i,
    {
        if statuses[i].is_error() {
            return StepStatus::Error;
        }
        if statuses[i] == StepStatus::Warning {
            warned = true;
        }
        i += 1;
    }
    if warned {
        StepStatus::Warning
    } else {
        StepStatus::Success
    }
}

/// How many of `statuses` are a success in the wide sense: done, done with
/// warnings, or done in part.
pub open spec fn successes(statuses: Seq<StepStatus>) -> nat
    decreases statuses.len(),
{
    if statuses.len() == 0 {
        0
    } else {
        successes(statuses.drop_last()) + if statuses.last() == StepStatus::Success
            || statuses.last() == StepStatus::Warning || statuses.last()
            == StepStatus::PartialSuccess {
            1nat
        } else {
            0nat
        }
    }
}

/// How many of `statuses` are `status`.
pub open spec fn occurrences(statuses: Seq<StepStatus>, status: StepStatus) -> nat
    decreases statuses.len(),
{
    if statuses.len() == 0 {
        0
    } else {
        occurrences(statuses.drop_last(), status) + if statuses.last() == status {
            1nat
        } else {
            0nat
        }
    }
}

/// `status` occurs in `statuses` exactly when it is counted at least once.
pub proof fn lemma_occurrences_positive(statuses: Seq<StepStatus>, status: StepStatus)
    ensures
        occurrences(statuses, status) > 0 <==> statuses.contains(status),
        occurrences(statuses, status) <= statuses.len(),
    decreases statuses.len(),
{
    if statuses.len() > 0 {
        let front = statuses.drop_last();
        lemma_occurrences_positive(front, status);
        if front.contains(status) {
            let i = choose|i: int| 0 <= i < front.len() && front[i] == status;
            assert(statuses[i] == status);
        }
        if statuses.contains(status) && statuses.last() != status {
            let i = choose|i: int| 0 <= i < statuses.len() && statuses[i] == status;
            assert(front[i] == status);
        }
        if statuses.last() == status {
            assert(statuses[statuses.len() - 1] == status);
        }
    }
}

/// Counts the successes in the wide sense among `statuses`.
pub fn success_count(statuses: &[StepStatus]) -> (r: usize)
    ensures
        r == successes(statuses@),
{
    let mut n: usize = 0;
    let mut i: usize = 0;
    assert(statuses@.subrange(0, 0) =~= Seq::<StepStatus>::empty());
    while i < statuses.len()
        invariant
            i <= statuses@.len(),
            n <= i,
            n == successes(statuses@.subrange(0, i as int)),
        decreases statuses@.len() - i,
    {
        assert(statuses@.subrange(0, i + 1).drop_last() =~= statuses@.subrange(0, i as int));
        if statuses[i].is_success() {
            n += 1;
        }
        i += 1;
    }
    assert(statuses@.subrange(0, i as int) =~= statuses@);
    n
}

/// Counts how often `status` occurs among `statuses`.
pub fn count_status(statuses: &[StepStatus], status: StepStatus) -> (r: usize)
    ensures
        r == occurrences(statuses@, status),
{
    let mut n: usize = 0;
    let mut i: usize = 0;
    assert(statuses@.subrange(0, 0) =~= Seq::<StepStatus>::empty());
    while i < statuses.len()
        invariant
            i <= statuses@.len(),
            n <= i,
            n == occurrences(statuses@.subrange(0, i as int), status),
        decreases statuses@.len() - i,
    {
        assert(statuses@.subrange(0, i + 1).drop_last() =~= statuses@.subrange(0, i as int));
        if statuses[i] == status {
            n += 1;
        }
        i += 1;
    }
    assert(statuses@.subrange(0, i as int) =~= statuses@);
    n
}

/// Counts the failed actions among `statuses`.
pub fn error_count(statuses: &[StepStatus]) -> (r: usize)
    ensures
        r == occurrences(statuses@, StepStatus::Error),
{
    count_status(statuses, StepStatus::Error)
}

/// The line that sums up a run whose actions ended with `statuses`.
pub open spec fn summary_text(statuses: Seq<StepStatus>) -> Seq<char> {
    if statuses.contains(StepStatus::Error) {
        decimal_text(occurrences(statuses, StepStatus::Error)) + " action(s) failed"@
    } else if statuses.contains(StepStatus::Warning) {
        "Completed with warnings"@
    } else {
        decimal_text(occurrences(statuses, StepStatus::Success))
            + " action(s) completed successfully"@
    }
}

/// The overall status of a run and the line that sums it up.
pub fn summarize(statuses: &[StepStatus]) -> (r: (StepStatus, String))
    ensures
        r.0 == overall(statuses@),
        r.1@ == summary_text(statuses@),
{
    let status: StepStatus = overall_status(statuses);
    let message: String = match status {
        StepStatus::Error => {
            let n: String = decimal_string(error_count(statuses) as u64);
            n.concat(" action(s) failed")
        },
        StepStatus::Warning => String::from_str("Completed with warnings"),
        _ => {
            let n: String = decimal_string(count_status(statuses, StepStatus::Success) as u64);
            n.concat(" action(s) completed successfully")
        },
    };
    (status, message)
}

/// What came of carrying out one action.
#[derive(Clone, Debug)]
pub struct ActionResult {
    /// The action.
    pub action: Action,
    /// How it ended.
    pub status: StepStatus,
    /// A line for the user.
    pub message: String,
    /// More about the error, if there was one.
    pub error_detail: Option<String>,
    /// How long it took, in milliseconds.
    pub duration_ms: u64,
    /// When it started, in milliseconds since 1970.
    pub started_at: i64,
    /// The state before the action, kept for undoing it.
    pub prior_state: Option<String>,
}

impl ActionResult {
    /// The result of an action that was carried out.
    pub fn success(action: Action, message: &str, duration_ms: u64, now: i64) -> (r: Self)
        ensures
            r.action == action,
            r.status == StepStatus::Success,
            r.message@ == message@,
            r.error_detail is None,
            r.duration_ms == duration_ms,
            r.started_at == now,
            r.prior_state is None,
    {
        ActionResult {
            action,
            status: StepStatus::Success,
            message: String::from_str(message),
            error_detail: None,
            duration_ms,
            started_at: now,
            prior_state: None,
        }
    }

    /// The result of an action that failed.
    pub fn error(action: Action, message: &str, detail: Option<String>, now: i64) -> (r: Self)
        ensures
            r.action == action,
            r.status == StepStatus::Error,
            r.message@ == message@,
            r.error_detail == detail,
            r.duration_ms == 0,
            r.started_at == now,
            r.prior_state is None,
    {
        ActionResult {
            action,
            status: StepStatus::Error,
            message: String::from_str(message),
            error_detail: detail,
            duration_ms: 0,
            started_at: now,
            prior_state: None,
        }
    }

    /// The result of an action that was carried out with warnings.
    pub fn warning(action: Action, message: &str, duration_ms: u64, now: i64) -> (r: Self)
        ensures
            r.action == action,
            r.status == StepStatus::Warning,
            r.message@ == message@,
            r.error_detail is None,
            r.duration_ms == duration_ms,
            r.started_at == now,
            r.prior_state is None,
    {
        ActionResult {
            action,
            status: StepStatus::Warning,
            message: String::from_str(message),
            error_detail: None,
            duration_ms,
            started_at: now,
            prior_state: None,
        }
    }

    /// The result of an action that was left out.
    pub fn skipped(action: Action, reason: &str, now: i64) -> (r: Self)
        ensures
            r.action == action,
            r.status == StepStatus::Skipped,
            r.message@ == reason@,
            r.error_detail is None,
            r.duration_ms == 0,
            r.started_at == now,
            r.prior_state is None,
    {
        ActionResult {
            action,
            status: StepStatus::Skipped,
            message: String::from_str(reason),
            error_detail: None,
            duration_ms: 0,
            started_at: now,
            prior_state: None,
        }
    }
}

/// The milliseconds from `start` to `end`, counted modulo 2^64: a clock
/// that went backwards gives a huge number, not a negative one.
pub open spec fn elapsed_ms(start: i64, end: i64) -> u64 {
    if end >= start {
        (end - start) as u64
    } else {
        (end - start + 0x1_0000_0000_0000_0000) as u64
    }
}

/// What came of applying a profile.
#[derive(Clone, Debug)]
pub struct ExecutionResult {
    /// Id of the profile.
    pub profile_id: String,
    /// Name of the profile.
    pub profile_name: String,
    /// How the run ended.
    pub status: StepStatus,
    /// A line that sums it up.
    pub message: String,
    /// The results of the actions.
    pub actions: Vec<ActionResult>,
    /// How long the run took, in milliseconds.
    pub total_duration_ms: u64,
    /// When the run started, in milliseconds since 1970.
    pub started_at: i64,
    /// When the run ended.
    pub completed_at: i64,
    /// Who started the run, if known.
    pub initiated_by: Option<String>,
}

impl ExecutionResult {
    /// The statuses of the actions, in their order.
    pub open spec fn statuses(self) -> Seq<StepStatus> {
        self.actions@.map_values(|a: ActionResult| a.status)
    }

    /// The result of a run that starts at `now`.
    pub fn new(profile_id: &str, profile_name: &str, now: i64) -> (r: Self)
        ensures
            r.profile_id@ == profile_id@,
            r.profile_name@ == profile_name@,
            r.status == StepStatus::Pending,
            r.message@.len() == 0,
            r.actions@.len() == 0,
            r.total_duration_ms == 0,
            r.started_at == now,
            r.completed_at == now,
            r.initiated_by is None,
    {
        ExecutionResult {
            profile_id: String::from_str(profile_id),
            profile_name: String::from_str(profile_name),
            status: StepStatus::Pending,
            message: String::new(),
            actions: Vec::new(),
            total_duration_ms: 0,
            started_at: now,
            completed_at: now,
            initiated_by: None,
        }
    }

    /// Adds the result of one more action.
    pub fn add_action(&mut self, result: ActionResult)
        ensures
            final(self).actions@ == old(self).actions@.push(result),
            final(self).status == old(self).status,
            final(self).message == old(self).message,
            final(self).started_at == old(self).started_at,
            final(self).completed_at == old(self).completed_at,
            final(self).total_duration_ms == old(self).total_duration_ms,
    {
        self.actions.push(result);
    }

    fn collect_statuses(&self) -> (r: Vec<StepStatus>)
        ensures
            r@ == self.statuses(),
    {
        let mut out: Vec<StepStatus> = Vec::new();
        let mut i: usize = 0;
        while i < self.actions.len()
            invariant
                i <= self.actions@.len(),
                out@.len() == i,
                forall|k: int| 0 <= k < i ==> out@[k] == self.actions@[k].status,
            decreases self.actions@.len() - i,
        {
            out.push(self.actions[i].status);
            i += 1;
        }
        assert(out@ =~= self.statuses());
        out
    }

    /// Closes the run at `now`: the time it took, its overall status and
    /// the line that sums it up are worked out from the actions.
    pub fn finalize(&mut self, now: i64)
        ensures
            final(self).completed_at == now,
            final(self).total_duration_ms == elapsed_ms(old(self).started_at, now),
            final(self).status == overall(old(self).statuses()),
            final(self).message@ == summary_text(old(self).statuses()),
            final(self).actions == old(self).actions,
            final(self).started_at == old(self).started_at,
            final(self).profile_id == old(self).profile_id,
            final(self).profile_name == old(self).profile_name,
    {
        self.completed_at = now;
        let d: i128 = now as i128 - self.started_at as i128;
        let m: i128 = if d >= 0 {
            d
        } else {
            d + 0x1_0000_0000_0000_0000
        };
        self.total_duration_ms = m as u64;
        let statuses: Vec<StepStatus> = self.collect_statuses();
        let (status, message) = summarize(statuses.as_slice());
        self.status = status;
        self.message = message;
    }

    /// The number of actions that got their work done, fully or in part.
    pub fn success_count(&self) -> (r: usize)
        ensures
            r == successes(self.statuses()),
    {
        let statuses: Vec<StepStatus> = self.collect_statuses();
        self::success_count(statuses.as_slice())
    }

    /// The number of actions that failed.
    pub fn error_count(&self) -> (r: usize)
        ensures
            r == occurrences(self.statuses(), StepStatus::Error),
    {
        let statuses: Vec<StepStatus> = self.collect_statuses();
        self::error_count(statuses.as_slice())
    }

    /// Whether the run as a whole got its work done.
    pub fn is_success(&self) -> (r: bool)
        ensures
            r == (self.status == StepStatus::Success || self.status == StepStatus::Warning
                || self.status == StepStatus::PartialSuccess),
    {
        self.status.is_success()
    }
}

} // verus!
