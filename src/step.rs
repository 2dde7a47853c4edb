//! What each step does when it runs: the log line it writes, the outcome it decides,
//! or the outside work (a pause, a browser action) it hands to the caller.

use vstd::prelude::*;
use std::str::FromStr;

use crate::task::{BaseTask, ExecutionResult, Task, TimingTack, Workspace, WorkspaceView};

verus! {

/// Declares `cron::Schedule`, the parsed form of a timing step's expression.
#[verifier::external_type_specification]
#[verifier::external_body]
pub struct ExSchedule(cron::Schedule);

/// Declares `cron::error::Error`, what parsing a rejected expression gives.
#[verifier::external_type_specification]
#[verifier::external_body]
pub struct ExCronError(cron::error::Error);

/// Whether the cron crate accepts an expression.
pub uninterp spec fn cron_accepts(expr: Seq<char>) -> bool;

/// The last second (in Unix time) that the schedule lookup is asked about: the end of
/// the year 9999.
pub const LATEST_SECOND: i64 = 253402300799;

/// Relies on `cron::Schedule::from_str`: it parses a cron expression, and whether it
/// succeeds depends on the expression alone.
#[verifier::external_body]
fn parse_schedule(expr: &str) -> (r: Result<cron::Schedule, cron::error::Error>)
    ensures
        r is Ok == cron_accepts(expr@),
{
    cron::Schedule::from_str(expr)
}

/// Relies on `chrono::Utc::now`: the current time, in whole seconds of Unix time.
#[verifier::external_body]
fn now_seconds() -> (r: i64) {
    chrono::Utc::now().timestamp()
}

/// Relies on `chrono::DateTime::from_timestamp` and `cron::Schedule::after`: the first
/// time, in seconds of Unix time, that the schedule names after `now`, if there is one.
#[verifier::external_body]
fn next_after(schedule: &cron::Schedule, now: i64) -> (r: Option<i64>)
    requires
        0 <= now <= LATEST_SECOND,
{
    let start = chrono::DateTime::from_timestamp(now, 0)?;
    let next = schedule.after(&start).next()?;
    Some(next.timestamp())
}

/// Outside work that a step asks the caller to perform.
pub enum Action {
    /// Pause for this many milliseconds.
    Sleep(u64),
    /// Pause for this many seconds.
    Wait(u64),
    /// Open a browser session against this driver endpoint.
    OpenSession(String),
    /// Navigate the session to this address and maximize the window.
    Navigate(String),
    /// Find the element (by id, then name, then selector), clear it and type the text.
    Fill(String, String),
    /// Find the element and click it.
    Click(String),
    /// Find the element and send it the submit key.
    Submit(String),
    /// Close this session.
    CloseSession(thirtyfour::WebDriver),
}

/// What starting a step gives: its outcome, or outside work to perform first.
pub enum Progress {
    Done(ExecutionResult),
    Perform(Action),
}

/// How the outside work went.
pub enum Report {
    Completed,
    Failed,
    /// A session was opened.
    Opened(thirtyfour::WebDriver),
}

pub open spec fn base_message(t: BaseTask) -> Seq<char> {
    "run base task, name: "@ + t.task_name@ + ", type: "@ + t.task_type@
}

pub open spec fn timing_message(t: TimingTack) -> Seq<char> {
    "run timing: "@ + t.cron@
}

/// The seconds to wait for a schedule's next time: none when there is no next time,
/// else the time left until it, and 0 when it is not in the future.
pub open spec fn wait_for(next: Option<i64>, now: i64) -> Option<u64> {
    match next {
        Some(t) => Some(
            if t > now {
                (t - now) as u64
            } else {
                0
            },
        ),
        None => None,
    }
}

pub open spec fn needs_session(
    before: WorkspaceView,
    after: WorkspaceView,
    message: Seq<char>,
    r: Progress,
) -> bool {
    &&& after == before.logged(message)
    &&& before.driver is None ==> r == Progress::Done(ExecutionResult::Failure)
}

/// What starting a step does to the workspace and what it gives.
pub open spec fn begins(t: Task, before: WorkspaceView, r: Progress, after: WorkspaceView) -> bool {
    match t {
        Task::Base(b) => after == before.logged(base_message(b)) && r == Progress::Done(
            ExecutionResult::Success,
        ),
        Task::Head(_) => after == before.logged("run head"@) && r == Progress::Done(
            ExecutionResult::Success,
        ),
        Task::End(_) => {
            &&& after == WorkspaceView {
                id: before.id,
                vars: Map::empty(),
                log: Seq::empty(),
                driver: None,
            }
            &&& match before.driver {
                Some(d) => r == Progress::Perform(Action::CloseSession(d)),
                None => r == Progress::Done(ExecutionResult::Success),
            }
        },
        Task::Sleep(s) => after == before.logged("run sleep"@) && r == Progress::Perform(
            Action::Sleep(s.time),
        ),
        Task::Timing(s) => {
            let started = before.logged(timing_message(s));
            if !cron_accepts(s.cron@) {
                after == started.logged("invalid cron expression"@) && r == Progress::Done(
                    ExecutionResult::Failure,
                )
            } else {
                ||| (after == started.logged("no next trigger time found"@) && r == Progress::Done(
                    ExecutionResult::Failure,
                ))
                ||| (after == started && r matches Progress::Perform(Action::Wait(_)))
            }
        },
        Task::InitWeb(s) => after == before && (r matches Progress::Perform(
            Action::OpenSession(u),
        ) && u@ == s.url@),
        Task::OpenWeb(s) => {
            &&& needs_session(before, after, "run open web"@, r)
            &&& before.driver is Some ==> (r matches Progress::Perform(Action::Navigate(u)) && u@
                == s.url@)
        },
        Task::InputString(s) => {
            &&& needs_session(before, after, "input string"@, r)
            &&& before.driver is Some ==> (r matches Progress::Perform(Action::Fill(c, i)) && c@
                == s.component@ && i@ == s.input@)
        },
        Task::PressButton(s) => {
            &&& needs_session(before, after, "run press button"@, r)
            &&& before.driver is Some ==> (r matches Progress::Perform(Action::Click(c)) && c@
                == s.component@)
        },
        Task::Summit(s) => {
            &&& needs_session(before, after, "summit search"@, r)
            &&& before.driver is Some ==> (r matches Progress::Perform(Action::Submit(c)) && c@
                == s.component@)
        },
        Task::Delay(_) => after == before.logged("run delay"@) && r == Progress::Done(
            ExecutionResult::Success,
        ),
        Task::Concurrent(_) => after == before.logged("run concurrent"@) && r == Progress::Done(
            ExecutionResult::Success,
        ),
    }
}

/// The outcome of a step once its outside work is reported, and what that does to the
/// workspace.
pub open spec fn finishes(
    t: Task,
    before: WorkspaceView,
    report: Report,
    r: ExecutionResult,
    after: WorkspaceView,
) -> bool {
    match t {
        Task::InitWeb(_) => match report {
            Report::Opened(d) => r == ExecutionResult::Success && after == before.with_driver(d),
            _ => r == ExecutionResult::Failure && after == before,
        },
        Task::InputString(s) => if report is Completed {
            r == ExecutionResult::Success && after == before.with_var(
                "last_option_component"@,
                s.component@,
            )
        } else {
            r == ExecutionResult::Failure && after == before
        },
        Task::Summit(s) => if report is Completed {
            r == ExecutionResult::Success && after == before.with_var(
                "last_option_component"@,
                s.component@,
            )
        } else {
            r == ExecutionResult::Failure && after == before
        },
        Task::End(_) => r == ExecutionResult::Success && after == before,
        _ => after == before && r == if report is Completed {
            ExecutionResult::Success
        } else {
            ExecutionResult::Failure
        },
    }
}

/// How long a timing step waits, given the schedule's next time (if any) and the
/// current time, both in seconds of Unix time.
pub fn timing_plan(next: Option<i64>, now: i64) -> (r: Option<u64>)
    ensures
        r == wait_for(next, now),
{
    match next {
        Some(t) => {
            if t > now {
                Some((t as i128 - now as i128) as u64)
            } else {
                Some(0)
            }
        },
        None => None,
    }
}

impl TimingTack {
    fn start(&self, ws: &mut Workspace) -> (r: Progress)
        ensures
            begins(Task::Timing(*self), old(ws)@, r, final(ws)@),
    {
        let mut message = "run timing: ".to_owned();
        message.append(self.cron.as_str());
        ws.log(message.as_str());
        let schedule = match parse_schedule(self.cron.as_str()) {
            Ok(s) => s,
            Err(_) => {
                ws.log("invalid cron expression");
                return Progress::Done(ExecutionResult::Failure);
            },
        };
        let now = now_seconds();
        let next = if 0 <= now && now <= LATEST_SECOND {
            next_after(&schedule, now)
        } else {
            None
        };
        match timing_plan(next, now) {
            Some(secs) => Progress::Perform(Action::Wait(secs)),
            None => {
                ws.log("no next trigger time found");
                Progress::Done(ExecutionResult::Failure)
            },
        }
    }
}

impl Task {
    /// Starts the step on the workspace: writes its log line and either decides its
    /// outcome at once or hands back the outside work it needs.
    pub fn begin(&self, ws: &mut Workspace) -> (r: Progress)
        ensures
            begins(*self, old(ws)@, r, final(ws)@),
    {
        match self {
            Task::Base(b) => {
                let mut message = "run base task, name: ".to_owned();
                message.append(b.task_name.as_str());
                message.append(", type: ");
                message.append(b.task_type.as_str());
                ws.log(message.as_str());
                Progress::Done(ExecutionResult::Success)
            },
            Task::Head(_) => {
                ws.log("run head");
                Progress::Done(ExecutionResult::Success)
            },
            Task::End(_) => {
                ws.log("run end: cleaning workspace");
                let driver = ws.web_driver.take();
                ws.variables = Vec::new();
                ws.execution_log = Vec::new();
                assert(ws@.vars =~= Map::<Seq<char>, Seq<char>>::empty());
                assert(ws@.log =~= Seq::<Seq<char>>::empty());
                match driver {
                    Some(d) => Progress::Perform(Action::CloseSession(d)),
                    None => Progress::Done(ExecutionResult::Success),
                }
            },
            Task::Sleep(s) => {
                ws.log("run sleep");
                Progress::Perform(Action::Sleep(s.time))
            },
            Task::Timing(s) => s.start(ws),
            Task::InitWeb(s) => Progress::Perform(Action::OpenSession(s.url.clone())),
            Task::OpenWeb(s) => {
                ws.log("run open web");
                if ws.web_driver.is_none() {
                    return Progress::Done(ExecutionResult::Failure);
                }
                Progress::Perform(Action::Navigate(s.url.clone()))
            },
            Task::InputString(s) => {
                ws.log("input string");
                if ws.web_driver.is_none() {
                    return Progress::Done(ExecutionResult::Failure);
                }
                Progress::Perform(Action::Fill(s.component.clone(), s.input.clone()))
            },
            Task::PressButton(s) => {
                ws.log("run press button");
                if ws.web_driver.is_none() {
                    return Progress::Done(ExecutionResult::Failure);
                }
                Progress::Perform(Action::Click(s.component.clone()))
            },
            Task::Summit(s) => {
                ws.log("summit search");
                if ws.web_driver.is_none() {
                    return Progress::Done(ExecutionResult::Failure);
                }
                Progress::Perform(Action::Submit(s.component.clone()))
            },
            Task::Delay(_) => {
                ws.log("run delay");
                Progress::Done(ExecutionResult::Success)
            },
            Task::Concurrent(_) => {
                ws.log("run concurrent");
                Progress::Done(ExecutionResult::Success)
            },
        }
    }

    /// Ends the step once its outside work is reported: a new session is kept in the
    /// workspace, a filled or submitted element is remembered, and the report decides
    /// the outcome.
    pub fn finish(&self, ws: &mut Workspace, report: Report) -> (r: ExecutionResult)
        ensures
            finishes(*self, old(ws)@, report, r, final(ws)@),
    {
        match self {
            Task::InitWeb(_) => match report {
                Report::Opened(d) => {
                    ws.set_web_driver(d);
                    ExecutionResult::Success
                },
                _ => ExecutionResult::Failure,
            },
            Task::InputString(s) => match report {
                Report::Completed => {
                    ws.set_variable("last_option_component", s.component.as_str());
                    ExecutionResult::Success
                },
                _ => ExecutionResult::Failure,
            },
            Task::Summit(s) => match report {
                Report::Completed => {
                    ws.set_variable("last_option_component", s.component.as_str());
                    ExecutionResult::Success
                },
                _ => ExecutionResult::Failure,
            },
            Task::End(_) => ExecutionResult::Success,
            _ => match report {
                Report::Completed => ExecutionResult::Success,
                _ => ExecutionResult::Failure,
            },
        }
    }
}

} // verus!
