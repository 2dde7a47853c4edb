//! Outcomes, the run workspace, the step handles and the factory that builds them.

use vstd::prelude::*;

use crate::params::{arg_parse, param_value, parse_u64, u64_of};
use crate::text::text_eq;

verus! {

/// Declares the browser-session handle so that the workspace can hold it.
#[verifier::external_type_specification]
#[verifier::external_body]
pub struct ExWebDriver(thirtyfour::WebDriver);

/// Declared because `thirtyfour::WebDriver` dereferences to it.
#[verifier::external_type_specification]
#[verifier::external_body]
pub struct ExSessionHandle(thirtyfour::session::handle::SessionHandle);

/// What a step reports; it decides which edge the run follows next.
#[derive(Clone, Copy, Debug, PartialEq, Eq, Structural)]
pub enum ExecutionResult {
    Success,
    Failure,
    Decorate,
}

/// The variables that a list of assignments leaves: a later assignment of a key
/// overrides an earlier one.
pub open spec fn lookup_var(s: Seq<(Seq<char>, Seq<char>)>, key: Seq<char>) -> Option<Seq<char>>
    decreases s.len(),
{
    if s.len() == 0 {
        None
    } else if s.last().0 == key {
        Some(s.last().1)
    } else {
        lookup_var(s.drop_last(), key)
    }
}

pub open spec fn vars_map(s: Seq<(Seq<char>, Seq<char>)>) -> Map<Seq<char>, Seq<char>> {
    Map::new(|k: Seq<char>| lookup_var(s, k) is Some, |k: Seq<char>| lookup_var(s, k)->Some_0)
}

/// The run context as a value: its name, its variables, its log and its session.
pub struct WorkspaceView {
    pub id: Seq<char>,
    pub vars: Map<Seq<char>, Seq<char>>,
    pub log: Seq<Seq<char>>,
    pub driver: Option<thirtyfour::WebDriver>,
}

impl WorkspaceView {
    pub open spec fn logged(self, message: Seq<char>) -> WorkspaceView {
        WorkspaceView { log: self.log.push(message), ..self }
    }

    pub open spec fn with_var(self, key: Seq<char>, value: Seq<char>) -> WorkspaceView {
        WorkspaceView { vars: self.vars.insert(key, value), ..self }
    }

    pub open spec fn with_driver(self, driver: thirtyfour::WebDriver) -> WorkspaceView {
        WorkspaceView { driver: Some(driver), ..self }
    }
}

/// The mutable context of one run: named variables, an append-only log and at most one
/// browser session.
pub struct Workspace {
    pub id: String,
    /// Assignments in the order they were made; the last one of a key holds.
    pub variables: Vec<(String, String)>,
    pub execution_log: Vec<String>,
    pub web_driver: Option<thirtyfour::WebDriver>,
}

impl View for Workspace {
    type V = WorkspaceView;

    open spec fn view(&self) -> WorkspaceView {
        WorkspaceView {
            id: self.id@,
            vars: vars_map(self.variables@.map_values(|p: (String, String)| (p.0@, p.1@))),
            log: self.execution_log@.map_values(|s: String| s@),
            driver: self.web_driver,
        }
    }
}

impl Workspace {
    pub fn new(id: &str) -> (r: Workspace)
        ensures
            r@.id == id@,
            r@.vars == Map::<Seq<char>, Seq<char>>::empty(),
            r@.log == Seq::<Seq<char>>::empty(),
            r@.driver is None,
    {
        let r = Workspace {
            id: id.to_owned(),
            variables: Vec::new(),
            execution_log: Vec::new(),
            web_driver: None,
        };
        assert(r@.vars =~= Map::<Seq<char>, Seq<char>>::empty());
        assert(r@.log =~= Seq::<Seq<char>>::empty());
        r
    }

    pub fn set_variable(&mut self, key: &str, value: &str)
        ensures
            final(self)@ == old(self)@.with_var(key@, value@),
    {
        let ghost before = self.variables@.map_values(|p: (String, String)| (p.0@, p.1@));
        self.variables.push((key.to_owned(), value.to_owned()));
        let ghost after = self.variables@.map_values(|p: (String, String)| (p.0@, p.1@));
        assert(after.drop_last() =~= before);
        assert(vars_map(after) =~= vars_map(before).insert(key@, value@));
    }

    pub fn get_variable(&self, key: &str) -> (r: Option<&String>)
        ensures
            match r {
                Some(v) => self@.vars.contains_key(key@) && self@.vars[key@] == v@,
                None => !self@.vars.contains_key(key@),
            },
    {
        let ghost all = self.variables@.map_values(|p: (String, String)| (p.0@, p.1@));
        let wanted = key.to_owned();
        let mut j = self.variables.len();
        assert(all.take(j as int) =~= all);
        while j > 0
            invariant
                j <= self.variables@.len(),
                all == self.variables@.map_values(|p: (String, String)| (p.0@, p.1@)),
                wanted@ == key@,
                lookup_var(all, key@) == lookup_var(all.take(j as int), key@),
            decreases j,
        {
            assert(all.take(j as int).drop_last() =~= all.take(j - 1));
            if self.variables[j - 1].0 == wanted {
                return Some(&self.variables[j - 1].1);
            }
            j -= 1;
        }
        None
    }

    pub fn set_web_driver(&mut self, driver: thirtyfour::WebDriver) -> (r: bool)
        ensures
            final(self)@ == old(self)@.with_driver(driver),
            r,
    {
        self.web_driver = Some(driver);
        self.web_driver.is_some()
    }

    pub fn get_web_driver(&self) -> (r: Option<&thirtyfour::WebDriver>)
        ensures
            match r {
                Some(d) => self.web_driver == Some(*d),
                None => self.web_driver is None,
            },
    {
        self.web_driver.as_ref()
    }

    pub fn log(&mut self, message: &str)
        ensures
            final(self)@ == old(self)@.logged(message@),
    {
        self.execution_log.push(message.to_owned());
        assert(final(self)@.log =~= old(self)@.log.push(message@));
    }
}

/// The fallback handle: it reports success and names itself in the log.
pub struct BaseTask {
    pub task_name: String,
    pub task_type: String,
}

impl BaseTask {
    pub fn new(task_name: &str, task_type: &str) -> (r: BaseTask)
        ensures
            r.task_name@ == task_name@,
            r.task_type@ == task_type@,
    {
        BaseTask { task_name: task_name.to_owned(), task_type: task_type.to_owned() }
    }
}

pub struct ControlTask {
    pub base: BaseTask,
}

impl ControlTask {
    pub fn new(task_name: &str) -> (r: ControlTask)
        ensures
            r.base.task_name@ == task_name@,
            r.base.task_type@ == "control"@,
    {
        ControlTask { base: BaseTask::new(task_name, "control") }
    }
}

pub struct OperateTask {
    pub base: BaseTask,
}

impl OperateTask {
    pub fn new(task_name: &str) -> (r: OperateTask)
        ensures
            r.base.task_name@ == task_name@,
            r.base.task_type@ == "operate"@,
    {
        OperateTask { base: BaseTask::new(task_name, "operate") }
    }
}

pub struct DecorateTask {
    pub base: BaseTask,
}

impl DecorateTask {
    pub fn new(task_name: &str) -> (r: DecorateTask)
        ensures
            r.base.task_name@ == task_name@,
            r.base.task_type@ == "decorate"@,
    {
        DecorateTask { base: BaseTask::new(task_name, "decorate") }
    }
}

/// Marks the start of a run.
pub struct HeadTack {
    pub base: ControlTask,
}

impl HeadTack {
    pub fn new() -> (r: HeadTack)
        ensures
            r.base.base.task_name@ == "head"@,
            r.base.base.task_type@ == "control"@,
    {
        HeadTack { base: ControlTask::new("head") }
    }
}

/// Closes the session and clears the workspace.
pub struct EndTack {
    pub base: ControlTask,
}

impl EndTack {
    pub fn new() -> (r: EndTack)
        ensures
            r.base.base.task_name@ == "end"@,
            r.base.base.task_type@ == "control"@,
    {
        EndTack { base: ControlTask::new("end") }
    }
}

/// Pauses the run for `time` milliseconds.
pub struct SleepTack {
    pub base: ControlTask,
    pub time: u64,
}

impl SleepTack {
    pub fn new(millisecond: Option<u64>) -> (r: SleepTack)
        ensures
            r.base.base.task_name@ == "sleep"@,
            r.base.base.task_type@ == "control"@,
            r.time == match millisecond {
                Some(ms) => ms,
                None => 0,
            },
    {
        SleepTack {
            base: ControlTask::new("sleep"),
            time: match millisecond {
                Some(ms) => ms,
                None => 0,
            },
        }
    }
}

/// Waits for the next time that a cron expression names.
pub struct TimingTack {
    pub base: ControlTask,
    pub cron: String,
}

impl TimingTack {
    pub fn new(cron: Option<&str>) -> (r: TimingTack)
        ensures
            r.base.base.task_name@ == "timing"@,
            r.base.base.task_type@ == "control"@,
            r.cron@ == match cron {
                Some(c) => c@,
                None => "* * * * * * *"@,
            },
    {
        TimingTack {
            base: ControlTask::new("timing"),
            cron: match cron {
                Some(c) => c.to_owned(),
                None => "* * * * * * *".to_owned(),
            },
        }
    }
}

/// Opens a browser session against a driver endpoint.
pub struct InitWebTack {
    pub base: OperateTask,
    pub url: String,
}

impl InitWebTack {
    pub fn new(url: Option<&str>) -> (r: InitWebTack)
        ensures
            r.base.base.task_name@ == "init_web"@,
            r.base.base.task_type@ == "operate"@,
            r.url@ == match url {
                Some(u) => u@,
                None => "http://localhost:9515"@,
            },
    {
        InitWebTack {
            base: OperateTask::new("init_web"),
            url: match url {
                Some(u) => u.to_owned(),
                None => "http://localhost:9515".to_owned(),
            },
        }
    }
}

/// Navigates the session to a page and maximizes the window.
pub struct OpenWebTack {
    pub base: OperateTask,
    pub url: String,
}

impl OpenWebTack {
    pub fn new(url: Option<&str>) -> (r: OpenWebTack)
        ensures
            r.base.base.task_name@ == "open_web"@,
            r.base.base.task_type@ == "operate"@,
            r.url@ == match url {
                Some(u) => u@,
                None => "www.wikipedia.org/wiki/Red_panda"@,
            },
    {
        OpenWebTack {
            base: OperateTask::new("open_web"),
            url: match url {
                Some(u) => u.to_owned(),
                None => "www.wikipedia.org/wiki/Red_panda".to_owned(),
            },
        }
    }
}

/// Clears a page element and types text into it.
pub struct InputStringTack {
    pub base: OperateTask,
    pub component: String,
    pub input: String,
}

impl InputStringTack {
    pub fn new(comp: Option<&str>, input: Option<&str>) -> (r: InputStringTack)
        ensures
            r.base.base.task_name@ == "input_string"@,
            r.base.base.task_type@ == "operate"@,
            r.component@ == match comp {
                Some(c) => c@,
                None => ""@,
            },
            r.input@ == match input {
                Some(i) => i@,
                None => "red panda"@,
            },
    {
        InputStringTack {
            base: OperateTask::new("input_string"),
            component: match comp {
                Some(c) => c.to_owned(),
                None => "".to_owned(),
            },
            input: match input {
                Some(i) => i.to_owned(),
                None => "red panda".to_owned(),
            },
        }
    }
}

/// Clicks a page element.
pub struct PressButtonTack {
    pub base: OperateTask,
    pub component: String,
}

impl PressButtonTack {
    pub fn new(comp: Option<&str>) -> (r: PressButtonTack)
        ensures
            r.base.base.task_name@ == "press_button"@,
            r.base.base.task_type@ == "operate"@,
            r.component@ == match comp {
                Some(c) => c@,
                None => ""@,
            },
    {
        PressButtonTack {
            base: OperateTask::new("press_button"),
            component: match comp {
                Some(c) => c.to_owned(),
                None => "".to_owned(),
            },
        }
    }
}

/// Sends the submit key to a page element.
pub struct SummitTack {
    pub base: OperateTask,
    pub component: String,
}

impl SummitTack {
    pub fn new(comp: Option<&str>) -> (r: SummitTack)
        ensures
            r.base.base.task_name@ == "summit"@,
            r.base.base.task_type@ == "operate"@,
            r.component@ == match comp {
                Some(c) => c@,
                None => ""@,
            },
    {
        SummitTack {
            base: OperateTask::new("summit"),
            component: match comp {
                Some(c) => c.to_owned(),
                None => "".to_owned(),
            },
        }
    }
}

/// Meant to pad the step it decorates; for now it only logs.
pub struct DelayTack {
    pub base: DecorateTask,
    pub front_time: u64,
    pub back_time: u64,
}

impl DelayTack {
    pub fn new(f_time: Option<u64>, b_time: Option<u64>) -> (r: DelayTack)
        ensures
            r.base.base.task_name@ == "delay"@,
            r.base.base.task_type@ == "decorate"@,
            r.front_time == match f_time {
                Some(t) => t,
                None => 0,
            },
            r.back_time == match b_time {
                Some(t) => t,
                None => 0,
            },
    {
        DelayTack {
            base: DecorateTask::new("delay"),
            front_time: match f_time {
                Some(t) => t,
                None => 0,
            },
            back_time: match b_time {
                Some(t) => t,
                None => 0,
            },
        }
    }
}

/// Meant to mark a part of the flow for parallel execution; for now it only logs.
pub struct ConcurrentTack {
    pub base: DecorateTask,
}

impl ConcurrentTack {
    pub fn new() -> (r: ConcurrentTack)
        ensures
            r.base.base.task_name@ == "concurrent"@,
            r.base.base.task_type@ == "decorate"@,
    {
        ConcurrentTack { base: DecorateTask::new("concurrent") }
    }
}

/// The closed set of step handles, one variant per known (category, kind) pair and a
/// fallback for the rest.
pub enum Task {
    Base(BaseTask),
    Head(HeadTack),
    End(EndTack),
    Sleep(SleepTack),
    Timing(TimingTack),
    InitWeb(InitWebTack),
    OpenWeb(OpenWebTack),
    InputString(InputStringTack),
    PressButton(PressButtonTack),
    Summit(SummitTack),
    Delay(DelayTack),
    Concurrent(ConcurrentTack),
}

impl Task {
    /// The name record that the handle carries: (category, kind).
    pub open spec fn identity(self) -> (Seq<char>, Seq<char>) {
        match self {
            Task::Base(t) => (t.task_type@, t.task_name@),
            Task::Head(t) => (t.base.base.task_type@, t.base.base.task_name@),
            Task::End(t) => (t.base.base.task_type@, t.base.base.task_name@),
            Task::Sleep(t) => (t.base.base.task_type@, t.base.base.task_name@),
            Task::Timing(t) => (t.base.base.task_type@, t.base.base.task_name@),
            Task::InitWeb(t) => (t.base.base.task_type@, t.base.base.task_name@),
            Task::OpenWeb(t) => (t.base.base.task_type@, t.base.base.task_name@),
            Task::InputString(t) => (t.base.base.task_type@, t.base.base.task_name@),
            Task::PressButton(t) => (t.base.base.task_type@, t.base.base.task_name@),
            Task::Summit(t) => (t.base.base.task_type@, t.base.base.task_name@),
            Task::Delay(t) => (t.base.base.task_type@, t.base.base.task_name@),
            Task::Concurrent(t) => (t.base.base.task_type@, t.base.base.task_name@),
        }
    }
}

/// The text of a parameter, or a default when the blob does not give it.
pub open spec fn text_or(v: Option<Seq<char>>, default: Seq<char>) -> Seq<char> {
    match v {
        Some(t) => t,
        None => default,
    }
}

/// The number that a parameter writes, or 0 when it is absent or not a `u64`.
pub open spec fn number_or_zero(v: Option<Seq<char>>) -> u64 {
    match v {
        Some(t) => match u64_of(t) {
            Some(n) => n,
            None => 0,
        },
        None => 0,
    }
}

/// The handle that the factory makes for a step of the given category, kind and
/// parameter blob: the variant that the pair names, its fields read from the blob
/// with their defaults, and the generic handle for an unknown pair.
pub open spec fn builds(category: Seq<char>, kind: Seq<char>, para: Seq<char>, t: Task) -> bool {
    &&& t.identity() == (category, kind)
    &&& if category == "control"@ && kind == "head"@ {
        t is Head
    } else if category == "control"@ && kind == "end"@ {
        t is End
    } else if category == "control"@ && kind == "sleep"@ {
        t matches Task::Sleep(s) && s.time == number_or_zero(param_value(para, "ms"@))
    } else if category == "control"@ && kind == "timing"@ {
        t matches Task::Timing(s) && s.cron@ == text_or(
            param_value(para, "cron"@),
            "* * * * * * *"@,
        )
    } else if category == "operate"@ && kind == "init_web"@ {
        t matches Task::InitWeb(s) && s.url@ == text_or(
            param_value(para, "url"@),
            "http://localhost:9515"@,
        )
    } else if category == "operate"@ && kind == "open_web"@ {
        t matches Task::OpenWeb(s) && s.url@ == text_or(
            param_value(para, "url"@),
            "www.wikipedia.org/wiki/Red_panda"@,
        )
    } else if category == "operate"@ && kind == "input_string"@ {
        t matches Task::InputString(s) && s.component@ == text_or(
            param_value(para, "component"@),
            ""@,
        ) && s.input@ == text_or(param_value(para, "input"@), "red panda"@)
    } else if category == "operate"@ && kind == "press_button"@ {
        t matches Task::PressButton(s) && s.component@ == text_or(
            param_value(para, "component"@),
            ""@,
        )
    } else if category == "operate"@ && kind == "summit"@ {
        t matches Task::Summit(s) && s.component@ == text_or(
            param_value(para, "component"@),
            ""@,
        )
    } else if category == "decorate"@ && kind == "delay"@ {
        t matches Task::Delay(s) && s.front_time == number_or_zero(
            param_value(para, "front_time"@),
        ) && s.back_time == number_or_zero(param_value(para, "back_time"@))
    } else if category == "decorate"@ && kind == "concurrent"@ {
        t is Concurrent
    } else {
        t is Base
    }
}

fn number_param(para: &str, key: &str) -> (r: Option<u64>)
    ensures
        number_or_zero(param_value(para@, key@)) == match r {
            Some(n) => n,
            None => 0,
        },
{
    match arg_parse(para, key) {
        Some(v) => parse_u64(v.as_str()),
        None => None,
    }
}

/// Builds the handle for one step declaration; an unknown (category, kind) pair gets
/// the generic handle, so this never fails.
pub fn make_task(node_type: &str, node_name: &str, node_para: &str) -> (r: Task)
    ensures
        builds(node_type@, node_name@, node_para@, r),
{
    let control = text_eq(node_type, "control");
    let operate = text_eq(node_type, "operate");
    let decorate = text_eq(node_type, "decorate");
    if control && text_eq(node_name, "head") {
        Task::Head(HeadTack::new())
    } else if control && text_eq(node_name, "end") {
        Task::End(EndTack::new())
    } else if control && text_eq(node_name, "sleep") {
        let ms = number_param(node_para, "ms");
        Task::Sleep(SleepTack::new(ms))
    } else if control && text_eq(node_name, "timing") {
        match arg_parse(node_para, "cron") {
            Some(c) => Task::Timing(TimingTack::new(Some(c.as_str()))),
            None => Task::Timing(TimingTack::new(None)),
        }
    } else if operate && text_eq(node_name, "init_web") {
        match arg_parse(node_para, "url") {
            Some(u) => Task::InitWeb(InitWebTack::new(Some(u.as_str()))),
            None => Task::InitWeb(InitWebTack::new(None)),
        }
    } else if operate && text_eq(node_name, "open_web") {
        match arg_parse(node_para, "url") {
            Some(u) => Task::OpenWeb(OpenWebTack::new(Some(u.as_str()))),
            None => Task::OpenWeb(OpenWebTack::new(None)),
        }
    } else if operate && text_eq(node_name, "input_string") {
        let component = arg_parse(node_para, "component");
        let input = arg_parse(node_para, "input");
        let comp_ref = match &component {
            Some(c) => Some(c.as_str()),
            None => None,
        };
        let input_ref = match &input {
            Some(i) => Some(i.as_str()),
            None => None,
        };
        Task::InputString(InputStringTack::new(comp_ref, input_ref))
    } else if operate && text_eq(node_name, "press_button") {
        match arg_parse(node_para, "component") {
            Some(c) => Task::PressButton(PressButtonTack::new(Some(c.as_str()))),
            None => Task::PressButton(PressButtonTack::new(None)),
        }
    } else if operate && text_eq(node_name, "summit") {
        match arg_parse(node_para, "component") {
            Some(c) => Task::Summit(SummitTack::new(Some(c.as_str()))),
            None => Task::Summit(SummitTack::new(None)),
        }
    } else if decorate && text_eq(node_name, "delay") {
        let front = number_param(node_para, "front_time");
        let back = number_param(node_para, "back_time");
        Task::Delay(DelayTack::new(front, back))
    } else if decorate && text_eq(node_name, "concurrent") {
        Task::Concurrent(ConcurrentTack::new())
    } else {
        Task::Base(BaseTask::new(node_name, node_type))
    }
}

} // verus!
