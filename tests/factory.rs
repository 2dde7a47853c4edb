use flow_engine::task::{make_task, Task};

#[test]
fn known_kinds_get_their_handles() {
    assert!(matches!(make_task("control", "head", ""), Task::Head(_)));
    assert!(matches!(make_task("control", "end", ""), Task::End(_)));
    assert!(matches!(make_task("decorate", "concurrent", ""), Task::Concurrent(_)));
}

#[test]
fn sleep_reads_milliseconds() {
    match make_task("control", "sleep", "{ms:'5'}") {
        Task::Sleep(t) => assert_eq!(t.time, 5),
        _ => panic!("expected a sleep handle"),
    }
    match make_task("control", "sleep", "{ms:'soon'}") {
        Task::Sleep(t) => assert_eq!(t.time, 0),
        _ => panic!("expected a sleep handle"),
    }
    match make_task("control", "sleep", "") {
        Task::Sleep(t) => assert_eq!(t.time, 0),
        _ => panic!("expected a sleep handle"),
    }
}

#[test]
fn timing_reads_cron_with_default() {
    match make_task("control", "timing", "{cron:'0 0 * * * * *'}") {
        Task::Timing(t) => assert_eq!(t.cron, "0 0 * * * * *"),
        _ => panic!("expected a timing handle"),
    }
    match make_task("control", "timing", "") {
        Task::Timing(t) => assert_eq!(t.cron, "* * * * * * *"),
        _ => panic!("expected a timing handle"),
    }
}

#[test]
fn operate_kinds_read_their_parameters() {
    match make_task("operate", "init_web", "") {
        Task::InitWeb(t) => assert_eq!(t.url, "http://localhost:9515"),
        _ => panic!("expected an init_web handle"),
    }
    match make_task("operate", "open_web", "{url:'example.org'}") {
        Task::OpenWeb(t) => assert_eq!(t.url, "example.org"),
        _ => panic!("expected an open_web handle"),
    }
    match make_task("operate", "open_web", "") {
        Task::OpenWeb(t) => assert_eq!(t.url, "www.wikipedia.org/wiki/Red_panda"),
        _ => panic!("expected an open_web handle"),
    }
    match make_task("operate", "input_string", "{component:'searchInput'}") {
        Task::InputString(t) => {
            assert_eq!(t.component, "searchInput");
            assert_eq!(t.input, "red panda");
        }
        _ => panic!("expected an input_string handle"),
    }
    match make_task("operate", "press_button", "{component:'go'}") {
        Task::PressButton(t) => assert_eq!(t.component, "go"),
        _ => panic!("expected a press_button handle"),
    }
    match make_task("operate", "summit", "") {
        Task::Summit(t) => {
            assert_eq!(t.component, "");
            assert_eq!(t.base.base.task_name, "summit");
        }
        _ => panic!("expected a summit handle"),
    }
}

#[test]
fn delay_reads_both_times() {
    match make_task("decorate", "delay", "{front_time:'3', back_time:'4'}") {
        Task::Delay(t) => {
            assert_eq!(t.front_time, 3);
            assert_eq!(t.back_time, 4);
        }
        _ => panic!("expected a delay handle"),
    }
}

#[test]
fn unknown_pair_gets_the_generic_handle() {
    match make_task("operate", "scroll", "{px:'9'}") {
        Task::Base(b) => {
            assert_eq!(b.task_name, "scroll");
            assert_eq!(b.task_type, "operate");
        }
        _ => panic!("expected the generic handle"),
    }
    assert!(matches!(make_task("head", "control", ""), Task::Base(_)));
}
