use dailybible::clock::ClockTime;
use dailybible::localize::Language;
use dailybible::scheduler::{
    chats_due_at, user_state_env, user_state_file_path, SaveLoop, SaveStep, TimerLoop, TimerStep,
    SAVE_PAUSE_SECONDS, TIMER_PAUSE_SECONDS,
};
use dailybible::userstate::{ChatId, UserState, UserStateWrapper};

fn at(hour: u32, minute: u32) -> ClockTime {
    ClockTime::new(hour, minute).unwrap()
}

fn record(chat_id: i64, timer: Option<ClockTime>) -> UserState {
    UserState { chat_id: ChatId(chat_id), language: Language::English, timer }
}

fn store_of(records: &[UserState]) -> UserStateWrapper {
    let mut store = UserStateWrapper::new();
    for state in records {
        store.update_userstate(*state);
    }
    store
}

fn remind(chats: &[i64]) -> TimerStep {
    TimerStep::Remind {
        chats: chats.iter().map(|chat| ChatId(*chat)).collect(),
        pause_seconds: 5,
    }
}

#[test]
fn reminder_is_sent_once_in_its_minute() {
    let store = store_of(&[
        record(1, Some(at(8, 0))),
        record(2, None),
        record(3, Some(at(8, 1))),
        record(4, Some(at(20, 0))),
    ]);
    let mut timer = TimerLoop::new();
    assert_eq!(timer.step(false, at(7, 59), &store), remind(&[]));
    assert_eq!(timer.step(false, at(8, 0), &store), remind(&[1]));
    assert_eq!(timer.step(false, at(8, 0), &store), remind(&[]));
    assert_eq!(timer.step(false, at(8, 0), &store), remind(&[]));
    assert_eq!(timer.step(false, at(8, 1), &store), remind(&[3]));
    assert_eq!(timer.step(false, at(8, 2), &store), remind(&[]));
}

#[test]
fn first_step_handles_its_minute() {
    let store = store_of(&[record(1, Some(at(8, 0)))]);
    let mut timer = TimerLoop::new();
    assert_eq!(timer.step(false, at(8, 0), &store), remind(&[1]));
}

#[test]
fn all_chats_of_a_minute_are_reminded_in_order() {
    let store = store_of(&[
        record(5, Some(at(6, 30))),
        record(1, Some(at(6, 31))),
        record(-3, Some(at(6, 30))),
        record(2, None),
        record(9, Some(at(6, 30))),
    ]);
    let mut timer = TimerLoop::new();
    assert_eq!(timer.step(false, at(6, 30), &store), remind(&[5, -3, 9]));
}

#[test]
fn minute_is_handled_again_on_the_next_day() {
    let store = store_of(&[record(1, Some(at(8, 0)))]);
    let mut timer = TimerLoop::new();
    assert_eq!(timer.step(false, at(8, 0), &store), remind(&[1]));
    assert_eq!(timer.step(false, at(8, 1), &store), remind(&[]));
    assert_eq!(timer.step(false, at(8, 0), &store), remind(&[1]));
}

#[test]
fn timer_set_during_a_handled_minute_waits_for_the_next_day() {
    let mut store = store_of(&[]);
    let mut timer = TimerLoop::new();
    assert_eq!(timer.step(false, at(8, 0), &store), remind(&[]));
    store.update_userstate(record(1, Some(at(8, 0))));
    assert_eq!(timer.step(false, at(8, 0), &store), remind(&[]));
}

#[test]
fn shutdown_stops_the_reminder_loop() {
    let store = store_of(&[record(1, Some(at(8, 0)))]);
    let mut timer = TimerLoop::new();
    assert_eq!(timer.step(true, at(8, 0), &store), TimerStep::Stop);
    assert_eq!(timer.step(false, at(8, 0), &store), remind(&[1]));
    assert_eq!(timer.step(true, at(8, 1), &store), TimerStep::Stop);
    assert_eq!(timer.step(false, at(8, 0), &store), remind(&[]));
}

#[test]
fn pause_is_shorter_than_a_minute() {
    assert_eq!(TIMER_PAUSE_SECONDS, 5);
    assert!(TIMER_PAUSE_SECONDS < 60);
    assert_eq!(SAVE_PAUSE_SECONDS, 30);
}

#[test]
fn due_chats_of_a_list() {
    let records = vec![record(1, Some(at(8, 0))), record(2, Some(at(8, 0))), record(3, None)];
    assert_eq!(chats_due_at(&records, at(8, 0)), vec![ChatId(1), ChatId(2)]);
    assert_eq!(chats_due_at(&records, at(0, 8)), Vec::<ChatId>::new());
    assert_eq!(chats_due_at(&Vec::new(), at(8, 0)), Vec::<ChatId>::new());
}

#[test]
fn snapshot_loop_saves_until_shutdown() {
    let mut save = SaveLoop::new();
    assert_eq!(save.first_step(), SaveStep::Snapshot { pause_seconds: 30 });
    assert_eq!(save.after_pause(false), SaveStep::Snapshot { pause_seconds: 30 });
    assert_eq!(save.after_pause(false), SaveStep::Snapshot { pause_seconds: 30 });
    assert_eq!(save.after_pause(true), SaveStep::FinalSnapshot);
    assert_eq!(save.after_pause(true), SaveStep::Stopped);
    assert_eq!(save.after_pause(false), SaveStep::Stopped);
    assert_eq!(save.first_step(), SaveStep::Stopped);
}

#[test]
fn snapshot_loop_saves_once_before_an_early_shutdown() {
    let mut save = SaveLoop::new();
    assert_eq!(save.first_step(), SaveStep::Snapshot { pause_seconds: 30 });
    assert_eq!(save.after_pause(true), SaveStep::FinalSnapshot);
}

#[test]
fn snapshot_path() {
    assert_eq!(user_state_env(), "TELOXIDE_USERSTATEFILE");
    assert_eq!(user_state_file_path(None), "userdata/userstates.json");
    assert_eq!(user_state_file_path(Some("/tmp/states.json".to_string())), "/tmp/states.json");
    assert_eq!(user_state_file_path(Some(String::new())), "");
}
