//! The two loops that run beside the command handlers: the one that sends the
//! daily reminders and the one that writes snapshots of the store.
//!
//! Each loop is a small machine. Its owner asks it for the next step, does
//! what the step says (sends, writes, sleeps) and asks again. The machine
//! itself never waits for anything.

use crate::clock::ClockTime;
use crate::userstate::{
    distinct_chats, has_chat, lemma_record_of, record_of, ChatId, UserState, UserStateWrapper,
};
use vstd::prelude::*;
use vstd::string::StringExecFns;

verus! {

/// The seconds between two looks at the clock. A minute that is to be
/// noticed must not pass between two looks.
pub const TIMER_PAUSE_SECONDS: u64 = 5;

/// The seconds between two snapshots of the store.
pub const SAVE_PAUSE_SECONDS: u64 = 30;

/// The chats of `records` whose reminder is set to `now`, in the order of
/// their records.
pub open spec fn due_chats(records: Seq<UserState>, now: ClockTime) -> Seq<ChatId>
    decreases records.len(),
{
    if records.len() == 0 {
        Seq::empty()
    } else if records.last().timer == Some(now) {
        due_chats(records.drop_last(), now).push(records.last().chat_id)
    } else {
        due_chats(records.drop_last(), now)
    }
}

/// How often `chat_id` stands in `chats`.
pub open spec fn occurrences(chats: Seq<ChatId>, chat_id: ChatId) -> nat
    decreases chats.len(),
{
    if chats.len() == 0 {
        0
    } else {
        occurrences(chats.drop_last(), chat_id) + if chats.last() == chat_id {
            1nat
        } else {
            0nat
        }
    }
}

/// In one minute a chat gets one reminder where its reminder is set to that
/// minute, and none where it is set to another minute, where it is not set,
/// and where the chat has no record.
pub proof fn lemma_due_once(records: Seq<UserState>, now: ClockTime, chat_id: ChatId)
    requires
        distinct_chats(records),
    ensures
        occurrences(due_chats(records, now), chat_id) == if has_chat(records, chat_id) && record_of(
            records,
            chat_id,
        ).timer == Some(now) {
            1nat
        } else {
            0nat
        },
    decreases records.len(),
{
    if records.len() > 0 {
        let front = records.drop_last();
        let last = records.last();
        assert forall|i: int, j: int| 0 <= i < j < front.len() implies (#[trigger] front[i]).chat_id
            != (#[trigger] front[j]).chat_id by {
            assert(records[i].chat_id != records[j].chat_id);
        }
        lemma_due_once(front, now, chat_id);
        let due = due_chats(records, now);
        if last.timer == Some(now) {
            assert(due.drop_last() == due_chats(front, now));
            assert(due.last() == last.chat_id);
        }
        if has_chat(front, chat_id) {
            let i = choose|i: int| 0 <= i < front.len() && (#[trigger] front[i]).chat_id == chat_id;
            assert(records[i] == front[i]);
            lemma_record_of(front, i);
            lemma_record_of(records, i);
            assert(records[i].chat_id != last.chat_id);
        } else if last.chat_id == chat_id {
            lemma_record_of(records, records.len() - 1);
        } else if has_chat(records, chat_id) {
            let i = choose|i: int|
                0 <= i < records.len() && (#[trigger] records[i]).chat_id == chat_id;
            assert(front[i].chat_id == chat_id);
        }
    }
}

/// The chats whose reminder is set to `now`.
pub fn chats_due_at(records: &Vec<UserState>, now: ClockTime) -> (chats: Vec<ChatId>)
    ensures
        chats@ == due_chats(records@, now),
{
    let mut chats: Vec<ChatId> = Vec::new();
    let mut i: usize = 0;
    assert(records@.take(0) == Seq::<UserState>::empty());
    while i < records.len()
        invariant
            i <= records.len(),
            chats@ == due_chats(records@.take(i as int), now),
        decreases records.len() - i,
    {
        assert(records@.take(i + 1).drop_last() == records@.take(i as int));
        let due = match records[i].timer {
            Some(time) => time == now,
            None => false,
        };
        if due {
            chats.push(records[i].chat_id);
        }
        i += 1;
    }
    assert(records@.take(records.len() as int) == records@);
    chats
}

/// What the reminder loop does next.
#[derive(Debug, PartialEq, Eq)]
pub enum TimerStep {
    /// End the loop.
    Stop,
    /// Send a reminder to each of `chats`, without waiting for any of them
    /// and whatever becomes of the others, then sleep for `pause_seconds` and
    /// ask again.
    Remind { chats: Vec<ChatId>, pause_seconds: u64 },
}

/// The reminder loop: it remembers the minute that it handled last.
#[derive(Debug)]
pub struct TimerLoop {
    last_run: Option<ClockTime>,
}

impl TimerLoop {
    /// The minute that the loop handled last; `None` before the first.
    pub closed spec fn last_run(&self) -> Option<ClockTime> {
        self.last_run
    }

    /// A loop that has handled no minute yet.
    pub fn new() -> (timer: TimerLoop)
        ensures
            timer.last_run() == None::<ClockTime>,
    {
        TimerLoop { last_run: None }
    }

    /// The next step of the loop, at the local time `now`.
    ///
    /// Once shutdown is requested the loop stops. Else a minute that was not
    /// handled yet is handled now: every chat whose reminder is set to it is
    /// to get one. A minute that was handled already gives no reminders. In
    /// both cases `now` is remembered as handled.
    pub fn step(&mut self, shutdown_requested: bool, now: ClockTime, store: &UserStateWrapper) -> (step:
        TimerStep)
        ensures
            distinct_chats(store@),
            shutdown_requested ==> step is Stop && final(self).last_run() == old(self).last_run(),
            !shutdown_requested ==> final(self).last_run() == Some(now) && (
            step matches TimerStep::Remind { chats, pause_seconds } && pause_seconds
                == TIMER_PAUSE_SECONDS && pause_seconds < 60 && chats@ == if old(self).last_run()
                == Some(now) {
                Seq::<ChatId>::empty()
            } else {
                due_chats(store@, now)
            }),
    {
        let records = store.user_states();
        if shutdown_requested {
            return TimerStep::Stop;
        }
        let handled = match self.last_run {
            Some(last) => last == now,
            None => false,
        };
        let chats = if handled {
            Vec::new()
        } else {
            chats_due_at(records, now)
        };
        self.last_run = Some(now);
        TimerStep::Remind { chats, pause_seconds: TIMER_PAUSE_SECONDS }
    }
}

/// What the snapshot loop does next.
#[derive(Clone, Copy, Debug, PartialEq, Eq, Structural)]
pub enum SaveStep {
    /// Start writing a snapshot, do not wait for it, sleep for
    /// `pause_seconds` and ask again.
    Snapshot { pause_seconds: u64 },
    /// Write one last snapshot, wait until it is written, and end the loop.
    FinalSnapshot,
    /// The loop has ended.
    Stopped,
}

/// The snapshot loop.
#[derive(Debug)]
pub struct SaveLoop {
    finished: bool,
}

impl SaveLoop {
    /// Whether the loop has ended.
    pub closed spec fn finished(&self) -> bool {
        self.finished
    }

    /// A loop that has not ended. Its first step is `first_step`.
    pub fn new() -> (save: SaveLoop)
        ensures
            !save.finished(),
    {
        SaveLoop { finished: false }
    }

    /// The step with which the loop starts: a snapshot, whatever else is
    /// going on.
    pub fn first_step(&self) -> (step: SaveStep)
        ensures
            step == if self.finished() {
                SaveStep::Stopped
            } else {
                SaveStep::Snapshot { pause_seconds: SAVE_PAUSE_SECONDS }
            },
    {
        if self.finished {
            SaveStep::Stopped
        } else {
            SaveStep::Snapshot { pause_seconds: SAVE_PAUSE_SECONDS }
        }
    }

    /// The step after a pause. Where shutdown was requested meanwhile, one
    /// last snapshot is written and the loop ends; else the next snapshot is
    /// due.
    pub fn after_pause(&mut self, shutdown_requested: bool) -> (step: SaveStep)
        ensures
            final(self).finished() == (old(self).finished() || shutdown_requested),
            step == if old(self).finished() {
                SaveStep::Stopped
            } else if shutdown_requested {
                SaveStep::FinalSnapshot
            } else {
                SaveStep::Snapshot { pause_seconds: SAVE_PAUSE_SECONDS }
            },
    {
        if self.finished {
            SaveStep::Stopped
        } else if shutdown_requested {
            self.finished = true;
            SaveStep::FinalSnapshot
        } else {
            SaveStep::Snapshot { pause_seconds: SAVE_PAUSE_SECONDS }
        }
    }
}

/// The path of the snapshot file where none is configured.
pub open spec fn default_user_state_file_path() -> Seq<char> {
    "userdata/userstates.json"@
}

/// The name of the environment variable that configures the path of the
/// snapshot file.
pub fn user_state_env() -> (name: &'static str)
    ensures
        name@ == "TELOXIDE_USERSTATEFILE"@,
{
    "TELOXIDE_USERSTATEFILE"
}

/// The path of the snapshot file: the configured one where there is one,
/// else `userdata/userstates.json`.
pub fn user_state_file_path(configured: Option<String>) -> (path: String)
    ensures
        path@ == match configured {
            Some(chosen) => chosen@,
            None => default_user_state_file_path(),
        },
{
    match configured {
        Some(chosen) => chosen,
        None => String::from_str("userdata/userstates.json"),
    }
}

} // verus!
