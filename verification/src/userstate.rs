//! The preferences of each chat and the store that holds them.
//!
//! The store is a plain value. A lookup borrows it, a change borrows it
//! exclusively, so no operation sees a record half written and no two
//! changes run at once. Whoever shares a store between tasks puts it behind
//! one lock and holds that lock for the length of each call.

use crate::clock::ClockTime;
use crate::localize::Language;
use vstd::prelude::*;

verus! {

/// The number by which a chat is known.
#[derive(Clone, Copy, Debug, PartialEq, Eq, Hash, Structural)]
pub struct ChatId(pub i64);

/// What one chat has chosen: its language and the time of its daily reminder.
#[derive(Clone, Copy, Debug, PartialEq, Eq)]
pub struct UserState {
    pub chat_id: ChatId,
    pub language: Language,
    /// The time of day of the daily reminder; `None` where none is wanted.
    pub timer: Option<ClockTime>,
}

/// The record of a chat that has chosen nothing yet: English, no reminder.
pub open spec fn default_state(chat_id: ChatId) -> UserState {
    UserState { chat_id, language: Language::English, timer: None }
}

impl UserState {
    /// The record of a chat that has chosen nothing yet.
    pub fn new(chat_id: ChatId) -> (state: UserState)
        ensures
            state == default_state(chat_id),
    {
        UserState { chat_id, language: Language::English, timer: None }
    }
}

/// Whether `records` holds a record of `chat_id`.
pub open spec fn has_chat(records: Seq<UserState>, chat_id: ChatId) -> bool {
    exists|i: int| 0 <= i < records.len() && (#[trigger] records[i]).chat_id == chat_id
}

/// Whether no two records of `records` belong to the same chat.
pub open spec fn distinct_chats(records: Seq<UserState>) -> bool {
    forall|i: int, j: int|
        0 <= i < j < records.len() ==> (#[trigger] records[i]).chat_id != (
        #[trigger] records[j]).chat_id
}

/// The place of the first record of `chat_id` in `records`, and the length of
/// `records` where there is none.
pub open spec fn position_of(records: Seq<UserState>, chat_id: ChatId) -> int
    decreases records.len(),
{
    if records.len() == 0 {
        0
    } else if records[0].chat_id == chat_id {
        0
    } else {
        1 + position_of(records.drop_first(), chat_id)
    }
}

/// The record of `chat_id` in `records`, and the default record where there
/// is none.
pub open spec fn record_of(records: Seq<UserState>, chat_id: ChatId) -> UserState {
    if has_chat(records, chat_id) {
        records[position_of(records, chat_id)]
    } else {
        default_state(chat_id)
    }
}

/// `records` after `state` was written to it: in the place of the record of
/// the same chat where there is one, else at the end.
pub open spec fn upserted(records: Seq<UserState>, state: UserState) -> Seq<UserState> {
    if has_chat(records, state.chat_id) {
        records.update(position_of(records, state.chat_id), state)
    } else {
        records.push(state)
    }
}

/// The records as a table: for each chat that has a record, its record.
pub open spec fn records_by_chat(records: Seq<UserState>) -> Map<ChatId, UserState> {
    Map::new(
        |chat_id: ChatId| has_chat(records, chat_id),
        |chat_id: ChatId| record_of(records, chat_id),
    )
}

/// How many records of `records` belong to `chat_id`.
pub open spec fn count_of(records: Seq<UserState>, chat_id: ChatId) -> nat
    decreases records.len(),
{
    if records.len() == 0 {
        0
    } else {
        count_of(records.drop_last(), chat_id) + if records.last().chat_id == chat_id {
            1nat
        } else {
            0nat
        }
    }
}

/// `records` after each record of `writes` was written to it, in order.
pub open spec fn after_writes(records: Seq<UserState>, writes: Seq<UserState>) -> Seq<UserState>
    decreases writes.len(),
{
    if writes.len() == 0 {
        records
    } else {
        upserted(after_writes(records, writes.drop_last()), writes.last())
    }
}

/// The chat of the first record of `records` that belongs to the same chat
/// as a record before it, or `None` where there is no such record.
pub open spec fn first_repeated_chat(records: Seq<UserState>) -> Option<ChatId>
    decreases records.len(),
{
    if records.len() == 0 {
        None
    } else {
        match first_repeated_chat(records.drop_last()) {
            Some(chat_id) => Some(chat_id),
            None => if has_chat(records.drop_last(), records.last().chat_id) {
                Some(records.last().chat_id)
            } else {
                None
            },
        }
    }
}

/// The records that reading and decoding a snapshot gave, where it gave any.
pub open spec fn snapshot_records<E>(loaded: Result<Vec<UserState>, E>) -> Option<Seq<UserState>> {
    match loaded {
        Ok(records) => Some(records@),
        Err(_) => None,
    }
}

/// What a store answers when it is asked to take a snapshot over: the
/// failure of reading or decoding where there was one, the first repeated
/// chat where the snapshot holds two records of one chat, else success.
pub open spec fn load_outcome<E>(loaded: Result<Vec<UserState>, E>) -> Result<(), LoadError<E>> {
    match loaded {
        Ok(records) => match first_repeated_chat(records@) {
            Some(chat_id) => Err(LoadError::DuplicateChat(chat_id)),
            None => Ok(()),
        },
        Err(failure) => Err(LoadError::Source(failure)),
    }
}

/// The records of a store that held `before` and was then asked to take a
/// snapshot over: the records of the snapshot where it has any and no two of
/// them belong to one chat, else `before`.
pub open spec fn restored(before: Seq<UserState>, snapshot: Option<Seq<UserState>>) -> Seq<
    UserState,
> {
    match snapshot {
        Some(records) => if distinct_chats(records) {
            records
        } else {
            before
        },
        None => before,
    }
}

/// Why a snapshot was not taken over by a store.
#[derive(Debug, PartialEq, Eq)]
pub enum LoadError<E> {
    /// The snapshot could not be read or decoded; it holds the failure.
    Source(E),
    /// The snapshot holds two records of this chat.
    DuplicateChat(ChatId),
}

/// The store of the records of all chats, at most one for each chat.
#[derive(Debug)]
pub struct UserStateWrapper {
    user_states: Vec<UserState>,
}

impl View for UserStateWrapper {
    type V = Seq<UserState>;

    /// The records of the store, in order. A record that is written over
    /// keeps its place, a record of a new chat goes to the end.
    closed spec fn view(&self) -> Seq<UserState> {
        self.user_states@
    }
}

impl UserStateWrapper {
    #[verifier::type_invariant]
    spec fn one_record_for_each_chat(self) -> bool {
        distinct_chats(self.user_states@)
    }

    /// A store without records.
    pub fn new() -> (store: UserStateWrapper)
        ensures
            store@ == Seq::<UserState>::empty(),
    {
        UserStateWrapper { user_states: Vec::new() }
    }

    /// The records of the store. No two of them belong to the same chat.
    pub fn user_states(&self) -> (records: &Vec<UserState>)
        ensures
            records@ == self@,
            distinct_chats(self@),
    {
        proof {
            use_type_invariant(self);
        }
        &self.user_states
    }

    /// Whether the store holds a record of `chat_id`.
    pub fn user_state_exists(&self, chat_id: ChatId) -> (found: bool)
        ensures
            found == has_chat(self@, chat_id),
    {
        first_index(&self.user_states, chat_id) < self.user_states.len()
    }

    /// The record of `chat_id`, and the default record, English without a
    /// reminder, where the store holds none. The store is left as it is.
    pub fn find_userstate(&self, chat_id: ChatId) -> (state: UserState)
        ensures
            state == record_of(self@, chat_id),
            state.chat_id == chat_id,
    {
        let index = first_index(&self.user_states, chat_id);
        if index < self.user_states.len() {
            self.user_states[index]
        } else {
            UserState::new(chat_id)
        }
    }

    /// Writes `user_state` to the store: over the record of the same chat
    /// where there is one, which keeps its place, else behind the last
    /// record. Says whether there was such a record.
    pub fn update_userstate(&mut self, user_state: UserState) -> (updated: bool)
        ensures
            updated == has_chat(old(self)@, user_state.chat_id),
            final(self)@ == upserted(old(self)@, user_state),
    {
        proof {
            use_type_invariant(&*self);
            lemma_upserted_distinct(self@, user_state);
        }
        let mut records: Vec<UserState> = Vec::new();
        core::mem::swap(&mut self.user_states, &mut records);
        let index = first_index(&records, user_state.chat_id);
        let updated = index < records.len();
        if updated {
            records.set(index, user_state);
        } else {
            records.push(user_state);
        }
        self.user_states = records;
        updated
    }

    /// Takes a snapshot over, or keeps what the store holds.
    ///
    /// `loaded` is what reading and decoding the snapshot gave. Where that
    /// failed, and where the snapshot holds two records of one chat, the
    /// store is left as it is and the failure is returned. Else the records
    /// of the snapshot take the place of all records of the store.
    pub fn load_states_from_file<E>(&mut self, loaded: Result<Vec<UserState>, E>) -> (outcome: Result<
        (),
        LoadError<E>,
    >)
        ensures
            outcome == load_outcome(loaded),
            final(self)@ == restored(old(self)@, snapshot_records(loaded)),
    {
        match loaded {
            Ok(records) => match find_duplicate_chat(&records) {
                None => {
                    self.user_states = records;
                    Ok(())
                },
                Some(chat_id) => Err(LoadError::DuplicateChat(chat_id)),
            },
            Err(failure) => Err(LoadError::Source(failure)),
        }
    }
}

/// The place of the first record of `chat_id` in `records`, and the length
/// of `records` where there is none.
fn first_index(records: &Vec<UserState>, chat_id: ChatId) -> (index: usize)
    ensures
        index == position_of(records@, chat_id),
        index <= records.len(),
        index < records.len() <==> has_chat(records@, chat_id),
        index < records.len() ==> records[index as int].chat_id == chat_id,
{
    let mut i: usize = 0;
    while i < records.len()
        invariant
            i <= records.len(),
            forall|k: int| 0 <= k < i ==> (#[trigger] records[k]).chat_id != chat_id,
        decreases records.len() - i,
    {
        if records[i].chat_id == chat_id {
            proof {
                lemma_position_of(records@, chat_id);
            }
            return i;
        }
        i += 1;
    }
    proof {
        lemma_position_of(records@, chat_id);
    }
    i
}

/// The chat of the first record of `records` that belongs to the same chat
/// as a record before it, or `None` where no two records share a chat.
pub fn find_duplicate_chat(records: &Vec<UserState>) -> (found: Option<ChatId>)
    ensures
        found == first_repeated_chat(records@),
        found is None <==> distinct_chats(records@),
{
    proof {
        lemma_first_repeated_chat(records@);
    }
    let mut j: usize = 0;
    while j < records.len()
        invariant
            j <= records.len(),
            first_repeated_chat(records@.take(j as int)) is None,
        decreases records.len() - j,
    {
        let ghost next = records@.take(j + 1);
        assert(next.drop_last() == records@.take(j as int));
        let mut i: usize = 0;
        while i < j
            invariant
                i <= j < records.len(),
                next == records@.take(j + 1),
                next.drop_last() == records@.take(j as int),
                first_repeated_chat(records@.take(j as int)) is None,
                forall|k: int| 0 <= k < i ==> (#[trigger] records[k]).chat_id != records[j as int].chat_id,
            decreases j - i,
        {
            if records[i].chat_id == records[j].chat_id {
                proof {
                    assert(next.drop_last()[i as int].chat_id == next.last().chat_id);
                    lemma_first_repeated_chat_of_prefix(records@, j + 1);
                }
                return Some(records[j].chat_id);
            }
            i += 1;
        }
        proof {
            if has_chat(next.drop_last(), next.last().chat_id) {
                let k = choose|k: int|
                    0 <= k < next.drop_last().len() && (#[trigger] next.drop_last()[k]).chat_id
                        == next.last().chat_id;
                assert(records[k].chat_id != records[j as int].chat_id);
            }
        }
        j += 1;
    }
    assert(records@.take(records.len() as int) == records@);
    None
}

/// The place that `position_of` gives is in range exactly where the chat has
/// a record; it then holds a record of the chat, and no earlier place does.
pub proof fn lemma_position_of(records: Seq<UserState>, chat_id: ChatId)
    ensures
        0 <= position_of(records, chat_id) <= records.len(),
        has_chat(records, chat_id) <==> position_of(records, chat_id) < records.len(),
        has_chat(records, chat_id) ==> records[position_of(records, chat_id)].chat_id == chat_id,
        forall|i: int|
            0 <= i < position_of(records, chat_id) ==> (#[trigger] records[i]).chat_id != chat_id,
    decreases records.len(),
{
    if records.len() == 0 {
    } else if records[0].chat_id == chat_id {
    } else {
        let rest = records.drop_first();
        lemma_position_of(rest, chat_id);
        let p = position_of(rest, chat_id);
        if has_chat(records, chat_id) {
            let i = choose|i: int| 0 <= i < records.len() && (#[trigger] records[i]).chat_id == chat_id;
            assert(rest[i - 1].chat_id == chat_id);
        }
        if has_chat(rest, chat_id) {
            let i = choose|i: int| 0 <= i < rest.len() && (#[trigger] rest[i]).chat_id == chat_id;
            assert(records[i + 1].chat_id == chat_id);
        }
        assert forall|i: int| 0 <= i < 1 + p implies (#[trigger] records[i]).chat_id != chat_id by {
            if i > 0 {
                assert(rest[i - 1].chat_id != chat_id);
            }
        }
    }
}

/// Where no two records share a chat, the record of a chat is the one record
/// that belongs to it.
pub proof fn lemma_record_of(records: Seq<UserState>, i: int)
    requires
        distinct_chats(records),
        0 <= i < records.len(),
    ensures
        has_chat(records, records[i].chat_id),
        position_of(records, records[i].chat_id) == i,
        record_of(records, records[i].chat_id) == records[i],
{
    let chat_id = records[i].chat_id;
    lemma_position_of(records, chat_id);
    let p = position_of(records, chat_id);
    if p < i {
        assert(records[p].chat_id != records[i].chat_id);
    }
}

/// Writing a record keeps the records of different chats apart.
pub proof fn lemma_upserted_distinct(records: Seq<UserState>, state: UserState)
    requires
        distinct_chats(records),
    ensures
        distinct_chats(upserted(records, state)),
{
    lemma_position_of(records, state.chat_id);
    let after = upserted(records, state);
    let p = position_of(records, state.chat_id);
    assert forall|i: int, j: int| 0 <= i < j < after.len() implies (#[trigger] after[i]).chat_id != (
    #[trigger] after[j]).chat_id by {
        if has_chat(records, state.chat_id) {
            assert(after[i].chat_id == records[i].chat_id);
            assert(after[j].chat_id == records[j].chat_id);
        } else {
            if j < records.len() {
                assert(after[i] == records[i] && after[j] == records[j]);
            } else {
                assert(after[i] == records[i]);
            }
        }
    }
}

/// Writing a record changes nothing for the other chats: whether they have a
/// record, and which.
pub proof fn lemma_write_leaves_other_chats(
    records: Seq<UserState>,
    state: UserState,
    chat_id: ChatId,
)
    requires
        state.chat_id != chat_id,
    ensures
        has_chat(upserted(records, state), chat_id) == has_chat(records, chat_id),
        record_of(upserted(records, state), chat_id) == record_of(records, chat_id),
{
    let after = upserted(records, state);
    lemma_position_of(records, state.chat_id);
    lemma_position_of(records, chat_id);
    lemma_position_of(after, chat_id);
    let p = position_of(records, chat_id);
    let q = position_of(after, chat_id);
    if has_chat(records, chat_id) {
        assert(after[p] == records[p]);
        assert(has_chat(after, chat_id));
        if q < p {
            assert(records[q].chat_id != chat_id);
            assert(after[q].chat_id == state.chat_id || after[q] == records[q]);
        }
        if p < q {
            assert(after[p].chat_id != chat_id);
        }
    } else if has_chat(after, chat_id) {
        if q < records.len() {
            assert(records[q].chat_id != chat_id);
        }
    }
}

/// A chat that was never written to has no record, and a lookup gives its
/// default record: the store starts empty, and `writes` are the records
/// written to it since, none of them for `chat_id`.
pub proof fn lemma_unwritten_chat_has_default(writes: Seq<UserState>, chat_id: ChatId)
    requires
        forall|k: int| 0 <= k < writes.len() ==> (#[trigger] writes[k]).chat_id != chat_id,
    ensures
        !has_chat(after_writes(Seq::empty(), writes), chat_id),
        record_of(after_writes(Seq::empty(), writes), chat_id) == default_state(chat_id),
    decreases writes.len(),
{
    if writes.len() > 0 {
        let earlier = writes.drop_last();
        assert forall|k: int| 0 <= k < earlier.len() implies (#[trigger] earlier[k]).chat_id
            != chat_id by {
            assert(earlier[k] == writes[k]);
        }
        lemma_unwritten_chat_has_default(earlier, chat_id);
        lemma_write_leaves_other_chats(
            after_writes(Seq::empty(), earlier),
            writes.last(),
            chat_id,
        );
    }
}

/// A lookup that follows a write for the same chat gives the record that was
/// written.
pub proof fn lemma_write_then_find(records: Seq<UserState>, state: UserState)
    ensures
        has_chat(upserted(records, state), state.chat_id),
        record_of(upserted(records, state), state.chat_id) == state,
{
    let after = upserted(records, state);
    lemma_position_of(records, state.chat_id);
    let p = position_of(records, state.chat_id);
    assert(after[p] == state);
    lemma_position_of(after, state.chat_id);
    let q = position_of(after, state.chat_id);
    if q < p {
        assert(after[q] == records[q]);
    }
}

/// Seen as a table from chats to records, a write is an insertion: the
/// chat of the written record gets that record, every other chat keeps
/// what it had.
pub proof fn lemma_write_is_insert(records: Seq<UserState>, state: UserState)
    ensures
        records_by_chat(upserted(records, state)) == records_by_chat(records).insert(
            state.chat_id,
            state,
        ),
{
    let after = records_by_chat(upserted(records, state));
    let inserted = records_by_chat(records).insert(state.chat_id, state);
    lemma_write_then_find(records, state);
    assert forall|chat_id: ChatId| #[trigger]
        after.contains_key(chat_id) == inserted.contains_key(chat_id) by {
        if chat_id != state.chat_id {
            lemma_write_leaves_other_chats(records, state, chat_id);
        }
    }
    assert forall|chat_id: ChatId| after.contains_key(chat_id) implies #[trigger] after[chat_id]
        == inserted[chat_id] by {
        if chat_id != state.chat_id {
            lemma_write_leaves_other_chats(records, state, chat_id);
        }
    }
    assert(after =~= inserted);
}

/// A chat with a record has at least one record.
pub proof fn lemma_count_of_one(records: Seq<UserState>, chat_id: ChatId, i: int)
    requires
        0 <= i < records.len(),
        records[i].chat_id == chat_id,
    ensures
        count_of(records, chat_id) >= 1,
    decreases records.len(),
{
    if i < records.len() - 1 {
        lemma_count_of_one(records.drop_last(), chat_id, i);
    }
}

/// A chat without a record has no records.
pub proof fn lemma_count_of_absent(records: Seq<UserState>, chat_id: ChatId)
    ensures
        !has_chat(records, chat_id) ==> count_of(records, chat_id) == 0,
    decreases records.len(),
{
    if records.len() > 0 && !has_chat(records, chat_id) {
        let front = records.drop_last();
        assert(records[records.len() - 1].chat_id != chat_id);
        if has_chat(front, chat_id) {
            let i = choose|i: int| 0 <= i < front.len() && (#[trigger] front[i]).chat_id == chat_id;
            assert(records[i].chat_id == chat_id);
        }
        lemma_count_of_absent(front, chat_id);
    }
}

/// Writing over a record of the same chat changes no count.
pub proof fn lemma_count_of_update(
    records: Seq<UserState>,
    place: int,
    state: UserState,
    chat_id: ChatId,
)
    requires
        0 <= place < records.len(),
        records[place].chat_id == state.chat_id,
    ensures
        count_of(records.update(place, state), chat_id) == count_of(records, chat_id),
    decreases records.len(),
{
    let after = records.update(place, state);
    if place == records.len() - 1 {
        assert(after.drop_last() == records.drop_last());
    } else {
        assert(after.drop_last() == records.drop_last().update(place, state));
        lemma_count_of_update(records.drop_last(), place, state, chat_id);
    }
}

/// How many records a chat has after a write: one where the write is the
/// first for that chat, and as many as before otherwise.
pub proof fn lemma_count_after_write(records: Seq<UserState>, state: UserState, chat_id: ChatId)
    ensures
        count_of(upserted(records, state), chat_id) == if state.chat_id == chat_id && !has_chat(
            records,
            chat_id,
        ) {
            count_of(records, chat_id) + 1
        } else {
            count_of(records, chat_id)
        },
        !has_chat(records, chat_id) ==> count_of(records, chat_id) == 0,
{
    lemma_position_of(records, state.chat_id);
    lemma_count_of_absent(records, chat_id);
    let after = upserted(records, state);
    if !has_chat(records, state.chat_id) {
        assert(after.drop_last() == records);
    } else {
        let p = position_of(records, state.chat_id);
        lemma_count_of_update(records, p, state, chat_id);
    }
}

/// The first write for a chat finds no record and the second finds one; after
/// both the chat has exactly one record, the second.
pub proof fn lemma_first_write_adds_second_replaces(
    records: Seq<UserState>,
    first: UserState,
    second: UserState,
)
    requires
        !has_chat(records, first.chat_id),
        second.chat_id == first.chat_id,
    ensures
        has_chat(upserted(records, first), second.chat_id),
        count_of(upserted(upserted(records, first), second), first.chat_id) == 1,
        record_of(upserted(upserted(records, first), second), first.chat_id) == second,
{
    let once = upserted(records, first);
    lemma_write_then_find(records, first);
    lemma_count_after_write(records, first, first.chat_id);
    lemma_count_after_write(once, second, first.chat_id);
    lemma_write_then_find(once, second);
}

/// No record repeats a chat exactly where no two records share a chat; and
/// a chat that is repeated has at least two records.
pub proof fn lemma_first_repeated_chat(records: Seq<UserState>)
    ensures
        first_repeated_chat(records) is None <==> distinct_chats(records),
        first_repeated_chat(records) matches Some(chat_id) ==> count_of(records, chat_id) >= 2,
    decreases records.len(),
{
    if records.len() > 0 {
        let front = records.drop_last();
        let last = records.last();
        lemma_first_repeated_chat(front);
        if distinct_chats(records) {
            assert forall|i: int, j: int| 0 <= i < j < front.len() implies (#[trigger] front[i]).chat_id
                != (#[trigger] front[j]).chat_id by {
                assert(records[i].chat_id != records[j].chat_id);
            }
            if has_chat(front, last.chat_id) {
                let i = choose|i: int|
                    0 <= i < front.len() && (#[trigger] front[i]).chat_id == last.chat_id;
                assert(records[i].chat_id != records[records.len() - 1].chat_id);
            }
        }
        match first_repeated_chat(front) {
            Some(chat_id) => {
                let (i, j) = choose|i: int, j: int|
                    0 <= i < j < front.len() && (#[trigger] front[i]).chat_id == (
                    #[trigger] front[j]).chat_id;
                assert(records[i].chat_id == records[j].chat_id);
            },
            None => {
                if has_chat(front, last.chat_id) {
                    let i = choose|i: int|
                        0 <= i < front.len() && (#[trigger] front[i]).chat_id == last.chat_id;
                    assert(records[i].chat_id == records[records.len() - 1].chat_id);
                    lemma_count_of_one(front, last.chat_id, i);
                } else {
                    assert forall|i: int, j: int| 0 <= i < j < records.len() implies (
                    #[trigger] records[i]).chat_id != (#[trigger] records[j]).chat_id by {
                        if j < front.len() {
                            assert(front[i].chat_id != front[j].chat_id);
                        } else {
                            assert(front[i].chat_id != last.chat_id);
                        }
                    }
                }
            },
        }
    }
}

/// A repeated chat that shows among the first records of a list is the
/// first repeated chat of the whole list.
pub proof fn lemma_first_repeated_chat_of_prefix(records: Seq<UserState>, length: int)
    requires
        0 <= length <= records.len(),
        first_repeated_chat(records.take(length)) is Some,
    ensures
        first_repeated_chat(records) == first_repeated_chat(records.take(length)),
    decreases records.len(),
{
    if length < records.len() {
        assert(records.drop_last().take(length) == records.take(length));
        lemma_first_repeated_chat_of_prefix(records.drop_last(), length);
    } else {
        assert(records.take(length) == records);
    }
}

/// A store that is asked to take over the records of another store does so,
/// and then holds the same records in the same order, whatever it held
/// before.
pub proof fn lemma_snapshot_round_trip(saved: Seq<UserState>, before: Seq<UserState>)
    requires
        distinct_chats(saved),
    ensures
        first_repeated_chat(saved) is None,
        restored(before, Some(saved)) == saved,
{
    lemma_first_repeated_chat(saved);
}

} // verus!
