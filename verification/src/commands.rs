//! What the bot answers to a command or to a pressed button, and what that
//! changes in the store.
//!
//! Nothing here sends anything. Each function says what is to be sent; the
//! owner of the connection to Telegram sends it.

use crate::biblereading::{BibleReading, BibleReadingNotFoundError};
use crate::clock::ClockTime;
use crate::localize::{
    biblereading_not_found_text, biblereading_text, error_timer_update_text, language_set_text,
    msg_biblereading, msg_biblereading_not_found, msg_error_timer_update, msg_language_set,
    msg_not_implemented_yet, msg_poll_text, msg_select_language, msg_timer_unset,
    msg_timer_updated, not_implemented_yet_text, poll_text, select_language_text,
    timer_unset_text, timer_updated_text, Language,
};
use crate::text::{lowercase, same_text, to_lowercase};
use crate::userstate::{has_chat, record_of, upserted, ChatId, UserState, UserStateWrapper};
use vstd::prelude::*;
use vstd::string::StringExecFns;

verus! {

/// How the text of a message is to be read.
#[derive(Clone, Copy, Debug, PartialEq, Eq, Structural)]
pub enum TextFormat {
    Plain,
    MarkdownV2,
}

/// A button below a message: what it shows and what it reports when pressed.
#[derive(Debug, Clone, PartialEq, Eq)]
pub struct Button {
    pub label: String,
    pub callback: String,
}

impl View for Button {
    type V = (Seq<char>, Seq<char>);

    open spec fn view(&self) -> (Seq<char>, Seq<char>) {
        (self.label@, self.callback@)
    }
}

/// A message to a chat: its text, how the text is to be read, and the
/// buttons below it, each in a row of its own.
#[derive(Debug, Clone, PartialEq, Eq)]
pub struct Reply {
    pub text: String,
    pub format: TextFormat,
    pub buttons: Vec<Button>,
}

/// What a `Reply` holds.
pub struct ReplyView {
    pub text: Seq<char>,
    pub format: TextFormat,
    pub buttons: Seq<(Seq<char>, Seq<char>)>,
}

impl View for Reply {
    type V = ReplyView;

    open spec fn view(&self) -> ReplyView {
        ReplyView {
            text: self.text@,
            format: self.format,
            buttons: Seq::new(self.buttons@.len(), |i: int| self.buttons@[i]@),
        }
    }
}

/// A message of plain text without buttons.
pub open spec fn plain_reply(text: Seq<char>) -> ReplyView {
    ReplyView { text, format: TextFormat::Plain, buttons: Seq::empty() }
}

/// A message in Markdown without buttons.
pub open spec fn markdown_reply(text: Seq<char>) -> ReplyView {
    ReplyView { text, format: TextFormat::MarkdownV2, buttons: Seq::empty() }
}

impl Reply {
    /// A message of plain text without buttons.
    pub fn plain(text: String) -> (reply: Reply)
        ensures
            reply@ == plain_reply(text@),
    {
        let reply = Reply { text, format: TextFormat::Plain, buttons: Vec::new() };
        assert(reply@.buttons =~= Seq::empty());
        reply
    }

    /// A message in Markdown without buttons.
    pub fn markdown(text: String) -> (reply: Reply)
        ensures
            reply@ == markdown_reply(text@),
    {
        let reply = Reply { text, format: TextFormat::MarkdownV2, buttons: Vec::new() };
        assert(reply@.buttons =~= Seq::empty());
        reply
    }
}

/// The language that a code stands for: `de` for German, `en` for English.
pub open spec fn language_of_code(code: Seq<char>) -> Option<Language> {
    if code == "de"@ {
        Some(Language::German)
    } else if code == "en"@ {
        Some(Language::English)
    } else {
        None
    }
}

/// The language that a code stands for; capitals are not accepted here.
pub fn parse_language_code(code: &str) -> (language: Option<Language>)
    ensures
        language == language_of_code(code@),
{
    if same_text(code, "de") {
        Some(Language::German)
    } else if same_text(code, "en") {
        Some(Language::English)
    } else {
        None
    }
}

/// The buttons that offer the languages.
pub open spec fn language_buttons() -> Seq<(Seq<char>, Seq<char>)> {
    seq![("English"@, "English"@), ("Deutsch"@, "German"@)]
}

/// What a chat's choice of a language does: a code that stands for a
/// language sets it in the record of the chat and is confirmed in that
/// language; any other text changes nothing and is answered, in the language
/// of the chat, with the buttons that offer the languages.
pub open spec fn language_choice(records: Seq<UserState>, chat_id: ChatId, code: Seq<char>) -> (
    Seq<UserState>,
    ReplyView,
) {
    let state = record_of(records, chat_id);
    match language_of_code(code) {
        Some(language) => (
            upserted(records, UserState { chat_id, language, timer: state.timer }),
            plain_reply(language_set_text(language)),
        ),
        None => (
            records,
            ReplyView {
                text: select_language_text(state.language),
                format: TextFormat::Plain,
                buttons: language_buttons(),
            },
        ),
    }
}

/// Sets the language of a chat from a code in lower case, or offers the
/// languages where the code stands for none.
pub fn set_language_code(store: &mut UserStateWrapper, chat_id: ChatId, code: &str) -> (reply: Reply)
    ensures
        (final(store)@, reply@) == language_choice(old(store)@, chat_id, code@),
{
    let mut user_state = store.find_userstate(chat_id);
    match parse_language_code(code) {
        Some(language) => {
            user_state.language = language;
            store.update_userstate(user_state);
            Reply::plain(msg_language_set(&language))
        },
        None => {
            let mut buttons: Vec<Button> = Vec::new();
            buttons.push(
                Button { label: String::from_str("English"), callback: String::from_str("English") },
            );
            buttons.push(
                Button { label: String::from_str("Deutsch"), callback: String::from_str("German") },
            );
            let reply = Reply {
                text: msg_select_language(&user_state.language),
                format: TextFormat::Plain,
                buttons,
            };
            assert(reply@.buttons =~= language_buttons());
            reply
        },
    }
}

/// Sets the language of a chat from what its user wrote, capitals or not, or
/// offers the languages where that stands for none.
pub fn set_language(store: &mut UserStateWrapper, chat_id: ChatId, lang_str: &str) -> (reply: Reply)
    ensures
        (final(store)@, reply@) == language_choice(old(store)@, chat_id, lowercase(lang_str@)),
{
    let code = to_lowercase(lang_str);
    set_language_code(store, chat_id, code.as_str())
}

/// What a chat's choice of a reminder time does: a time sets the reminder in
/// the record of the chat and is confirmed; no time changes nothing and is
/// answered with a hint at the form of a time. Both in the language of the
/// chat.
pub open spec fn timer_choice(records: Seq<UserState>, chat_id: ChatId, time: Option<ClockTime>) -> (
    Seq<UserState>,
    ReplyView,
) {
    let state = record_of(records, chat_id);
    match time {
        Some(chosen) => (
            upserted(records, UserState { chat_id, language: state.language, timer: Some(chosen) }),
            plain_reply(timer_updated_text(state.language, chosen)),
        ),
        None => (records, plain_reply(error_timer_update_text(state.language))),
    }
}

/// Sets the daily reminder of a chat to `time`; `None` stands for a time
/// that could not be read.
pub fn set_timer(store: &mut UserStateWrapper, chat_id: ChatId, time: Option<ClockTime>) -> (reply:
    Reply)
    ensures
        (final(store)@, reply@) == timer_choice(old(store)@, chat_id, time),
{
    let mut user_state = store.find_userstate(chat_id);
    match time {
        Some(chosen) => {
            user_state.timer = Some(chosen);
            store.update_userstate(user_state);
            Reply::plain(msg_timer_updated(&user_state.language, &chosen))
        },
        None => Reply::plain(msg_error_timer_update(&user_state.language)),
    }
}

/// Sets the daily reminder of a chat to the time that its user wrote in the
/// form `hour:minute`.
pub fn bot_set_timer(store: &mut UserStateWrapper, chat_id: ChatId, timer_string: &str) -> (reply:
    Reply)
    ensures
        (final(store)@, reply@) == timer_choice(
            old(store)@,
            chat_id,
            ClockTime::from_text(timer_string@),
        ),
{
    set_timer(store, chat_id, ClockTime::parse(timer_string))
}

/// What switching the reminder of a chat off does.
pub open spec fn timer_removal(records: Seq<UserState>, chat_id: ChatId) -> (
    Seq<UserState>,
    ReplyView,
) {
    let state = record_of(records, chat_id);
    (
        upserted(records, UserState { chat_id, language: state.language, timer: None }),
        plain_reply(timer_unset_text(state.language)),
    )
}

/// Switches the daily reminder of a chat off.
pub fn bot_unset_timer(store: &mut UserStateWrapper, chat_id: ChatId) -> (reply: Reply)
    ensures
        (final(store)@, reply@) == timer_removal(old(store)@, chat_id),
{
    let mut user_state = store.find_userstate(chat_id);
    user_state.timer = None;
    store.update_userstate(user_state);
    Reply::plain(msg_timer_unset(&user_state.language))
}

/// The record of a chat as it is saved, or `None` where nothing is saved of
/// the chat.
pub open spec fn saved_record(records: Seq<UserState>, chat_id: ChatId) -> Option<UserState> {
    if has_chat(records, chat_id) {
        Some(record_of(records, chat_id))
    } else {
        None
    }
}

/// The record that is shown to a chat that asks what is saved of it, or
/// `None` where nothing is saved.
pub fn user_information(store: &UserStateWrapper, chat_id: ChatId) -> (record: Option<UserState>)
    ensures
        record == saved_record(store@, chat_id),
{
    if store.user_state_exists(chat_id) {
        Some(store.find_userstate(chat_id))
    } else {
        None
    }
}

/// The answer to a chat that asks what is saved of it. `record` is the saved
/// record as text, or `None` where nothing is saved.
pub open spec fn user_information_reply(record: Option<Seq<char>>) -> ReplyView {
    match record {
        Some(text) => markdown_reply(
            "The following data about you is saved on the server: \n\n```"@ + text + "```"@,
        ),
        None => plain_reply("There is currently no data saved on the server concerning you."@),
    }
}

/// The text in an optional string.
pub open spec fn optional_text(text: Option<&str>) -> Option<Seq<char>> {
    match text {
        Some(held) => Some(held@),
        None => None,
    }
}

/// The answer, always in English, to a chat that asks what is saved of it.
/// `record` is the saved record as text, or `None` where nothing is saved.
pub fn send_user_information(record: Option<&str>) -> (reply: Reply)
    ensures
        reply@ == user_information_reply(optional_text(record)),
{
    match record {
        Some(text) => {
            let mut message = String::from_str(
                "The following data about you is saved on the server: \n\n```",
            );
            message.append(text);
            message.append("```");
            Reply::markdown(message)
        },
        None => Reply::plain(
            String::from_str("There is currently no data saved on the server concerning you."),
        ),
    }
}

/// A daily reminder: the message, and the poll that follows it.
#[derive(Debug, Clone, PartialEq, Eq)]
pub struct DailyReminder {
    pub message: Reply,
    pub poll_question: String,
    pub poll_options: Vec<String>,
    /// Whether the poll hides who gave which answer.
    pub poll_is_anonymous: bool,
}

/// What a `DailyReminder` holds.
pub struct DailyReminderView {
    pub message: ReplyView,
    pub poll_question: Seq<char>,
    pub poll_options: Seq<Seq<char>>,
    pub poll_is_anonymous: bool,
}

impl View for DailyReminder {
    type V = DailyReminderView;

    open spec fn view(&self) -> DailyReminderView {
        DailyReminderView {
            message: self.message@,
            poll_question: self.poll_question@,
            poll_options: self.poll_options.deep_view(),
            poll_is_anonymous: self.poll_is_anonymous,
        }
    }
}

/// The reminder for a chat that reads `lang`: the passages of the day in
/// Markdown where the lookup gave them, else a plain reminder without
/// passages; then the poll, with its two answers, which shows who answered.
pub open spec fn daily_reminder(
    lang: Language,
    lookup: Result<BibleReading, BibleReadingNotFoundError>,
) -> DailyReminderView {
    DailyReminderView {
        message: match lookup {
            Ok(reading) => markdown_reply(
                biblereading_text(
                    lang,
                    reading.old_testament_reading@,
                    reading.new_testament_reading@,
                ),
            ),
            Err(_) => plain_reply(biblereading_not_found_text(lang)),
        },
        poll_question: poll_text(lang)[0],
        poll_options: seq![poll_text(lang)[1], poll_text(lang)[2]],
        poll_is_anonymous: false,
    }
}

/// The daily reminder for a chat, in the language of its record. `lookup` is
/// what the schedule gave for today, its passages as the chat is to see them.
pub fn send_daily_reminder(
    store: &UserStateWrapper,
    chat_id: ChatId,
    lookup: Result<BibleReading, BibleReadingNotFoundError>,
) -> (reminder: DailyReminder)
    ensures
        reminder@ == daily_reminder(record_of(store@, chat_id).language, lookup),
{
    let user_state = store.find_userstate(chat_id);
    let message = match lookup {
        Ok(todays_biblereading) => Reply::markdown(
            msg_biblereading(&user_state.language, todays_biblereading),
        ),
        Err(_) => Reply::plain(msg_biblereading_not_found(&user_state.language)),
    };
    let question_strings = msg_poll_text(&user_state.language);
    assert(question_strings.deep_view()[0] == question_strings@[0]@);
    assert(question_strings.deep_view()[1] == question_strings@[1]@);
    assert(question_strings.deep_view()[2] == question_strings@[2]@);
    let mut poll_options: Vec<String> = Vec::new();
    poll_options.push(question_strings[1].clone());
    poll_options.push(question_strings[2].clone());
    let reminder = DailyReminder {
        message,
        poll_question: question_strings[0].clone(),
        poll_options,
        poll_is_anonymous: false,
    };
    assert(reminder@.poll_options =~= seq![
        poll_text(user_state.language)[1],
        poll_text(user_state.language)[2],
    ]);
    reminder
}

/// The answer to a command that does nothing yet, in the language of the
/// chat.
pub fn send_not_implemented(store: &UserStateWrapper, chat_id: ChatId) -> (reply: Reply)
    ensures
        reply@ == plain_reply(not_implemented_yet_text(record_of(store@, chat_id).language)),
{
    let language = store.find_userstate(chat_id).language;
    Reply::plain(msg_not_implemented_yet(&language))
}

/// The commands that the bot understands.
#[derive(Debug, Clone)]
pub enum Command {
    /// Show the start message.
    Start,
    /// Send the daily reminder with the passages once.
    SendDailyReminder,
    /// Set the daily reminder to a time, written as `hour:minute`.
    SetTimer { timer_string: String },
    /// Switch the daily reminder off.
    UnsetTimer,
    /// Show the list of commands.
    Help,
    /// Show what is saved of the chat.
    UserInformation,
    /// Set the language.
    SetLang { lang_string: String },
}

/// What is to be done in answer to a command.
#[derive(Debug, Clone, PartialEq, Eq)]
pub enum Answer {
    /// Send this message.
    Send(Reply),
    /// Send the list of commands.
    Descriptions,
    /// Send the daily reminder.
    DailyReminder,
    /// Send what is saved of the chat.
    UserInformation,
}

/// What an `Answer` holds.
pub enum AnswerView {
    Send(ReplyView),
    Descriptions,
    DailyReminder,
    UserInformation,
}

impl View for Answer {
    type V = AnswerView;

    open spec fn view(&self) -> AnswerView {
        match *self {
            Answer::Send(reply) => AnswerView::Send(reply@),
            Answer::Descriptions => AnswerView::Descriptions,
            Answer::DailyReminder => AnswerView::DailyReminder,
            Answer::UserInformation => AnswerView::UserInformation,
        }
    }
}

/// The greeting of the bot.
pub open spec fn start_text() -> Seq<char> {
    "This bot helps you to read your Bible daily. Type /help for more information"@
}

/// What a command does to the records and what is to be done in answer.
pub open spec fn command_outcome(records: Seq<UserState>, chat_id: ChatId, cmd: Command) -> (
    Seq<UserState>,
    AnswerView,
) {
    match cmd {
        Command::Help => (records, AnswerView::Descriptions),
        Command::SendDailyReminder => (records, AnswerView::DailyReminder),
        Command::Start => (records, AnswerView::Send(plain_reply(start_text()))),
        Command::SetTimer { timer_string } => {
            let (after, reply) = timer_choice(records, chat_id, ClockTime::from_text(timer_string@));
            (after, AnswerView::Send(reply))
        },
        Command::UnsetTimer => {
            let (after, reply) = timer_removal(records, chat_id);
            (after, AnswerView::Send(reply))
        },
        Command::UserInformation => (records, AnswerView::UserInformation),
        Command::SetLang { lang_string } => {
            let (after, reply) = language_choice(records, chat_id, lowercase(lang_string@));
            (after, AnswerView::Send(reply))
        },
    }
}

/// Handles a command of a chat: changes the store where the command asks for
/// it and says what is to be done in answer.
pub fn answer(store: &mut UserStateWrapper, chat_id: ChatId, cmd: Command) -> (answer: Answer)
    ensures
        (final(store)@, answer@) == command_outcome(old(store)@, chat_id, cmd),
{
    match cmd {
        Command::Help => Answer::Descriptions,
        Command::SendDailyReminder => Answer::DailyReminder,
        Command::Start => Answer::Send(
            Reply::plain(
                String::from_str(
                    "This bot helps you to read your Bible daily. Type /help for more information",
                ),
            ),
        ),
        Command::SetTimer { timer_string } => Answer::Send(
            bot_set_timer(store, chat_id, timer_string.as_str()),
        ),
        Command::UnsetTimer => Answer::Send(bot_unset_timer(store, chat_id)),
        Command::UserInformation => Answer::UserInformation,
        Command::SetLang { lang_string } => Answer::Send(
            set_language(store, chat_id, lang_string.as_str()),
        ),
    }
}

/// What a pressed button does: `German` and `English` set that language and
/// are confirmed; any other report, and none, does nothing.
pub open spec fn button_outcome(
    records: Seq<UserState>,
    chat_id: ChatId,
    callback_data: Option<Seq<char>>,
) -> (Seq<UserState>, Option<ReplyView>) {
    match callback_data {
        Some(data) => if data == "German"@ {
            let (after, reply) = language_choice(records, chat_id, "de"@);
            (after, Some(reply))
        } else if data == "English"@ {
            let (after, reply) = language_choice(records, chat_id, "en"@);
            (after, Some(reply))
        } else {
            (records, None)
        },
        None => (records, None),
    }
}

/// Handles a pressed button of the chat `chat_id`; `callback_data` is what
/// the button reports.
pub fn answer_button(store: &mut UserStateWrapper, chat_id: ChatId, callback_data: Option<&str>) -> (
    reply: Option<Reply>)
    ensures
        (
            final(store)@,
            match reply {
                Some(message) => Some(message@),
                None => None,
            },
        ) == button_outcome(old(store)@, chat_id, optional_text(callback_data)),
{
    match callback_data {
        Some(callback_string) => {
            if same_text(callback_string, "German") {
                Some(set_language_code(store, chat_id, "de"))
            } else if same_text(callback_string, "English") {
                Some(set_language_code(store, chat_id, "en"))
            } else {
                None
            }
        },
        None => None,
    }
}

} // verus!
