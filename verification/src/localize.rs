//! The texts of the bot, in each supported language.

use crate::biblereading::BibleReading;
use crate::clock::{clock_text, ClockTime};
use vstd::prelude::*;
use vstd::string::StringExecFns;

verus! {

/// The languages in which the bot can answer.
#[derive(Clone, Copy, Debug, PartialEq, Eq, Structural)]
pub enum Language {
    English,
    German,
}

/// The code by which a language is known to a translator of Bible references.
pub open spec fn language_code_text(lang: Language) -> Seq<char> {
    match lang {
        Language::English => "en"@,
        Language::German => "de"@,
    }
}

/// The code by which a language is known to a translator of Bible references.
pub fn language_code(lang: &Language) -> (code: &'static str)
    ensures
        code@ == language_code_text(*lang),
{
    match lang {
        Language::English => "en",
        Language::German => "de",
    }
}

/// A Bible reference as a reader of a language sees it: the translation
/// where there is one, else the reference as it stands in the schedule.
pub open spec fn shown_reference(original_reference: Seq<char>, translation: Option<Seq<char>>) -> Seq<
    char,
> {
    match translation {
        Some(translated) => translated,
        None => original_reference,
    }
}

/// Picks what is shown for a Bible reference: `translation` is what a
/// translator made of `original_reference`, or `None` where it could make
/// nothing of it, and then the reference stays as it is.
pub fn translated_bible_reference(original_reference: &str, translation: Option<String>) -> (shown:
    String)
    ensures
        shown@ == shown_reference(original_reference@, translation_text(translation)),
{
    match translation {
        Some(translated) => translated,
        None => String::from_str(original_reference),
    }
}

/// The translation that a translator gave, as a sequence of characters.
pub open spec fn translation_text(translation: Option<String>) -> Option<Seq<char>> {
    match translation {
        Some(translated) => Some(translated@),
        None => None,
    }
}

/// A reading as a reader of a language sees it: each passage in its
/// translation, where there is one. The two translations are what a
/// translator made of the two passages of `biblereading`.
pub fn with_translations(
    biblereading: BibleReading,
    old_testament_translation: Option<String>,
    new_testament_translation: Option<String>,
) -> (shown: BibleReading)
    ensures
        shown.date == biblereading.date,
        shown.old_testament_reading@ == shown_reference(
            biblereading.old_testament_reading@,
            translation_text(old_testament_translation),
        ),
        shown.new_testament_reading@ == shown_reference(
            biblereading.new_testament_reading@,
            translation_text(new_testament_translation),
        ),
{
    BibleReading {
        date: biblereading.date,
        old_testament_reading: translated_bible_reference(
            biblereading.old_testament_reading.as_str(),
            old_testament_translation,
        ),
        new_testament_reading: translated_bible_reference(
            biblereading.new_testament_reading.as_str(),
            new_testament_translation,
        ),
    }
}

/// Whether a character stands for markup in the Markdown of Telegram.
pub open spec fn is_markup_char(c: char) -> bool {
    c == '_' || c == '*' || c == '[' || c == ']' || c == '(' || c == ')' || c == '~' || c == '`'
        || c == '>' || c == '#' || c == '+' || c == '-' || c == '=' || c == '|' || c == '{' || c
        == '}' || c == '.' || c == '!'
}

/// `text` with a backslash in front of each markup character.
pub open spec fn escaped(text: Seq<char>) -> Seq<char>
    decreases text.len(),
{
    if text.len() == 0 {
        Seq::empty()
    } else if is_markup_char(text.last()) {
        escaped(text.drop_last()).push('\\').push(text.last())
    } else {
        escaped(text.drop_last()).push(text.last())
    }
}

/// Calls `teloxide::utils::markdown::escape`.
///
/// Not verified. That function goes through the characters of `text` once
/// and writes a backslash in front of each of eighteen characters. The
/// contract claims exactly that: every markup character of `text` with a
/// backslash in front, all else as it was.
#[verifier::external_body]
fn escape(text: &str) -> (result: String)
    ensures
        result@ == escaped(text@),
{
    teloxide::utils::markdown::escape(text)
}

/// The reminder with the two passages of the day.
pub open spec fn biblereading_text(
    lang: Language,
    old_testament_reading: Seq<char>,
    new_testament_reading: Seq<char>,
) -> Seq<char> {
    match lang {
        Language::English => "*📖 This is a reminder to read the Bible today*: \n\nOT: "@ + escaped(
            old_testament_reading,
        ) + "\nNT: "@ + escaped(new_testament_reading),
        Language::German => "*📖 Dies ist eine Erinnerung, heute in der Bibel zu lesen*: \n\nAT: "@
            + escaped(old_testament_reading) + "\nNT: "@ + escaped(new_testament_reading),
    }
}

/// The reminder with the two passages of the day, in Markdown. The passages
/// are shown as `biblereading` holds them, with their markup characters
/// escaped.
pub fn msg_biblereading(lang: &Language, biblereading: BibleReading) -> (message: String)
    ensures
        message@ == biblereading_text(
            *lang,
            biblereading.old_testament_reading@,
            biblereading.new_testament_reading@,
        ),
{
    let old_testament = escape(biblereading.old_testament_reading.as_str());
    let new_testament = escape(biblereading.new_testament_reading.as_str());
    let mut message = match lang {
        Language::English => String::from_str(
            "*📖 This is a reminder to read the Bible today*: \n\nOT: ",
        ),
        Language::German => String::from_str(
            "*📖 Dies ist eine Erinnerung, heute in der Bibel zu lesen*: \n\nAT: ",
        ),
    };
    message.append(old_testament.as_str());
    message.append("\nNT: ");
    message.append(new_testament.as_str());
    message
}

/// The reminder for a day without a reading.
pub open spec fn biblereading_not_found_text(lang: Language) -> Seq<char> {
    match lang {
        Language::English => "This is a reminder to read your bible!"@,
        Language::German => "Dies ist eine Erinnerung, heute in der Bibel zu lesen."@,
    }
}

/// The reminder for a day without a reading.
pub fn msg_biblereading_not_found(lang: &Language) -> (message: String)
    ensures
        message@ == biblereading_not_found_text(*lang),
{
    match lang {
        Language::English => String::from_str("This is a reminder to read your bible!"),
        Language::German => String::from_str(
            "Dies ist eine Erinnerung, heute in der Bibel zu lesen.",
        ),
    }
}

/// The text that confirms a change of language.
pub open spec fn language_set_text(lang: Language) -> Seq<char> {
    match lang {
        Language::English => "Language set to English."@,
        Language::German => "Die Sprache wurde auf Deutsch umgestellt."@,
    }
}

/// The text that confirms a change of language.
pub fn msg_language_set(lang: &Language) -> (message: String)
    ensures
        message@ == language_set_text(*lang),
{
    match lang {
        Language::English => String::from_str("Language set to English."),
        Language::German => String::from_str("Die Sprache wurde auf Deutsch umgestellt."),
    }
}

/// The poll that follows a reminder: its question, then its two answers.
pub open spec fn poll_text(lang: Language) -> Seq<Seq<char>> {
    match lang {
        Language::English => seq!["Have you read the Bible today?"@, "Yes"@, "No"@],
        Language::German => seq!["Hast du heute in der Bibel gelesen?"@, "Ja"@, "Nein"@],
    }
}

/// The poll that follows a reminder: its question, then its two answers.
pub fn msg_poll_text(lang: &Language) -> (texts: Vec<String>)
    ensures
        texts.deep_view() == poll_text(*lang),
        texts.len() == 3,
{
    let mut texts: Vec<String> = Vec::new();
    match lang {
        Language::English => {
            texts.push(String::from_str("Have you read the Bible today?"));
            texts.push(String::from_str("Yes"));
            texts.push(String::from_str("No"));
        },
        Language::German => {
            texts.push(String::from_str("Hast du heute in der Bibel gelesen?"));
            texts.push(String::from_str("Ja"));
            texts.push(String::from_str("Nein"));
        },
    }
    assert(texts.deep_view() =~= poll_text(*lang));
    texts
}

/// The answer to a command that does nothing yet.
pub open spec fn not_implemented_yet_text(lang: Language) -> Seq<char> {
    match lang {
        Language::English => "This feature has not been implemented yet."@,
        Language::German => "Diese Funktion wurde noch nicht implementiert."@,
    }
}

/// The answer to a command that does nothing yet.
pub fn msg_not_implemented_yet(lang: &Language) -> (message: String)
    ensures
        message@ == not_implemented_yet_text(*lang),
{
    match lang {
        Language::English => String::from_str("This feature has not been implemented yet."),
        Language::German => String::from_str("Diese Funktion wurde noch nicht implementiert."),
    }
}

/// The text that asks which language to use.
pub open spec fn select_language_text(lang: Language) -> Seq<char> {
    match lang {
        Language::English => "Please choose which language you would like to set."@,
        Language::German => "Bitte wählen Sie die Sprache aus, die sie einstellen möchten."@,
    }
}

/// The text that asks which language to use.
pub fn msg_select_language(lang: &Language) -> (message: String)
    ensures
        message@ == select_language_text(*lang),
{
    match lang {
        Language::English => String::from_str(
            "Please choose which language you would like to set.",
        ),
        Language::German => String::from_str(
            "Bitte wählen Sie die Sprache aus, die sie einstellen möchten.",
        ),
    }
}

/// The text that confirms the time of the daily reminder.
pub open spec fn timer_updated_text(lang: Language, time: ClockTime) -> Seq<char> {
    match lang {
        Language::English => "The daily timer has been updated to "@ + clock_text(
            time.spec_hour(),
            time.spec_minute(),
        ) + "."@,
        Language::German => "Die tägliche Erinnerung wurde auf "@ + clock_text(
            time.spec_hour(),
            time.spec_minute(),
        ) + " gesetzt."@,
    }
}

/// The text that confirms the time of the daily reminder.
pub fn msg_timer_updated(lang: &Language, time: &ClockTime) -> (message: String)
    ensures
        message@ == timer_updated_text(*lang, *time),
{
    let time_text = time.to_string();
    match lang {
        Language::English => {
            let mut message = String::from_str("The daily timer has been updated to ");
            message.append(time_text.as_str());
            message.append(".");
            message
        },
        Language::German => {
            let mut message = String::from_str("Die tägliche Erinnerung wurde auf ");
            message.append(time_text.as_str());
            message.append(" gesetzt.");
            message
        },
    }
}

/// The text that confirms that there is no daily reminder any more.
pub open spec fn timer_unset_text(lang: Language) -> Seq<char> {
    match lang {
        Language::English => "The daily timer has been unset"@,
        Language::German => "Die tägliche Erinnerung wurde deaktiviert"@,
    }
}

/// The text that confirms that there is no daily reminder any more.
pub fn msg_timer_unset(lang: &Language) -> (message: String)
    ensures
        message@ == timer_unset_text(*lang),
{
    match lang {
        Language::English => String::from_str("The daily timer has been unset"),
        Language::German => String::from_str("Die tägliche Erinnerung wurde deaktiviert"),
    }
}

/// The answer to a time that could not be read.
pub open spec fn error_timer_update_text(lang: Language) -> Seq<char> {
    match lang {
        Language::English => "The format was not valid. Please use the function with a valid time (for example /settimer 08:00)."@,
        Language::German => "Ungültiges Format. Bitte benutze die Funktion mit einer gültigen Zeitangabe, zum Beispiel /settimer 08:00."@,
    }
}

/// The answer to a time that could not be read.
pub fn msg_error_timer_update(lang: &Language) -> (message: String)
    ensures
        message@ == error_timer_update_text(*lang),
{
    match lang {
        Language::English => String::from_str(
            "The format was not valid. Please use the function with a valid time (for example /settimer 08:00).",
        ),
        Language::German => String::from_str(
            "Ungültiges Format. Bitte benutze die Funktion mit einer gültigen Zeitangabe, zum Beispiel /settimer 08:00.",
        ),
    }
}

} // verus!
