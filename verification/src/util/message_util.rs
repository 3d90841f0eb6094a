//! Choice of the language and of the text of a translated message.

use vstd::prelude::*;
use crate::text::{copy_text, str_eq};

verus! {

/// The language messages are read in: the requested one when it is `fr`, `en` or `nl`,
/// else `en`.
pub open spec fn lang_of(lang: Seq<char>) -> Seq<char> {
    if lang == "fr"@ || lang == "en"@ || lang == "nl"@ {
        lang
    } else {
        "en"@
    }
}

/// The language messages are read in (see `lang_of`).
pub fn resolve_lang(lang: &str) -> (res: String)
    ensures
        res@ == lang_of(lang@),
{
    if !str_eq(lang, "fr") && !str_eq(lang, "en") && !str_eq(lang, "nl") {
        copy_text("en")
    } else {
        copy_text(lang)
    }
}

/// A language other than `fr`, `en` and `nl` reads its messages as English does:
/// the same language is chosen, so the same resources are read.
pub proof fn lemma_unsupported_language_reads_english(lang: Seq<char>)
    requires
        lang != "fr"@,
        lang != "en"@,
        lang != "nl"@,
    ensures
        lang_of(lang) == lang_of("en"@),
        lang_of(lang) == "en"@,
{
}

/// What looking a message up in the resources of a language gave.
pub enum MessageLookup {
    /// The message exists and formats to this text.
    Formatted(String),
    /// The resources hold no message with the key.
    Missing,
    /// The resources of the language could not be loaded.
    BundleUnavailable,
}

/// The text of a message: the formatted message when the lookup found it,
/// `<key> does not exist` when the key is unknown, and `An internal error occurs`
/// when the resources could not be loaded.
pub open spec fn message_text(message_key: Seq<char>, lookup: MessageLookup) -> Seq<char> {
    match lookup {
        MessageLookup::Formatted(t) => t@,
        MessageLookup::Missing => message_key + " does not exist"@,
        MessageLookup::BundleUnavailable => "An internal error occurs"@,
    }
}

/// The text of a message (see `message_text`).
pub fn get_message(message_key: &str, lookup: MessageLookup) -> (res: String)
    ensures
        res@ == message_text(message_key@, lookup),
{
    match lookup {
        MessageLookup::Formatted(t) => t,
        _ => message_text_of(message_key, &lookup),
    }
}

/// The text of a message, from a borrowed lookup (see `message_text`).
pub(crate) fn message_text_of(message_key: &str, lookup: &MessageLookup) -> (res: String)
    ensures
        res@ == message_text(message_key@, *lookup),
{
    match lookup {
        MessageLookup::Formatted(t) => copy_text(t.as_str()),
        MessageLookup::Missing => {
            let mut err = copy_text(message_key);
            err.append(" does not exist");
            err
        },
        MessageLookup::BundleUnavailable => copy_text("An internal error occurs"),
    }
}

/// The message files of every language, as a lookup by language, message key and
/// message arguments.
pub type Resources = spec_fn(Seq<char>, Seq<char>, Option<Seq<(Seq<char>, Seq<char>)>>) -> MessageLookup;

/// The text of a message with its arguments in a language: looked up in the given
/// message files in the language messages are read in (see `lang_of`), and written
/// as `get_message` writes a lookup (see `message_text`).
pub open spec fn message_in(
    resources: Resources,
    lang: Seq<char>,
    message_key: Seq<char>,
    args: Option<Seq<(Seq<char>, Seq<char>)>>,
) -> Seq<char> {
    message_text(message_key, resources(lang_of(lang), message_key, args))
}

/// Over the same message files, a message asked for in a language other than `fr`,
/// `en` and `nl` reads as the English one, whatever its key and arguments.
pub proof fn lemma_unsupported_language_message(
    resources: Resources,
    lang: Seq<char>,
    message_key: Seq<char>,
    args: Option<Seq<(Seq<char>, Seq<char>)>>,
)
    requires
        lang != "fr"@,
        lang != "en"@,
        lang != "nl"@,
    ensures
        message_in(resources, lang, message_key, args) == message_in(resources, "en"@, message_key, args),
{
    lemma_unsupported_language_reads_english(lang);
}

} // verus!
