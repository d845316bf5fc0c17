//! What became of a translation request, and what the answer says.

use crate::json::{json_document, parse_document, Json, JsonValue};
use vstd::prelude::*;
use vstd::string::*;

verus! {

/// What is shown in place of a translation when none could be had.
pub const FAILURE_TEXT: &'static str = "An error has occured in get_translation()";

/// One translation, as the service reports it.
#[derive(Debug, PartialEq, Eq)]
pub struct Translation {
    pub detected_source_language: String,
    pub text: String,
}

/// The mathematical value of a [`Translation`].
pub struct TranslationView {
    pub detected_source_language: Seq<char>,
    pub text: Seq<char>,
}

impl View for Translation {
    type V = TranslationView;

    open spec fn view(&self) -> TranslationView {
        TranslationView {
            detected_source_language: self.detected_source_language@,
            text: self.text@,
        }
    }
}

/// What became of a request.
#[derive(Debug, PartialEq, Eq)]
pub enum Exchange {
    /// The request was never sent: no request could be built.
    Unsent,
    /// The request was sent, and no answer could be read.
    Lost,
    /// The service answered.
    Answered { status: u16, body: String },
}

/// The mathematical value of an [`Exchange`].
pub enum ExchangeView {
    Unsent,
    Lost,
    Answered { status: u16, body: Seq<char> },
}

impl View for Exchange {
    type V = ExchangeView;

    open spec fn view(&self) -> ExchangeView {
        match self {
            Exchange::Unsent => ExchangeView::Unsent,
            Exchange::Lost => ExchangeView::Lost,
            Exchange::Answered { status, body } => ExchangeView::Answered {
                status: *status,
                body: body@,
            },
        }
    }
}

/// How an attempt to translate a word ended.
#[derive(Debug, PartialEq, Eq)]
pub enum Outcome {
    /// The service translated the word.
    Translated(String),
    /// The service answered with an empty list of translations.
    EmptyResult,
    /// The request was not sent, was lost, or was answered with a status
    /// other than success.
    RequestFailed,
    /// The answer was not the document that the service is known to send.
    ParseError,
}

/// The mathematical value of an [`Outcome`].
pub enum OutcomeView {
    Translated(Seq<char>),
    EmptyResult,
    RequestFailed,
    ParseError,
}

impl View for Outcome {
    type V = OutcomeView;

    open spec fn view(&self) -> OutcomeView {
        match self {
            Outcome::Translated(text) => OutcomeView::Translated(text@),
            Outcome::EmptyResult => OutcomeView::EmptyResult,
            Outcome::RequestFailed => OutcomeView::RequestFailed,
            Outcome::ParseError => OutcomeView::ParseError,
        }
    }
}

/// The values of a list of translations.
pub open spec fn translations_view(list: Seq<Translation>) -> Seq<TranslationView> {
    Seq::new(list.len(), |i: int| list[i]@)
}

/// Whether a status tells of success.
pub open spec fn is_success(status: u16) -> bool {
    200 <= status < 300
}

/// The text of the member `name` of `value`, where it has one and that is a
/// string.
pub open spec fn text_member(value: JsonValue, name: Seq<char>) -> Option<Seq<char>> {
    match value.member(name) {
        Some(member) => member.text(),
        None => None,
    }
}

/// The translation that a JSON value stands for: an object with the strings
/// `detected_source_language` and `text` among its members.
pub open spec fn translation_of(value: JsonValue) -> Option<TranslationView> {
    match (text_member(value, "detected_source_language"@), text_member(value, "text"@)) {
        (Some(language), Some(text)) => Some(
            TranslationView { detected_source_language: language, text },
        ),
        _ => None,
    }
}

/// The translations that a document holds: it is an object whose member
/// `translations` is an array, each item of it a translation.
pub open spec fn translations_of(document: JsonValue) -> Option<Seq<TranslationView>> {
    match document.member("translations"@) {
        Some(JsonValue::Array(items)) => if forall|i: int|
            0 <= i < items.len() ==> (#[trigger] translation_of(items[i])) is Some {
            Some(Seq::new(items.len(), |i: int| translation_of(items[i])->0))
        } else {
            None
        },
        _ => None,
    }
}

/// What a parsed answer says: the first translation's text.
pub open spec fn outcome_of_document(parsed: Option<JsonValue>) -> OutcomeView {
    match parsed {
        None => OutcomeView::ParseError,
        Some(document) => match translations_of(document) {
            None => OutcomeView::ParseError,
            Some(list) => if list.len() == 0 {
                OutcomeView::EmptyResult
            } else {
                OutcomeView::Translated(list[0].text)
            },
        },
    }
}

/// What the body of a successful answer says.
pub open spec fn outcome_of_body(body: Seq<char>) -> OutcomeView {
    outcome_of_document(json_document(body))
}

/// How the attempt ended, given what became of its request.
pub open spec fn outcome_of(exchange: ExchangeView) -> OutcomeView {
    match exchange {
        ExchangeView::Unsent => OutcomeView::RequestFailed,
        ExchangeView::Lost => OutcomeView::RequestFailed,
        ExchangeView::Answered { status, body } => if is_success(status) {
            outcome_of_body(body)
        } else {
            OutcomeView::RequestFailed
        },
    }
}

/// The text that is shown for an outcome: the translation, or the failure
/// text for every other outcome.
pub open spec fn shown_text(outcome: OutcomeView) -> Seq<char> {
    match outcome {
        OutcomeView::Translated(text) => text,
        _ => FAILURE_TEXT@,
    }
}

/// Whether an exchange shows that the credential is valid: the service
/// answered with success.
pub open spec fn key_accepted(exchange: ExchangeView) -> bool {
    exchange matches ExchangeView::Answered { status, .. } && is_success(status)
}

fn text_member_of(value: &Json, name: &str) -> (found: Option<String>)
    ensures
        match found {
            Some(text) => text_member(value@, name@) == Some(text@),
            None => text_member(value@, name@) is None,
        },
{
    match value.member(name) {
        Some(member) => match member.text() {
            Some(text) => Some(text.clone()),
            None => None,
        },
        None => None,
    }
}

/// Reads one translation out of a JSON value.
pub fn decode_translation(value: &Json) -> (decoded: Option<Translation>)
    ensures
        match decoded {
            Some(translation) => translation_of(value@) == Some(translation@),
            None => translation_of(value@) is None,
        },
{
    let language = text_member_of(value, "detected_source_language");
    let text = text_member_of(value, "text");
    match (language, text) {
        (Some(language), Some(text)) => Some(
            Translation { detected_source_language: language, text },
        ),
        _ => None,
    }
}

/// Reads the list of translations out of an answer's document.
pub fn decode_translations(document: &Json) -> (decoded: Option<Vec<Translation>>)
    ensures
        match decoded {
            Some(list) => translations_of(document@) == Some(translations_view(list@)),
            None => translations_of(document@) is None,
        },
{
    let member = match document.member("translations") {
        Some(member) => member,
        None => {
            return None;
        },
    };
    let items = match member.items() {
        Some(items) => items,
        None => {
            return None;
        },
    };
    let ghost values = member@->Array_0;
    let mut list: Vec<Translation> = Vec::new();
    let mut i: usize = 0;
    while i < items.len()
        invariant
            i <= items.len(),
            list@.len() == i,
            document@.member("translations"@) == Some(JsonValue::Array(values)),
            values.len() == items@.len(),
            forall|k: int| 0 <= k < items@.len() ==> values[k] == items@[k]@,
            forall|k: int| 0 <= k < i ==> translation_of(values[k]) == Some(list@[k]@),
        decreases items.len() - i,
    {
        match decode_translation(&items[i]) {
            Some(translation) => {
                list.push(translation);
            },
            None => {
                assert(translation_of(values[i as int]) is None);
                return None;
            },
        }
        i += 1;
    }
    assert(translations_of(document@)->0 =~= translations_view(list@));
    Some(list)
}

/// Says what a parsed answer holds. `parsed` is what became of the answer's
/// body when it was read as JSON.
pub fn read_document(parsed: Option<Json>) -> (outcome: Outcome)
    ensures
        outcome@ == outcome_of_document(
            match parsed {
                Some(document) => Some(document@),
                None => None,
            },
        ),
{
    let document = match parsed {
        Some(document) => document,
        None => {
            return Outcome::ParseError;
        },
    };
    match decode_translations(&document) {
        None => Outcome::ParseError,
        Some(list) => {
            if list.len() == 0 {
                Outcome::EmptyResult
            } else {
                Outcome::Translated(list[0].text.clone())
            }
        },
    }
}

/// Reads the body of a successful answer.
pub fn read_body(body: &str) -> (outcome: Outcome)
    ensures
        outcome@ == outcome_of_body(body@),
{
    read_document(parse_document(body))
}

/// Says how an attempt to translate ended, given what became of its request.
pub fn interpret(exchange: &Exchange) -> (outcome: Outcome)
    ensures
        outcome@ == outcome_of(exchange@),
{
    match exchange {
        Exchange::Unsent => Outcome::RequestFailed,
        Exchange::Lost => Outcome::RequestFailed,
        Exchange::Answered { status, body } => {
            if 200 <= *status && *status < 300 {
                read_body(body.as_str())
            } else {
                Outcome::RequestFailed
            }
        },
    }
}

impl Outcome {
    /// The text to show for this outcome.
    pub fn into_text(self) -> (text: String)
        ensures
            text@ == shown_text(self@),
    {
        match self {
            Outcome::Translated(text) => text,
            _ => String::from_str(FAILURE_TEXT),
        }
    }
}

/// The text to show for a word, given what became of the request for its
/// translation.
pub fn get_translation(exchange: &Exchange) -> (text: String)
    ensures
        text@ == shown_text(outcome_of(exchange@)),
{
    interpret(exchange).into_text()
}

/// Whether a credential is valid, given what became of its trial request: it
/// is exactly when the service answered with success.
pub fn is_api_key_valid(exchange: &Exchange) -> (valid: bool)
    ensures
        valid == key_accepted(exchange@),
{
    match exchange {
        Exchange::Answered { status, .. } => 200 <= *status && *status < 300,
        _ => false,
    }
}

} // verus!
