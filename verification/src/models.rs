use vstd::prelude::*;
use vstd::string::StringExecFns;
use crate::ident::{EntityId, uuid_text};

verus! {

/// A creation timestamp: microseconds since the Unix epoch.
#[derive(Clone, Copy, PartialEq, Eq, Structural, Debug)]
pub struct Timestamp {
    pub micros: i64,
}

/// Relies on `chrono::Utc::now` and `DateTime::timestamp_micros`: the current
/// wall-clock time as microseconds since the Unix epoch. Nothing is promised
/// of the value: the clock is outside the library. (`Utc::now` panics only on
/// a system clock set before the Unix epoch.)
#[verifier::external_body]
fn current_micros() -> i64 {
    chrono::Utc::now().timestamp_micros()
}

impl Timestamp {
    pub fn from_micros(micros: i64) -> (r: Self)
        ensures
            r.micros == micros,
    {
        Timestamp { micros }
    }

    /// The current wall-clock time; no contract, as the clock is external.
    pub fn now() -> Self {
        Timestamp { micros: current_micros() }
    }
}

/// The caller-supplied part of a question.
#[derive(Debug, PartialEq)]
pub struct QuestionFields {
    pub title: String,
    pub description: String,
}

impl Clone for QuestionFields {
    fn clone(&self) -> (r: Self)
        ensures
            r == *self,
    {
        QuestionFields { title: self.title.clone(), description: self.description.clone() }
    }
}

/// A stored question: the caller-supplied fields plus the server-assigned
/// identifier and creation timestamp.
#[derive(Debug, PartialEq)]
pub struct Question {
    pub question_uuid: EntityId,
    pub detail: QuestionFields,
    pub created_at: Timestamp,
}

impl Clone for Question {
    fn clone(&self) -> (r: Self)
        ensures
            r == *self,
    {
        Question {
            question_uuid: self.question_uuid,
            detail: self.detail.clone(),
            created_at: self.created_at,
        }
    }
}

/// The caller-supplied part of an answer, owned by the question it names.
#[derive(Debug, PartialEq)]
pub struct AnswerFields {
    pub question_uuid: EntityId,
    pub content: String,
}

impl Clone for AnswerFields {
    fn clone(&self) -> (r: Self)
        ensures
            r == *self,
    {
        AnswerFields { question_uuid: self.question_uuid, content: self.content.clone() }
    }
}

/// A stored answer: the caller-supplied fields plus the server-assigned
/// identifier and creation timestamp.
#[derive(Debug, PartialEq)]
pub struct Answer {
    pub answer_uuid: EntityId,
    pub detail: AnswerFields,
    pub created_at: Timestamp,
}

impl Clone for Answer {
    fn clone(&self) -> (r: Self)
        ensures
            r == *self,
    {
        Answer {
            answer_uuid: self.answer_uuid,
            detail: self.detail.clone(),
            created_at: self.created_at,
        }
    }
}

impl Answer {
    /// A fresh answer for the given detail: a generated identifier and the
    /// current time.
    pub fn new(detail: AnswerFields) -> (r: Self)
        ensures
            r.detail == detail,
            !r.answer_uuid.spec_is_nil(),
    {
        Answer { answer_uuid: EntityId::generate(), detail, created_at: Timestamp::now() }
    }
}

/// The persistence gateway's two-kind error taxonomy.
#[derive(Debug)]
pub enum DBError {
    /// A nil or malformed identifier, rejected before the store is touched.
    /// Carries a descriptive message naming the offending identifier.
    InvalidUUID(String),
    /// Any lower-level store failure, opaque to the caller.
    Other(String),
}

/// The message a question-scoped delete gives for a rejected identifier.
pub open spec fn invalid_question_id_msg(id: EntityId) -> Seq<char> {
    "Invalid question id: "@ + uuid_text(id.value)
}

/// The message the answer gateway gives for a rejected owning-question
/// identifier.
pub open spec fn invalid_question_ref_msg(id: EntityId) -> Seq<char> {
    "Invalid question_id: "@ + uuid_text(id.value)
}

/// The message an answer-scoped delete gives for a rejected identifier.
pub open spec fn invalid_answer_id_msg(id: EntityId) -> Seq<char> {
    "Invalid answer id provided: "@ + uuid_text(id.value)
}

pub fn invalid_question_id_message(id: EntityId) -> (r: String)
    ensures
        r@ == invalid_question_id_msg(id),
{
    let mut m = "Invalid question id: ".to_owned();
    m.append(id.to_uuid_string().as_str());
    m
}

pub fn invalid_question_ref_message(id: EntityId) -> (r: String)
    ensures
        r@ == invalid_question_ref_msg(id),
{
    let mut m = "Invalid question_id: ".to_owned();
    m.append(id.to_uuid_string().as_str());
    m
}

pub fn invalid_answer_id_message(id: EntityId) -> (r: String)
    ensures
        r@ == invalid_answer_id_msg(id),
{
    let mut m = "Invalid answer id provided: ".to_owned();
    m.append(id.to_uuid_string().as_str());
    m
}

} // verus!
