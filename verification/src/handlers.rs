use vstd::prelude::*;
use crate::ident::{EntityId, coerced_id};
use crate::models::{Answer, AnswerFields, DBError, Question, QuestionFields,
    invalid_answer_id_msg, invalid_question_id_msg, invalid_question_ref_msg};
use crate::persistance::answers_dao::AnswerDAO;
use crate::persistance::questions_dao::QuestionDAO;

verus! {

/// The fixed server-fault message: store failure detail is never leaked to
/// the transport boundary.
pub open spec fn generic_internal_msg() -> Seq<char> {
    "Something went wrong! Please try again."@
}

/// A transport-level fault: a client fault, whose message is passed through
/// verbatim, or a server fault with the fixed generic message.
#[derive(Debug, PartialEq)]
pub enum HandlerError {
    BadRequest(String),
    InternalError(String),
}

impl HandlerError {
    /// The server-fault response every store failure is replaced with.
    pub fn default_internal_error() -> (r: Self)
        ensures
            r matches HandlerError::InternalError(m) && m@ == generic_internal_msg(),
    {
        HandlerError::InternalError("Something went wrong! Please try again.".to_owned())
    }

    /// The transport status and body of this fault: 400 with the verbatim
    /// message for a client fault, 500 with the message for a server fault.
    pub fn response_parts(self) -> (r: (u16, String))
        ensures
            self matches HandlerError::BadRequest(m) ==> r == (400u16, m),
            self matches HandlerError::InternalError(m) ==> r == (500u16, m),
    {
        match self {
            HandlerError::BadRequest(message) => (400, message),
            HandlerError::InternalError(message) => (500, message),
        }
    }
}

/// Maps the gateway's two-kind taxonomy onto transport faults: an
/// identifier-validation error becomes a client fault with its message
/// passed through verbatim; any store failure becomes the server fault with
/// the generic message, whatever the underlying error said.
pub fn map_db_error(e: DBError) -> (r: HandlerError)
    ensures
        e matches DBError::InvalidUUID(m) ==> r == HandlerError::BadRequest(m),
        e matches DBError::Other(_) ==> (r matches HandlerError::InternalError(m) && m@
            == generic_internal_msg()),
{
    match e {
        DBError::InvalidUUID(message) => HandlerError::BadRequest(message),
        DBError::Other(_) => HandlerError::default_internal_error(),
    }
}

/// Stores a question. Every gateway failure, whatever its kind, surfaces as
/// the generic server fault.
pub fn create_question<D: QuestionDAO>(question: QuestionFields, dao: &mut D) -> (r: Result<
    Question,
    HandlerError,
>)
    ensures
        r matches Ok(q) ==> q.detail == question && !q.question_uuid.spec_is_nil(),
        r matches Err(e) ==> (e matches HandlerError::InternalError(m) && m@
            == generic_internal_msg()),
{
    match dao.create_question(question) {
        Ok(q) => Ok(q),
        Err(_) => Err(HandlerError::default_internal_error()),
    }
}

/// Lists every question. Every gateway failure surfaces as the generic
/// server fault.
pub fn read_questions<D: QuestionDAO>(dao: &D) -> (r: Result<Vec<Question>, HandlerError>)
    ensures
        r matches Err(e) ==> (e matches HandlerError::InternalError(m) && m@
            == generic_internal_msg()),
{
    match dao.get_questions() {
        Ok(v) => Ok(v),
        Err(_) => Err(HandlerError::default_internal_error()),
    }
}

/// Deletes a question by identifier. A nil identifier always surfaces as a
/// client fault carrying the gateway's message verbatim, never as a server
/// fault; a store failure surfaces as the generic server fault.
pub fn delete_question<D: QuestionDAO>(id: EntityId, dao: &mut D) -> (r: Result<(), HandlerError>)
    ensures
        id.spec_is_nil() ==> (r matches Err(e) && e matches HandlerError::BadRequest(m) && m@
            == invalid_question_id_msg(id)),
        r matches Err(e) ==> (e matches HandlerError::BadRequest(_) ==> id.spec_is_nil()),
        r matches Err(e) ==> (e matches HandlerError::InternalError(m) ==> m@
            == generic_internal_msg() && !id.spec_is_nil()),
{
    match dao.delete_question(id) {
        Ok(_) => Ok(()),
        Err(e) => Err(map_db_error(e)),
    }
}

/// Stores an answer. A nil owning-question identifier always surfaces as a
/// client fault carrying the gateway's message verbatim, never as a server
/// fault; a store failure surfaces as the generic server fault.
pub fn create_answer<D: AnswerDAO>(answer: AnswerFields, dao: &mut D) -> (r: Result<
    Answer,
    HandlerError,
>)
    ensures
        r matches Ok(a) ==> a.detail == answer && !a.answer_uuid.spec_is_nil(),
        answer.question_uuid.spec_is_nil() ==> (r matches Err(e)
            && e matches HandlerError::BadRequest(m) && m@ == invalid_question_ref_msg(
            answer.question_uuid,
        )),
        r matches Err(e) ==> (e matches HandlerError::BadRequest(_)
            ==> answer.question_uuid.spec_is_nil()),
        r matches Err(e) ==> (e matches HandlerError::InternalError(m) ==> m@
            == generic_internal_msg() && !answer.question_uuid.spec_is_nil()),
{
    match dao.create_answer(answer) {
        Ok(a) => Ok(a),
        Err(e) => Err(map_db_error(e)),
    }
}

/// Lists the answers under one question. A nil owning identifier always
/// surfaces as a client fault carrying the gateway's message verbatim, never
/// as a server fault; a store failure surfaces as the generic server fault.
pub fn read_answers<D: AnswerDAO>(question_id: EntityId, dao: &D) -> (r: Result<
    Vec<Answer>,
    HandlerError,
>)
    ensures
        r matches Ok(v) ==> forall|i: int|
            0 <= i < v@.len() ==> #[trigger] v@[i].detail.question_uuid == question_id,
        question_id.spec_is_nil() ==> (r matches Err(e) && e matches HandlerError::BadRequest(m)
            && m@ == invalid_question_ref_msg(question_id)),
        r matches Err(e) ==> (e matches HandlerError::BadRequest(_) ==> question_id.spec_is_nil()),
        r matches Err(e) ==> (e matches HandlerError::InternalError(m) ==> m@
            == generic_internal_msg() && !question_id.spec_is_nil()),
{
    match dao.get_answers(question_id) {
        Ok(v) => Ok(v),
        Err(e) => Err(map_db_error(e)),
    }
}

/// Deletes an answer by identifier. A nil identifier always surfaces as a
/// client fault carrying the gateway's message verbatim, never as a server
/// fault; a store failure surfaces as the generic server fault.
pub fn delete_answer<D: AnswerDAO>(id: EntityId, dao: &mut D) -> (r: Result<(), HandlerError>)
    ensures
        id.spec_is_nil() ==> (r matches Err(e) && e matches HandlerError::BadRequest(m) && m@
            == invalid_answer_id_msg(id)),
        r matches Err(e) ==> (e matches HandlerError::BadRequest(_) ==> id.spec_is_nil()),
        r matches Err(e) ==> (e matches HandlerError::InternalError(m) ==> m@
            == generic_internal_msg() && !id.spec_is_nil()),
{
    match dao.delete_answer(id) {
        Ok(_) => Ok(()),
        Err(e) => Err(map_db_error(e)),
    }
}

/// Deletes a question named by a path segment. The segment is coerced, not
/// rejected: one that is no well-formed UUID becomes the nil identifier, so
/// it surfaces as the gateway's identifier-validation error (a client
/// fault), never as a distinct parse error.
pub fn delete_question_by_path<D: QuestionDAO>(id: &str, dao: &mut D) -> (r: Result<
    (),
    HandlerError,
>)
    ensures
        coerced_id(id@).spec_is_nil() ==> (r matches Err(e)
            && e matches HandlerError::BadRequest(m) && m@ == invalid_question_id_msg(
            coerced_id(id@),
        )),
        r matches Err(e) ==> (e matches HandlerError::BadRequest(_) ==> coerced_id(
            id@,
        ).spec_is_nil()),
        r matches Err(e) ==> (e matches HandlerError::InternalError(m) ==> m@
            == generic_internal_msg() && !coerced_id(id@).spec_is_nil()),
{
    delete_question(EntityId::parse_or_nil(id), dao)
}

/// Lists the answers under a question named by a path segment, with the same
/// coercion: a malformed segment becomes the nil identifier and surfaces as
/// a client fault, never as a distinct parse error.
pub fn read_answers_by_path<D: AnswerDAO>(question_id: &str, dao: &D) -> (r: Result<
    Vec<Answer>,
    HandlerError,
>)
    ensures
        r matches Ok(v) ==> forall|i: int|
            0 <= i < v@.len() ==> #[trigger] v@[i].detail.question_uuid == coerced_id(
                question_id@,
            ),
        coerced_id(question_id@).spec_is_nil() ==> (r matches Err(e)
            && e matches HandlerError::BadRequest(m) && m@ == invalid_question_ref_msg(
            coerced_id(question_id@),
        )),
        r matches Err(e) ==> (e matches HandlerError::BadRequest(_) ==> coerced_id(
            question_id@,
        ).spec_is_nil()),
        r matches Err(e) ==> (e matches HandlerError::InternalError(m) ==> m@
            == generic_internal_msg() && !coerced_id(question_id@).spec_is_nil()),
{
    read_answers(EntityId::parse_or_nil(question_id), dao)
}

/// Deletes an answer named by a path segment, with the same coercion: a
/// malformed segment becomes the nil identifier and surfaces as a client
/// fault, never as a distinct parse error.
pub fn delete_answer_by_path<D: AnswerDAO>(id: &str, dao: &mut D) -> (r: Result<(), HandlerError>)
    ensures
        coerced_id(id@).spec_is_nil() ==> (r matches Err(e)
            && e matches HandlerError::BadRequest(m) && m@ == invalid_answer_id_msg(
            coerced_id(id@),
        )),
        r matches Err(e) ==> (e matches HandlerError::BadRequest(_) ==> coerced_id(
            id@,
        ).spec_is_nil()),
        r matches Err(e) ==> (e matches HandlerError::InternalError(m) ==> m@
            == generic_internal_msg() && !coerced_id(id@).spec_is_nil()),
{
    delete_answer(EntityId::parse_or_nil(id), dao)
}

} // verus!
