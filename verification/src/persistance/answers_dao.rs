use vstd::prelude::*;
use crate::ident::EntityId;
use crate::models::{Answer, AnswerFields, DBError, Timestamp, invalid_answer_id_msg,
    invalid_answer_id_message, invalid_question_ref_msg, invalid_question_ref_message};

verus! {

/// The answer gateway's capability set: create, delete and list, with lists
/// scoped by the owning question.
///
/// The contract here is the error taxonomy every implementation owes its
/// callers; the in-memory [`DAO`] refines it with full store semantics.
pub trait AnswerDAO {
    /// Stores an answer under the question its fields name. A nil owning
    /// identifier is rejected with the identifier-validation error before
    /// the store is touched.
    fn create_answer(&mut self, details: AnswerFields) -> (r: Result<Answer, DBError>)
        ensures
            details.question_uuid.spec_is_nil() ==> (r matches Err(e)
                && e matches DBError::InvalidUUID(m) && m@ == invalid_question_ref_msg(
                details.question_uuid,
            )),
            !details.question_uuid.spec_is_nil() ==> (r matches Ok(a) && a.detail == details
                && !a.answer_uuid.spec_is_nil()) || (r matches Err(e)
                && e matches DBError::Other(_)),
    ;

    /// Deletes by identifier. A nil identifier is rejected with the
    /// identifier-validation error before the store is touched; absence of a
    /// matching row is not an error.
    fn delete_answer(&mut self, id: EntityId) -> (r: Result<(), DBError>)
        ensures
            id.spec_is_nil() ==> (r matches Err(e) && e matches DBError::InvalidUUID(m) && m@
                == invalid_answer_id_msg(id)),
            !id.spec_is_nil() ==> r matches Ok(_) || (r matches Err(e)
                && e matches DBError::Other(_)),
    ;

    /// Lists the answers under one question. A nil owning identifier is
    /// rejected with the identifier-validation error before the store is
    /// touched; every returned answer names that question.
    fn get_answers(&self, question_id: EntityId) -> (r: Result<Vec<Answer>, DBError>)
        ensures
            question_id.spec_is_nil() ==> (r matches Err(e) && e matches DBError::InvalidUUID(m)
                && m@ == invalid_question_ref_msg(question_id)),
            !question_id.spec_is_nil() ==> (r matches Ok(v) && forall|i: int|
                0 <= i < v@.len() ==> #[trigger] v@[i].detail.question_uuid == question_id) || (
            r matches Err(e) && e matches DBError::Other(_)),
    ;
}

/// The rows left when every row carrying `id` is deleted, order kept.
pub open spec fn remove_answer(s: Seq<Answer>, id: EntityId) -> Seq<Answer>
    decreases s.len(),
{
    if s.len() == 0 {
        Seq::empty()
    } else {
        let rest = remove_answer(s.drop_last(), id);
        if s.last().answer_uuid == id {
            rest
        } else {
            rest.push(s.last())
        }
    }
}

/// Exactly the rows whose owning question is `question_id`, order kept.
pub open spec fn answers_for(s: Seq<Answer>, question_id: EntityId) -> Seq<Answer>
    decreases s.len(),
{
    if s.len() == 0 {
        Seq::empty()
    } else {
        let rest = answers_for(s.drop_last(), question_id);
        if s.last().detail.question_uuid == question_id {
            rest.push(s.last())
        } else {
            rest
        }
    }
}

/// A scoped list is exact: every listed answer names the scoping question
/// and is a stored row, and every stored row naming that question is listed.
pub proof fn lemma_answers_for_scoped(s: Seq<Answer>, question_id: EntityId)
    ensures
        forall|i: int|
            0 <= i < answers_for(s, question_id).len() ==> (#[trigger] answers_for(s, question_id)[i]).detail.question_uuid
                == question_id && s.contains(answers_for(s, question_id)[i]),
        forall|j: int|
            0 <= j < s.len() && (#[trigger] s[j]).detail.question_uuid == question_id
                ==> answers_for(s, question_id).contains(s[j]),
    decreases s.len(),
{
    if s.len() > 0 {
        lemma_answers_for_scoped(s.drop_last(), question_id);
        assert forall|i: int| 0 <= i < answers_for(s, question_id).len() implies (
        #[trigger] answers_for(s, question_id)[i]).detail.question_uuid == question_id
            && s.contains(answers_for(s, question_id)[i]) by {
            let listed = answers_for(s, question_id);
            let rest = answers_for(s.drop_last(), question_id);
            if i < rest.len() {
                let k = choose|k: int|
                    0 <= k < s.drop_last().len() && s.drop_last()[k] == rest[i];
                assert(s[k] == listed[i]);
            } else {
                assert(s[s.len() - 1] == listed[i]);
            }
        }
        assert forall|j: int|
            0 <= j < s.len() && (#[trigger] s[j]).detail.question_uuid == question_id implies answers_for(
            s,
            question_id,
        ).contains(s[j]) by {
            let listed = answers_for(s, question_id);
            let rest = answers_for(s.drop_last(), question_id);
            if j < s.len() - 1 {
                assert(s.drop_last()[j] == s[j]);
                let k = choose|k: int| 0 <= k < rest.len() && rest[k] == s[j];
                assert(listed[k] == s[j]);
            } else {
                assert(listed[listed.len() - 1] == s[j]);
            }
        }
    }
}

/// A delete leaves no row carrying the deleted identifier, so a scoped list
/// taken after it cannot return the deleted answer.
pub proof fn lemma_deleted_answer_not_listed(s: Seq<Answer>, id: EntityId, question_id: EntityId)
    ensures
        forall|i: int|
            0 <= i < remove_answer(s, id).len() ==> #[trigger] remove_answer(s, id)[i].answer_uuid
                != id,
        forall|i: int|
            0 <= i < answers_for(remove_answer(s, id), question_id).len()
                ==> #[trigger] answers_for(remove_answer(s, id), question_id)[i].answer_uuid != id,
    decreases s.len(),
{
    lemma_remove_answer_drops_id(s, id);
    lemma_answers_for_scoped(remove_answer(s, id), question_id);
    assert forall|i: int| 0 <= i < answers_for(remove_answer(s, id), question_id).len() implies #[trigger] answers_for(
        remove_answer(s, id),
        question_id,
    )[i].answer_uuid != id by {
        let listed = answers_for(remove_answer(s, id), question_id);
        let kept = remove_answer(s, id);
        let k = choose|k: int| 0 <= k < kept.len() && kept[k] == listed[i];
        assert(kept[k].answer_uuid != id);
    }
}

/// No row of a post-delete store carries the deleted identifier.
pub proof fn lemma_remove_answer_drops_id(s: Seq<Answer>, id: EntityId)
    ensures
        forall|i: int|
            0 <= i < remove_answer(s, id).len() ==> #[trigger] remove_answer(s, id)[i].answer_uuid
                != id,
    decreases s.len(),
{
    if s.len() > 0 {
        lemma_remove_answer_drops_id(s.drop_last(), id);
        let rest = remove_answer(s.drop_last(), id);
        assert forall|i: int|
            0 <= i < remove_answer(s, id).len() implies #[trigger] remove_answer(
            s,
            id,
        )[i].answer_uuid != id by {
            if i < rest.len() {
                assert(rest[i] == remove_answer(s.drop_last(), id)[i]);
            } else {
                assert(remove_answer(s, id)[i] == s.last());
            }
        }
    }
}

/// Deleting an identifier no stored row carries leaves the store as it was:
/// the delete still reports success, and nothing else changes.
pub proof fn lemma_remove_absent_answer_is_noop(s: Seq<Answer>, id: EntityId)
    requires
        forall|i: int| 0 <= i < s.len() ==> #[trigger] s[i].answer_uuid != id,
    ensures
        remove_answer(s, id) == s,
    decreases s.len(),
{
    if s.len() > 0 {
        assert(s.last() == s[s.len() - 1]);
        lemma_remove_absent_answer_is_noop(s.drop_last(), id);
        assert(remove_answer(s, id) =~= s);
    }
}

/// The in-memory answer gateway: rows in insertion order, plus a closed
/// flag that models a lost store connection (every operation that would
/// reach the store then fails with the opaque store error).
pub struct DAO {
    answers: Vec<Answer>,
    closed: bool,
}

impl DAO {
    /// The rows the store now holds, in insertion order.
    pub closed spec fn store(&self) -> Seq<Answer> {
        self.answers@
    }

    /// Whether the store connection is closed.
    pub closed spec fn is_closed(&self) -> bool {
        self.closed
    }

    /// A fresh, open, empty store.
    pub fn new() -> (r: Self)
        ensures
            r.store() == Seq::<Answer>::empty(),
            !r.is_closed(),
    {
        DAO { answers: Vec::new(), closed: false }
    }

    /// Closes the store connection: every later operation that reaches the
    /// store fails with the opaque store error.
    pub fn close(&mut self)
        ensures
            final(self).is_closed(),
            final(self).store() == old(self).store(),
    {
        self.closed = true;
    }
}

impl AnswerDAO for DAO {
    fn create_answer(&mut self, details: AnswerFields) -> (r: Result<Answer, DBError>)
        ensures
            final(self).is_closed() == old(self).is_closed(),
            details.question_uuid.spec_is_nil() || old(self).is_closed() ==> final(self).store()
                == old(self).store(),
            !details.question_uuid.spec_is_nil() && old(self).is_closed() ==> (r matches Err(e)
                && e matches DBError::Other(_)),
            !details.question_uuid.spec_is_nil() && !old(self).is_closed() ==> (r matches Ok(a)
                && a.detail == details && !a.answer_uuid.spec_is_nil() && final(self).store()
                == old(self).store().push(a)),
    {
        if details.question_uuid.is_nil() {
            return Err(DBError::InvalidUUID(invalid_question_ref_message(details.question_uuid)));
        }
        if self.closed {
            return Err(DBError::Other("connection closed".to_owned()));
        }
        let answer_uuid = EntityId::generate();
        let created_at = Timestamp::now();
        let a = Answer { answer_uuid, detail: details, created_at };
        self.answers.push(a.clone());
        proof {
            assert(self.answers@ =~= old(self).answers@.push(a));
        }
        Ok(a)
    }

    fn delete_answer(&mut self, id: EntityId) -> (r: Result<(), DBError>)
        ensures
            final(self).is_closed() == old(self).is_closed(),
            id.spec_is_nil() || old(self).is_closed() ==> final(self).store() == old(self).store(),
            !id.spec_is_nil() && old(self).is_closed() ==> (r matches Err(e)
                && e matches DBError::Other(_)),
            !id.spec_is_nil() && !old(self).is_closed() ==> (r matches Ok(_)
                && final(self).store() == remove_answer(old(self).store(), id)),
    {
        if id.is_nil() {
            return Err(DBError::InvalidUUID(invalid_answer_id_message(id)));
        }
        if self.closed {
            return Err(DBError::Other("connection closed".to_owned()));
        }
        let mut kept: Vec<Answer> = Vec::new();
        let n = self.answers.len();
        let mut i: usize = 0;
        while i < n
            invariant
                n == self.answers.len(),
                i <= n,
                kept@ == remove_answer(self.answers@.take(i as int), id),
            decreases n - i,
        {
            let row = &self.answers[i];
            proof {
                assert(self.answers@.take(i as int + 1).drop_last() =~= self.answers@.take(
                    i as int,
                ));
                assert(self.answers@.take(i as int + 1).last() == self.answers@[i as int]);
            }
            if !(row.answer_uuid == id) {
                kept.push(row.clone());
            }
            i = i + 1;
        }
        proof {
            assert(self.answers@.take(n as int) =~= self.answers@);
        }
        self.answers = kept;
        Ok(())
    }

    fn get_answers(&self, question_id: EntityId) -> (r: Result<Vec<Answer>, DBError>)
        ensures
            !question_id.spec_is_nil() && self.is_closed() ==> (r matches Err(e)
                && e matches DBError::Other(_)),
            !question_id.spec_is_nil() && !self.is_closed() ==> (r matches Ok(v) && v@
                == answers_for(self.store(), question_id)),
    {
        if question_id.is_nil() {
            return Err(DBError::InvalidUUID(invalid_question_ref_message(question_id)));
        }
        if self.closed {
            return Err(DBError::Other("connection closed".to_owned()));
        }
        let mut listed: Vec<Answer> = Vec::new();
        let n = self.answers.len();
        let mut i: usize = 0;
        while i < n
            invariant
                n == self.answers.len(),
                i <= n,
                listed@ == answers_for(self.answers@.take(i as int), question_id),
            decreases n - i,
        {
            let row = &self.answers[i];
            proof {
                assert(self.answers@.take(i as int + 1).drop_last() =~= self.answers@.take(
                    i as int,
                ));
                assert(self.answers@.take(i as int + 1).last() == self.answers@[i as int]);
            }
            if row.detail.question_uuid == question_id {
                listed.push(row.clone());
            }
            i = i + 1;
        }
        proof {
            assert(self.answers@.take(n as int) =~= self.answers@);
            lemma_answers_for_scoped(self.answers@, question_id);
        }
        Ok(listed)
    }
}

} // verus!
