use vstd::prelude::*;
use crate::ident::EntityId;
use crate::models::{DBError, Question, QuestionFields, Timestamp, invalid_question_id_msg,
    invalid_question_id_message};

verus! {

/// The question gateway's capability set: create, delete and list.
///
/// The contract here is the error taxonomy every implementation owes its
/// callers; the in-memory [`DAO`] refines it with full store semantics.
pub trait QuestionDAO {
    /// Stores a question. The store assigns identifier and timestamp; it is
    /// never rejected for an identifier, so any failure is a store failure.
    fn create_question(&mut self, question: QuestionFields) -> (r: Result<Question, DBError>)
        ensures
            r matches Ok(q) ==> q.detail == question && !q.question_uuid.spec_is_nil(),
            r matches Err(e) ==> e matches DBError::Other(_),
    ;

    /// Deletes by identifier. A nil identifier is rejected with the
    /// identifier-validation error before the store is touched; absence of a
    /// matching row is not an error.
    fn delete_question(&mut self, question_uuid: EntityId) -> (r: Result<(), DBError>)
        ensures
            question_uuid.spec_is_nil() ==> (r matches Err(e) && e matches DBError::InvalidUUID(m)
                && m@ == invalid_question_id_msg(question_uuid)),
            !question_uuid.spec_is_nil() ==> r matches Ok(_) || (r matches Err(e)
                && e matches DBError::Other(_)),
    ;

    /// Lists every stored question; any failure is a store failure.
    fn get_questions(&self) -> (r: Result<Vec<Question>, DBError>)
        ensures
            r matches Err(e) ==> e matches DBError::Other(_),
    ;
}

/// The rows left when every row carrying `id` is deleted, order kept.
pub open spec fn remove_question(s: Seq<Question>, id: EntityId) -> Seq<Question>
    decreases s.len(),
{
    if s.len() == 0 {
        Seq::empty()
    } else {
        let rest = remove_question(s.drop_last(), id);
        if s.last().question_uuid == id {
            rest
        } else {
            rest.push(s.last())
        }
    }
}

/// A delete leaves no row carrying the deleted identifier: whatever the
/// store held, nothing a later list returns can be the deleted question.
pub proof fn lemma_removed_question_not_listed(s: Seq<Question>, id: EntityId)
    ensures
        forall|i: int|
            0 <= i < remove_question(s, id).len() ==> #[trigger] remove_question(s, id)[i].question_uuid
                != id,
    decreases s.len(),
{
    if s.len() > 0 {
        lemma_removed_question_not_listed(s.drop_last(), id);
        let rest = remove_question(s.drop_last(), id);
        assert forall|i: int|
            0 <= i < remove_question(s, id).len() implies #[trigger] remove_question(
            s,
            id,
        )[i].question_uuid != id by {
            if i < rest.len() {
                assert(rest[i] == remove_question(s.drop_last(), id)[i]);
            } else {
                assert(remove_question(s, id)[i] == s.last());
            }
        }
    }
}

/// Deleting an identifier no stored row carries leaves the store as it was:
/// the delete still reports success, and nothing else changes.
pub proof fn lemma_remove_absent_question_is_noop(s: Seq<Question>, id: EntityId)
    requires
        forall|i: int| 0 <= i < s.len() ==> #[trigger] s[i].question_uuid != id,
    ensures
        remove_question(s, id) == s,
    decreases s.len(),
{
    if s.len() > 0 {
        assert(s.last() == s[s.len() - 1]);
        lemma_remove_absent_question_is_noop(s.drop_last(), id);
        assert(remove_question(s, id) =~= s);
    }
}

/// The in-memory question gateway: rows in insertion order, plus a closed
/// flag that models a lost store connection (every operation that would
/// reach the store then fails with the opaque store error).
pub struct DAO {
    questions: Vec<Question>,
    closed: bool,
}

impl DAO {
    /// The rows the store now holds, in insertion order.
    pub closed spec fn store(&self) -> Seq<Question> {
        self.questions@
    }

    /// Whether the store connection is closed.
    pub closed spec fn is_closed(&self) -> bool {
        self.closed
    }

    /// A fresh, open, empty store.
    pub fn new() -> (r: Self)
        ensures
            r.store() == Seq::<Question>::empty(),
            !r.is_closed(),
    {
        DAO { questions: Vec::new(), closed: false }
    }

    /// Closes the store connection: every later operation that reaches the
    /// store fails with the opaque store error.
    pub fn close(&mut self)
        ensures
            final(self).is_closed(),
            final(self).store() == old(self).store(),
    {
        self.closed = true;
    }
}

impl QuestionDAO for DAO {
    fn create_question(&mut self, question: QuestionFields) -> (r: Result<Question, DBError>)
        ensures
            final(self).is_closed() == old(self).is_closed(),
            old(self).is_closed() ==> (r matches Err(e) && e matches DBError::Other(_)
                && final(self).store() == old(self).store()),
            !old(self).is_closed() ==> (r matches Ok(q) && q.detail == question
                && !q.question_uuid.spec_is_nil()
                && final(self).store() == old(self).store().push(q)),
    {
        if self.closed {
            return Err(DBError::Other("connection closed".to_owned()));
        }
        let question_uuid = EntityId::generate();
        let created_at = Timestamp::now();
        let q = Question { question_uuid, detail: question, created_at };
        self.questions.push(q.clone());
        proof {
            assert(self.questions@ =~= old(self).questions@.push(q));
        }
        Ok(q)
    }

    fn delete_question(&mut self, question_uuid: EntityId) -> (r: Result<(), DBError>)
        ensures
            final(self).is_closed() == old(self).is_closed(),
            question_uuid.spec_is_nil() || old(self).is_closed() ==> final(self).store() == old(
                self,
            ).store(),
            !question_uuid.spec_is_nil() && old(self).is_closed() ==> (r matches Err(e)
                && e matches DBError::Other(_)),
            !question_uuid.spec_is_nil() && !old(self).is_closed() ==> (r matches Ok(_)
                && final(self).store() == remove_question(old(self).store(), question_uuid)),
    {
        if question_uuid.is_nil() {
            return Err(DBError::InvalidUUID(invalid_question_id_message(question_uuid)));
        }
        if self.closed {
            return Err(DBError::Other("connection closed".to_owned()));
        }
        let mut kept: Vec<Question> = Vec::new();
        let n = self.questions.len();
        let mut i: usize = 0;
        while i < n
            invariant
                n == self.questions.len(),
                i <= n,
                kept@ == remove_question(self.questions@.take(i as int), question_uuid),
            decreases n - i,
        {
            let row = &self.questions[i];
            proof {
                assert(self.questions@.take(i as int + 1).drop_last() =~= self.questions@.take(
                    i as int,
                ));
                assert(self.questions@.take(i as int + 1).last() == self.questions@[i as int]);
            }
            if !(row.question_uuid == question_uuid) {
                kept.push(row.clone());
            }
            i = i + 1;
        }
        proof {
            assert(self.questions@.take(n as int) =~= self.questions@);
        }
        self.questions = kept;
        Ok(())
    }

    fn get_questions(&self) -> (r: Result<Vec<Question>, DBError>)
        ensures
            self.is_closed() ==> (r matches Err(e) && e matches DBError::Other(_)),
            !self.is_closed() ==> (r matches Ok(v) && v@ == self.store()),
    {
        if self.closed {
            return Err(DBError::Other("connection closed".to_owned()));
        }
        let rows = self.questions.clone();
        proof {
            assert(rows@ =~= self.questions@);
        }
        Ok(rows)
    }
}

} // verus!
