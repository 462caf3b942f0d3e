use qa_service::handlers::{
    HandlerError, create_answer, create_question, delete_answer, delete_answer_by_path,
    delete_question, delete_question_by_path, map_db_error, read_answers, read_answers_by_path,
    read_questions,
};
use qa_service::ident::EntityId;
use qa_service::models::{Answer, AnswerFields, DBError, QuestionFields, Timestamp};
use qa_service::persistance::answers_dao::{AnswerDAO, DAO as AnswersDaoImpl};
use qa_service::persistance::questions_dao::{DAO as QuestionsDaoImpl, QuestionDAO};

const GENERIC_MSG: &str = "Something went wrong! Please try again.";

#[test]
fn nil_id_formats_as_nil_uuid_text() {
    let s = EntityId::nil().to_uuid_string();
    assert_eq!(s, "00000000-0000-0000-0000-000000000000");
}

#[test]
fn id_formats_as_canonical_hyphenated_text() {
    let id = EntityId::from_value(0x123e4567_e89b_12d3_a456_426614174000u128);
    assert_eq!(id.to_uuid_string(), "123e4567-e89b-12d3-a456-426614174000");
}

#[test]
fn formatted_id_round_trips_through_uuid_parser() {
    let id = EntityId::generate();
    let text = id.to_uuid_string();
    let parsed = uuid::Uuid::parse_str(&text).expect("canonical text must parse");
    assert_eq!(parsed.as_u128(), id.value);
}

#[test]
fn parse_or_nil_accepts_canonical_text() {
    let parsed = EntityId::parse_or_nil("123e4567-e89b-12d3-a456-426614174000");
    assert_eq!(parsed.value, 0x123e4567_e89b_12d3_a456_426614174000u128);
}

#[test]
fn parse_or_nil_coerces_malformed_text_to_nil() {
    assert!(EntityId::parse_or_nil("not-a-uuid").is_nil());
    assert!(EntityId::parse_or_nil("").is_nil());
    assert!(EntityId::parse_or_nil("123e4567-e89b-12d3-a456-42661417400g").is_nil());
}

#[test]
fn parse_or_nil_round_trips_a_generated_id() {
    let id = EntityId::generate();
    assert_eq!(EntityId::parse_or_nil(&id.to_uuid_string()), id);
}

#[test]
fn generated_ids_are_never_nil() {
    for _ in 0..32 {
        assert!(!EntityId::generate().is_nil());
    }
}

#[test]
fn timestamp_from_micros_keeps_the_value() {
    assert_eq!(Timestamp::from_micros(1_000_000_000_000_555).micros, 1_000_000_000_000_555);
}

#[test]
fn answer_new_keeps_detail_and_generates_id() {
    let detail = AnswerFields {
        question_uuid: EntityId::generate(),
        content: "some content".to_owned(),
    };
    let answer = Answer::new(detail.clone());
    assert_eq!(answer.detail, detail);
    assert!(!answer.answer_uuid.is_nil());
}

#[test]
fn map_db_error_passes_client_fault_message_verbatim() {
    let mapped = map_db_error(DBError::InvalidUUID("some message".to_owned()));
    assert_eq!(mapped, HandlerError::BadRequest("some message".to_owned()));
}

#[test]
fn map_db_error_replaces_store_failure_with_generic_message() {
    let mapped = map_db_error(DBError::Other("secret connection detail".to_owned()));
    assert_eq!(mapped, HandlerError::InternalError(GENERIC_MSG.to_owned()));
}

#[test]
fn default_internal_error_carries_the_generic_message() {
    assert_eq!(
        HandlerError::default_internal_error(),
        HandlerError::InternalError(GENERIC_MSG.to_owned())
    );
}

#[test]
fn response_parts_maps_faults_to_statuses() {
    let (status, body) = HandlerError::BadRequest("bad id".to_owned()).response_parts();
    assert_eq!(status, 400);
    assert_eq!(body, "bad id");
    let (status, body) = HandlerError::InternalError(GENERIC_MSG.to_owned()).response_parts();
    assert_eq!(status, 500);
    assert_eq!(body, GENERIC_MSG);
}

#[test]
fn nil_ids_fail_with_client_fault_never_server_fault() {
    let mut questions_dao = QuestionsDaoImpl::new();
    let mut answers_dao = AnswersDaoImpl::new();
    let nil = EntityId::nil();

    let r = create_answer(
        AnswerFields { question_uuid: nil, content: "c".to_owned() },
        &mut answers_dao,
    );
    assert_eq!(
        r.unwrap_err(),
        HandlerError::BadRequest(
            "Invalid question_id: 00000000-0000-0000-0000-000000000000".to_owned()
        )
    );

    let r = delete_question(nil, &mut questions_dao);
    assert_eq!(
        r.unwrap_err(),
        HandlerError::BadRequest(
            "Invalid question id: 00000000-0000-0000-0000-000000000000".to_owned()
        )
    );

    let r = delete_answer(nil, &mut answers_dao);
    assert_eq!(
        r.unwrap_err(),
        HandlerError::BadRequest(
            "Invalid answer id provided: 00000000-0000-0000-0000-000000000000".to_owned()
        )
    );

    let r = read_answers(nil, &answers_dao);
    assert_eq!(
        r.unwrap_err(),
        HandlerError::BadRequest(
            "Invalid question_id: 00000000-0000-0000-0000-000000000000".to_owned()
        )
    );
}

#[test]
fn created_entities_keep_fields_and_get_fresh_id_and_timestamp() {
    let mut questions_dao = QuestionsDaoImpl::new();
    let before = Timestamp::now().micros;
    let q = questions_dao
        .create_question(QuestionFields {
            title: "a title".to_owned(),
            description: "a description".to_owned(),
        })
        .unwrap();
    let after = Timestamp::now().micros;
    assert_eq!(q.detail.title, "a title");
    assert_eq!(q.detail.description, "a description");
    assert!(!q.question_uuid.is_nil());
    assert!(before <= q.created_at.micros && q.created_at.micros <= after);
}

#[test]
fn store_failures_surface_as_server_fault_with_generic_message() {
    let mut questions_dao = QuestionsDaoImpl::new();
    let mut answers_dao = AnswersDaoImpl::new();
    questions_dao.close();
    answers_dao.close();

    let generic = HandlerError::InternalError(GENERIC_MSG.to_owned());

    let r = create_question(
        QuestionFields { title: "t".to_owned(), description: "d".to_owned() },
        &mut questions_dao,
    );
    assert_eq!(r.unwrap_err(), generic);

    let r = read_questions(&questions_dao);
    assert_eq!(r.unwrap_err(), generic);

    let r = delete_question(EntityId::generate(), &mut questions_dao);
    assert_eq!(r.unwrap_err(), generic);

    let r = create_answer(
        AnswerFields { question_uuid: EntityId::generate(), content: "c".to_owned() },
        &mut answers_dao,
    );
    assert_eq!(r.unwrap_err(), generic);

    let r = read_answers(EntityId::generate(), &answers_dao);
    assert_eq!(r.unwrap_err(), generic);

    let r = delete_answer(EntityId::generate(), &mut answers_dao);
    assert_eq!(r.unwrap_err(), generic);
}

#[test]
fn listed_answers_are_exactly_those_of_the_scoping_question() {
    let mut answers_dao = AnswersDaoImpl::new();
    let q1 = EntityId::generate();
    let q2 = EntityId::generate();

    let a1 = answers_dao
        .create_answer(AnswerFields { question_uuid: q1, content: "first".to_owned() })
        .unwrap();
    let a2 = answers_dao
        .create_answer(AnswerFields { question_uuid: q2, content: "second".to_owned() })
        .unwrap();
    let a3 = answers_dao
        .create_answer(AnswerFields { question_uuid: q1, content: "third".to_owned() })
        .unwrap();

    let listed = answers_dao.get_answers(q1).unwrap();
    assert_eq!(listed, vec![a1, a3]);

    let listed = answers_dao.get_answers(q2).unwrap();
    assert_eq!(listed, vec![a2]);
}

#[test]
fn deleted_question_is_not_listed_and_absent_delete_succeeds() {
    let mut questions_dao = QuestionsDaoImpl::new();
    let kept = questions_dao
        .create_question(QuestionFields {
            title: "kept".to_owned(),
            description: "stays".to_owned(),
        })
        .unwrap();
    let doomed = questions_dao
        .create_question(QuestionFields {
            title: "doomed".to_owned(),
            description: "goes".to_owned(),
        })
        .unwrap();

    questions_dao.delete_question(doomed.question_uuid).unwrap();
    let listed = questions_dao.get_questions().unwrap();
    assert_eq!(listed, vec![kept.clone()]);

    // deleting the same identifier again still reports success and changes
    // nothing
    questions_dao.delete_question(doomed.question_uuid).unwrap();
    let listed = questions_dao.get_questions().unwrap();
    assert_eq!(listed, vec![kept]);
}

#[test]
fn malformed_path_segment_surfaces_as_client_fault() {
    let mut questions_dao = QuestionsDaoImpl::new();
    let mut answers_dao = AnswersDaoImpl::new();

    let r = delete_question_by_path("definitely-not-a-uuid", &mut questions_dao);
    assert_eq!(
        r.unwrap_err(),
        HandlerError::BadRequest(
            "Invalid question id: 00000000-0000-0000-0000-000000000000".to_owned()
        )
    );

    let r = read_answers_by_path("", &answers_dao);
    assert_eq!(
        r.unwrap_err(),
        HandlerError::BadRequest(
            "Invalid question_id: 00000000-0000-0000-0000-000000000000".to_owned()
        )
    );

    let r = delete_answer_by_path("123e4567-e89b-12d3-a456-42661417400", &mut answers_dao);
    assert_eq!(
        r.unwrap_err(),
        HandlerError::BadRequest(
            "Invalid answer id provided: 00000000-0000-0000-0000-000000000000".to_owned()
        )
    );
}

#[test]
fn well_formed_path_segment_reaches_the_store() {
    let mut answers_dao = AnswersDaoImpl::new();
    let question_id = EntityId::generate();
    let answer = answers_dao
        .create_answer(AnswerFields { question_uuid: question_id, content: "c".to_owned() })
        .unwrap();

    let listed = read_answers_by_path(&question_id.to_uuid_string(), &answers_dao).unwrap();
    assert_eq!(listed, vec![answer.clone()]);

    delete_answer_by_path(&answer.answer_uuid.to_uuid_string(), &mut answers_dao).unwrap();
    let listed = read_answers_by_path(&question_id.to_uuid_string(), &answers_dao).unwrap();
    assert_eq!(listed, Vec::new());
}

#[test]
fn scenario_question_answer_delete_leaves_empty_list() {
    let mut questions_dao = QuestionsDaoImpl::new();
    let mut answers_dao = AnswersDaoImpl::new();

    let question = create_question(
        QuestionFields { title: "t".to_owned(), description: "d".to_owned() },
        &mut questions_dao,
    )
    .unwrap();
    assert!(!question.question_uuid.is_nil());
    assert_eq!(
        question.detail,
        QuestionFields { title: "t".to_owned(), description: "d".to_owned() }
    );

    let answer = create_answer(
        AnswerFields { question_uuid: question.question_uuid, content: "c".to_owned() },
        &mut answers_dao,
    )
    .unwrap();
    assert_eq!(
        answer.detail,
        AnswerFields { question_uuid: question.question_uuid, content: "c".to_owned() }
    );

    delete_answer(answer.answer_uuid, &mut answers_dao).unwrap();

    let listed = read_answers(question.question_uuid, &answers_dao).unwrap();
    assert_eq!(listed, Vec::new());
}
