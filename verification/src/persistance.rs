pub mod answers_dao;
pub mod questions_dao;
