//! Vocabulary drill for German verbs and nouns: the record model, the rule
//! that decides whether an answer matches a stored form, and the decisions
//! of a quiz session.

pub mod answer;
pub mod cli;
pub mod error;
pub mod layout;
pub mod payload;
pub mod quiz;
pub mod record;
pub mod storage;
pub mod text;
