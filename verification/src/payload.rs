//! Where the records of an upsert come from, and what is written for them.

use vstd::prelude::*;
use crate::error::AppError;
use crate::record::{
    blank_verb, encode_verb, rows_from_verbs, UpsertPayload, UpsertPayloadView, Verb, VerbRow,
    Word,
};
use crate::text::{same_text, split_first, split_raw_word};

verus! {

/// The payload that stands for an entry not made yet: one blank verb.
pub open spec fn placeholder() -> UpsertPayloadView {
    UpsertPayloadView::Verb(seq![blank_verb()])
}

/// Whether a payload argument names a JSON file: what stands between its
/// first and its second dot, or behind its first dot where there is no
/// second, is `json`.
pub open spec fn names_json_file(input: Seq<char>) -> bool {
    split_first(input, '.').1 == Some("json"@)
}

/// Where the records of an upsert come from.
#[derive(Debug, PartialEq)]
pub enum PayloadSource {
    /// They are here.
    Ready(UpsertPayload),
    /// They are to be read from the JSON file at this path.
    JsonFile(String),
}

/// What an upsert writes.
#[derive(Debug, PartialEq)]
pub enum UpsertPlan {
    /// These rows, one statement each, in this order.
    WriteVerbs(Vec<VerbRow>),
    /// Nothing: the payload holds this many nouns, and nouns have no table
    /// yet.
    SkipNouns(usize),
}

/// The placeholder payload.
pub fn placeholder_payload() -> (payload: UpsertPayload)
    ensures
        payload@ == placeholder(),
{
    let mut verbs: Vec<Verb> = Vec::new();
    verbs.push(Verb::empty());
    proof {
        assert(verbs.deep_view() =~= seq![blank_verb()]);
    }
    UpsertPayload::Verb(verbs)
}

/// The payload of an upsert without an argument. Entry by prompt is not
/// there yet: this gives the placeholder.
pub fn get_upsert_payload_from_prompt() -> (payload: Result<UpsertPayload, AppError>)
    ensures
        payload matches Ok(records) && records@ == placeholder(),
{
    Ok(placeholder_payload())
}

/// The payload of an upsert whose argument is inline text. No grammar for
/// such text is defined yet: this gives the placeholder, whatever the text.
pub fn parse_raw_upsert_payload(raw_payload: String) -> (payload: Result<UpsertPayload, AppError>)
    ensures
        payload matches Ok(records) && records@ == placeholder(),
{
    Ok(placeholder_payload())
}

/// Whether `input` names a JSON file.
pub fn is_json_file_name(input: &str) -> (named: bool)
    ensures
        named == names_json_file(input@),
{
    let (_, extension) = split_raw_word(input, '.');
    match extension {
        Some(extension) => same_text(extension, "json"),
        None => false,
    }
}

/// Accepts the name of a file to read a payload from, or refuses it as an
/// unrecognized type of file.
pub fn accept_payload_file(file: &str) -> (checked: Result<(), AppError>)
    ensures
        checked is Ok == names_json_file(file@),
        checked matches Err(error) ==> error matches AppError::CmdError(text) && text@
            == "unrecognized filetype"@,
{
    if is_json_file_name(file) {
        Ok(())
    } else {
        Err(AppError::CmdError("unrecognized filetype".to_owned()))
    }
}

/// Decides where the records of an upsert come from: the file, where the
/// argument names a JSON file; else the placeholder, with or without an
/// argument. As long as entry by prompt and inline text both give the
/// placeholder, this never fails.
pub fn resolve_payload(input: Option<String>) -> (source: Result<PayloadSource, AppError>)
    ensures
        match input {
            Some(text) if names_json_file(text@) => source matches Ok(PayloadSource::JsonFile(path))
                && path@ == text@,
            _ => source matches Ok(PayloadSource::Ready(records)) && records@ == placeholder(),
        },
{
    let records = match input {
        Some(text) => {
            if is_json_file_name(text.as_str()) {
                return Ok(PayloadSource::JsonFile(text));
            }
            parse_raw_upsert_payload(text)
        },
        None => get_upsert_payload_from_prompt(),
    };
    match records {
        Ok(records) => Ok(PayloadSource::Ready(records)),
        Err(error) => Err(error),
    }
}

/// Decides what an upsert writes: a row for each verb, in order, and
/// nothing for nouns.
pub fn plan_upsert(payload: &UpsertPayload) -> (plan: UpsertPlan)
    ensures
        match payload {
            UpsertPayload::Verb(verbs) => plan matches UpsertPlan::WriteVerbs(rows) && rows.len()
                == verbs.len() && forall|i: int|
                0 <= i < verbs.len() ==> (#[trigger] rows[i])@ == encode_verb(verbs[i]@),
            UpsertPayload::Noun(nouns) => plan matches UpsertPlan::SkipNouns(count) && count
                == nouns.len(),
        },
{
    match payload {
        UpsertPayload::Verb(verbs) => UpsertPlan::WriteVerbs(rows_from_verbs(verbs)),
        UpsertPayload::Noun(nouns) => UpsertPlan::SkipNouns(nouns.len()),
    }
}

} // verus!
