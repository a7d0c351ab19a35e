//! Vocabulary records, and how their lists are kept in one column of text.
//!
//! A frequency percentile is a 32-bit binary floating-point number in the
//! stored data. Records here carry its bit pattern, which keeps every value
//! apart and needs no arithmetic.

use vstd::prelude::*;
use crate::text::{
    join_all, lemma_join_split_round_trip, lemma_split_join_round_trip, split_all, split_text,
};

verus! {

/// The character that stands between the items of a list in a column.
pub const LIST_SEPARATOR: char = ';';

/// A record that has a blank form, to stand where no entry was made yet.
pub trait Word: core::fmt::Debug + Sized {
    /// Whether every field of the record is empty, absent, false or zero.
    spec fn is_blank(&self) -> bool;

    /// The blank record.
    fn empty() -> (word: Self)
        ensures
            word.is_blank(),
    ;
}

/// The grammatical gender of a noun.
#[derive(Clone, Copy, Debug, PartialEq, Eq, Structural)]
pub enum Gender {
    Feminine,
    Masculine,
    Neutral,
}

/// A German noun with its English gloss.
#[derive(Clone, Debug, PartialEq)]
pub struct Noun {
    pub de: String,
    pub de_expanded: Option<String>,
    pub de_examples: Option<Vec<String>>,
    pub en: String,
    pub en_expanded: Option<String>,
    pub en_examples: Option<Vec<String>>,
    pub gender: Gender,
    /// Bit pattern of the percentile in the reference corpus.
    pub freq_percentile_bits: u32,
}

/// What a `Noun` holds, as mathematical values.
pub struct NounView {
    pub de: Seq<char>,
    pub de_expanded: Option<Seq<char>>,
    pub de_examples: Option<Seq<Seq<char>>>,
    pub en: Seq<char>,
    pub en_expanded: Option<Seq<char>>,
    pub en_examples: Option<Seq<Seq<char>>>,
    pub gender: Gender,
    pub freq_percentile_bits: u32,
}

/// A German verb with its English gloss and its conjugated forms.
///
/// `de_forms` is addressed by position: 1 is the present tense, 2 the
/// preterite, 3 the perfect participle; position 0 is not used.
#[derive(Clone, Debug, PartialEq)]
pub struct Verb {
    pub de: String,
    pub de_expanded: Option<String>,
    pub de_examples: Option<Vec<String>>,
    pub de_forms: Vec<String>,
    pub en: String,
    pub en_expanded: Option<String>,
    pub en_examples: Option<Vec<String>>,
    pub irregular: bool,
    /// Bit pattern of the percentile in the reference corpus.
    pub freq_percentile_bits: u32,
}

/// What a `Verb` holds, as mathematical values.
pub struct VerbView {
    pub de: Seq<char>,
    pub de_expanded: Option<Seq<char>>,
    pub de_examples: Option<Seq<Seq<char>>>,
    pub de_forms: Seq<Seq<char>>,
    pub en: Seq<char>,
    pub en_expanded: Option<Seq<char>>,
    pub en_examples: Option<Seq<Seq<char>>>,
    pub irregular: bool,
    pub freq_percentile_bits: u32,
}

/// A verb as one row of the table `verbs`: each list is one text, its items
/// joined by `LIST_SEPARATOR`.
#[derive(Clone, Debug, PartialEq)]
pub struct VerbRow {
    pub de: String,
    pub de_expanded: Option<String>,
    pub de_examples: Option<String>,
    pub de_forms: String,
    pub en: String,
    pub en_expanded: Option<String>,
    pub en_examples: Option<String>,
    pub irregular: bool,
    pub freq_percentile_bits: u32,
}

/// What a `VerbRow` holds, as mathematical values.
pub struct VerbRowView {
    pub de: Seq<char>,
    pub de_expanded: Option<Seq<char>>,
    pub de_examples: Option<Seq<char>>,
    pub de_forms: Seq<char>,
    pub en: Seq<char>,
    pub en_expanded: Option<Seq<char>>,
    pub en_examples: Option<Seq<char>>,
    pub irregular: bool,
    pub freq_percentile_bits: u32,
}

/// The records of one request to insert or replace: all verbs or all nouns.
#[derive(Debug, PartialEq)]
pub enum UpsertPayload {
    Noun(Vec<Noun>),
    Verb(Vec<Verb>),
}

impl View for Noun {
    type V = NounView;

    open spec fn view(&self) -> NounView {
        NounView {
            de: self.de@,
            de_expanded: self.de_expanded.deep_view(),
            de_examples: self.de_examples.deep_view(),
            en: self.en@,
            en_expanded: self.en_expanded.deep_view(),
            en_examples: self.en_examples.deep_view(),
            gender: self.gender,
            freq_percentile_bits: self.freq_percentile_bits,
        }
    }
}

impl DeepView for Noun {
    type V = NounView;

    open spec fn deep_view(&self) -> NounView {
        self@
    }
}

impl View for Verb {
    type V = VerbView;

    open spec fn view(&self) -> VerbView {
        VerbView {
            de: self.de@,
            de_expanded: self.de_expanded.deep_view(),
            de_examples: self.de_examples.deep_view(),
            de_forms: self.de_forms.deep_view(),
            en: self.en@,
            en_expanded: self.en_expanded.deep_view(),
            en_examples: self.en_examples.deep_view(),
            irregular: self.irregular,
            freq_percentile_bits: self.freq_percentile_bits,
        }
    }
}

impl DeepView for Verb {
    type V = VerbView;

    open spec fn deep_view(&self) -> VerbView {
        self@
    }
}

impl View for VerbRow {
    type V = VerbRowView;

    open spec fn view(&self) -> VerbRowView {
        VerbRowView {
            de: self.de@,
            de_expanded: self.de_expanded.deep_view(),
            de_examples: self.de_examples.deep_view(),
            de_forms: self.de_forms@,
            en: self.en@,
            en_expanded: self.en_expanded.deep_view(),
            en_examples: self.en_examples.deep_view(),
            irregular: self.irregular,
            freq_percentile_bits: self.freq_percentile_bits,
        }
    }
}

impl DeepView for VerbRow {
    type V = VerbRowView;

    open spec fn deep_view(&self) -> VerbRowView {
        self@
    }
}

/// A list as it is written into a column.
pub open spec fn encode_list(items: Seq<Seq<char>>) -> Seq<char> {
    join_all(items, LIST_SEPARATOR)
}

/// The list that a column's text stands for.
pub open spec fn decode_list(text: Seq<char>) -> Seq<Seq<char>> {
    split_all(text, LIST_SEPARATOR)
}

/// Whether a list comes back unchanged from a column: it has an item, and
/// no item holds the separator.
pub open spec fn list_storable(items: Seq<Seq<char>>) -> bool {
    &&& items.len() > 0
    &&& forall|i: int| 0 <= i < items.len() ==> !(#[trigger] items[i]).contains(LIST_SEPARATOR)
}

/// Whether each list of a verb comes back unchanged from its column.
pub open spec fn verb_storable(verb: VerbView) -> bool {
    &&& list_storable(verb.de_forms)
    &&& verb.de_examples matches Some(items) ==> list_storable(items)
    &&& verb.en_examples matches Some(items) ==> list_storable(items)
}

/// A list that may be absent, as it is written into a column.
pub open spec fn encode_opt_list(items: Option<Seq<Seq<char>>>) -> Option<Seq<char>> {
    match items {
        Some(items) => Some(encode_list(items)),
        None => None,
    }
}

/// The list that a column's text stands for, where the column is not null.
pub open spec fn decode_opt_list(text: Option<Seq<char>>) -> Option<Seq<Seq<char>>> {
    match text {
        Some(text) => Some(decode_list(text)),
        None => None,
    }
}

/// The row that stores a verb.
pub open spec fn encode_verb(verb: VerbView) -> VerbRowView {
    VerbRowView {
        de: verb.de,
        de_expanded: verb.de_expanded,
        de_examples: encode_opt_list(verb.de_examples),
        de_forms: encode_list(verb.de_forms),
        en: verb.en,
        en_expanded: verb.en_expanded,
        en_examples: encode_opt_list(verb.en_examples),
        irregular: verb.irregular,
        freq_percentile_bits: verb.freq_percentile_bits,
    }
}

/// The verb that a row stores.
pub open spec fn decode_row(row: VerbRowView) -> VerbView {
    VerbView {
        de: row.de,
        de_expanded: row.de_expanded,
        de_examples: decode_opt_list(row.de_examples),
        de_forms: decode_list(row.de_forms),
        en: row.en,
        en_expanded: row.en_expanded,
        en_examples: decode_opt_list(row.en_examples),
        irregular: row.irregular,
        freq_percentile_bits: row.freq_percentile_bits,
    }
}

/// The blank verb: no text, no list, regular, percentile zero.
pub open spec fn blank_verb() -> VerbView {
    VerbView {
        de: Seq::empty(),
        de_expanded: None,
        de_examples: None,
        de_forms: Seq::empty(),
        en: Seq::empty(),
        en_expanded: None,
        en_examples: None,
        irregular: false,
        freq_percentile_bits: 0,
    }
}

/// The blank noun: no text, no list, neuter, percentile zero.
pub open spec fn blank_noun() -> NounView {
    NounView {
        de: Seq::empty(),
        de_expanded: None,
        de_examples: None,
        en: Seq::empty(),
        en_expanded: None,
        en_examples: None,
        gender: Gender::Neutral,
        freq_percentile_bits: 0,
    }
}

/// A list written into a column and read back is the same list, provided it
/// has an item and no item holds the separator.
pub proof fn lemma_list_round_trip(items: Seq<Seq<char>>)
    requires
        list_storable(items),
    ensures
        decode_list(encode_list(items)) == items,
{
    lemma_split_join_round_trip(items, LIST_SEPARATOR);
}

/// A column's text read as a list and written back is the same text, and
/// the list read from it is one that comes back unchanged.
pub proof fn lemma_column_round_trip(text: Seq<char>)
    ensures
        encode_list(decode_list(text)) == text,
        list_storable(decode_list(text)),
{
    lemma_join_split_round_trip(text, LIST_SEPARATOR);
}

/// A verb written as a row and read back is the same verb, provided each of
/// its lists comes back unchanged.
pub proof fn lemma_verb_round_trip(verb: VerbView)
    requires
        verb_storable(verb),
    ensures
        decode_row(encode_verb(verb)) == verb,
{
    lemma_list_round_trip(verb.de_forms);
    if let Some(items) = verb.de_examples {
        lemma_list_round_trip(items);
    }
    if let Some(items) = verb.en_examples {
        lemma_list_round_trip(items);
    }
}

/// Joining a list that has one more item at its end.
proof fn lemma_join_push(items: Seq<Seq<char>>, last: Seq<char>, sep: char)
    ensures
        join_all(items.push(last), sep) == if items.len() == 0 {
            last
        } else {
            join_all(items, sep) + seq![sep] + last
        },
    decreases items.len(),
{
    let all = items.push(last);
    if items.len() == 0 {
    } else {
        let rest = items.drop_first();
        assert(all.drop_first() =~= rest.push(last));
        lemma_join_push(rest, last, sep);
        assert(join_all(all, sep) =~= join_all(items, sep) + seq![sep] + last);
    }
}

/// Joins the items of a list into the text of one column.
pub fn join_strings(items: &Vec<String>) -> (text: String)
    ensures
        text@ == encode_list(items.deep_view()),
{
    let mut text = String::new();
    let mut i: usize = 0;
    while i < items.len()
        invariant
            i <= items.len(),
            text@ == encode_list(items.deep_view().subrange(0, i as int)),
        decreases items.len() - i,
    {
        proof {
            let done = items.deep_view().subrange(0, i as int);
            lemma_join_push(done, items[i as int]@, LIST_SEPARATOR);
            assert(items.deep_view().subrange(0, i + 1) =~= done.push(items[i as int]@));
            reveal_strlit(";");
        }
        if i > 0 {
            text.append(";");
        }
        text.append(items[i].as_str());
        proof {
            assert(text@ =~= encode_list(items.deep_view().subrange(0, i + 1)));
        }
        i += 1;
    }
    proof {
        assert(items.deep_view().subrange(0, i as int) =~= items.deep_view());
    }
    text
}

/// Joins a list that may be absent.
pub fn join_opt_strings(items: &Option<Vec<String>>) -> (text: Option<String>)
    ensures
        text.deep_view() == encode_opt_list(items.deep_view()),
{
    match items {
        Some(items) => Some(join_strings(items)),
        None => None,
    }
}

/// Reads the text of a column that may be null as a list.
pub fn split_opt_string(opt_str: Option<String>) -> (items: Option<Vec<String>>)
    ensures
        items.deep_view() == decode_opt_list(opt_str.deep_view()),
{
    match opt_str {
        Some(text) => Some(split_text(text.as_str(), LIST_SEPARATOR)),
        None => None,
    }
}

/// A copy of a text that may be absent.
fn copy_opt_text(text: &Option<String>) -> (copy: Option<String>)
    ensures
        copy.deep_view() == text.deep_view(),
{
    match text {
        Some(text) => Some(text.clone()),
        None => None,
    }
}

impl Word for Noun {
    open spec fn is_blank(&self) -> bool {
        self@ == blank_noun()
    }

    fn empty() -> (word: Self) {
        Noun {
            de: String::new(),
            de_expanded: None,
            de_examples: None,
            en: String::new(),
            en_expanded: None,
            en_examples: None,
            gender: Gender::Neutral,
            freq_percentile_bits: 0,
        }
    }
}

impl Word for Verb {
    open spec fn is_blank(&self) -> bool {
        self@ == blank_verb()
    }

    fn empty() -> (word: Self) {
        let word = Verb {
            de: String::new(),
            de_expanded: None,
            de_examples: None,
            de_forms: Vec::new(),
            en: String::new(),
            en_expanded: None,
            en_examples: None,
            irregular: false,
            freq_percentile_bits: 0,
        };
        assert(word.de_forms.deep_view() =~= Seq::empty());
        word
    }
}

impl Verb {
    /// Reads a verb from its row: the lists are split at the separator,
    /// everything else is taken as it is.
    pub fn from_row(row: &VerbRow) -> (verb: Verb)
        ensures
            verb@ == decode_row(row@),
    {
        Verb {
            de: row.de.clone(),
            de_expanded: copy_opt_text(&row.de_expanded),
            de_examples: split_opt_string(copy_opt_text(&row.de_examples)),
            de_forms: split_text(row.de_forms.as_str(), LIST_SEPARATOR),
            en: row.en.clone(),
            en_expanded: copy_opt_text(&row.en_expanded),
            en_examples: split_opt_string(copy_opt_text(&row.en_examples)),
            irregular: row.irregular,
            freq_percentile_bits: row.freq_percentile_bits,
        }
    }

    /// Writes the verb as a row: the lists are joined with the separator,
    /// everything else is taken as it is.
    pub fn to_row(&self) -> (row: VerbRow)
        ensures
            row@ == encode_verb(self@),
    {
        VerbRow {
            de: self.de.clone(),
            de_expanded: copy_opt_text(&self.de_expanded),
            de_examples: join_opt_strings(&self.de_examples),
            de_forms: join_strings(&self.de_forms),
            en: self.en.clone(),
            en_expanded: copy_opt_text(&self.en_expanded),
            en_examples: join_opt_strings(&self.en_examples),
            irregular: self.irregular,
            freq_percentile_bits: self.freq_percentile_bits,
        }
    }
}

/// What an `UpsertPayload` holds, as mathematical values.
pub enum UpsertPayloadView {
    Noun(Seq<NounView>),
    Verb(Seq<VerbView>),
}

impl View for UpsertPayload {
    type V = UpsertPayloadView;

    open spec fn view(&self) -> UpsertPayloadView {
        match self {
            UpsertPayload::Noun(nouns) => UpsertPayloadView::Noun(nouns.deep_view()),
            UpsertPayload::Verb(verbs) => UpsertPayloadView::Verb(verbs.deep_view()),
        }
    }
}

/// Reads the verbs of the rows that a query gave, in the order given.
pub fn verbs_from_rows(rows: &Vec<VerbRow>) -> (verbs: Vec<Verb>)
    ensures
        verbs.len() == rows.len(),
        forall|i: int| 0 <= i < rows.len() ==> (#[trigger] verbs[i])@ == decode_row(rows[i]@),
{
    let mut verbs: Vec<Verb> = Vec::new();
    let mut i: usize = 0;
    while i < rows.len()
        invariant
            i <= rows.len(),
            verbs.len() == i,
            forall|k: int| 0 <= k < i ==> (#[trigger] verbs[k])@ == decode_row(rows[k]@),
        decreases rows.len() - i,
    {
        verbs.push(Verb::from_row(&rows[i]));
        i += 1;
    }
    verbs
}

/// Writes the rows that store the verbs given, in the order given.
pub fn rows_from_verbs(verbs: &Vec<Verb>) -> (rows: Vec<VerbRow>)
    ensures
        rows.len() == verbs.len(),
        forall|i: int| 0 <= i < verbs.len() ==> (#[trigger] rows[i])@ == encode_verb(verbs[i]@),
{
    let mut rows: Vec<VerbRow> = Vec::new();
    let mut i: usize = 0;
    while i < verbs.len()
        invariant
            i <= verbs.len(),
            rows.len() == i,
            forall|k: int| 0 <= k < i ==> (#[trigger] rows[k])@ == encode_verb(verbs[k]@),
        decreases verbs.len() - i,
    {
        rows.push(verbs[i].to_row());
        i += 1;
    }
    rows
}

} // verus!
