//! The note payload of an entry: fourteen fields in a fixed order, written
//! as a JSON array inside the wrapper that the note service expects.

use vstd::prelude::*;
use vstd::string::StringExecFns;
use crate::model::{canonical_label, DetailModel, EntryModel, ExplanationDetail, LongMan, PhraseDetail, PhraseModel, WordDetail};
use crate::text::texts;

verus! {

/// How many details a note has room for.
pub const SLOTS: usize = 3;

/// Why an entry has no payload.
#[derive(Debug, Clone, Copy, PartialEq, Eq, Structural)]
pub enum EncodeError {
    /// The first explanation of the detail at this index has no example
    /// sentence.
    MissingExampleSentence { detail: usize },
}

/// The text of one decimal digit.
pub open spec fn digit_text(d: nat) -> Seq<char> {
    if d == 0 {
        "0"@
    } else if d == 1 {
        "1"@
    } else if d == 2 {
        "2"@
    } else if d == 3 {
        "3"@
    } else if d == 4 {
        "4"@
    } else if d == 5 {
        "5"@
    } else if d == 6 {
        "6"@
    } else if d == 7 {
        "7"@
    } else if d == 8 {
        "8"@
    } else {
        "9"@
    }
}

/// A number in decimal, without leading zeros.
pub open spec fn decimal(n: nat) -> Seq<char>
    decreases n,
{
    if n < 10 {
        digit_text(n)
    } else {
        decimal(n / 10) + digit_text(n % 10)
    }
}

/// The four fields of a slot that holds no detail.
pub open spec fn empty_slot() -> Seq<Seq<char>> {
    seq![Seq::empty(), Seq::empty(), Seq::empty(), Seq::empty()]
}

/// Two texts with a line break between them.
pub open spec fn with_break(a: Seq<char>, b: Seq<char>) -> Seq<char> {
    a + "<br/>"@ + b
}

/// The phrase field of a slot: the first phrase and its first sentence with
/// a line break between them, the sentence empty where the phrase has none;
/// empty where there is no phrase.
pub open spec fn phrase_field(phrases: Seq<PhraseModel>) -> Seq<char> {
    if phrases.len() == 0 {
        Seq::empty()
    } else {
        let p = phrases[0];
        with_break(
            p.phrase,
            if p.sentences.len() > 0 {
                p.sentences[0]
            } else {
                Seq::empty()
            },
        )
    }
}

/// Whether a detail cannot be encoded: it has a first explanation, and that
/// explanation has no example sentence.
pub open spec fn lacks_sentence(d: DetailModel) -> bool {
    d.explanations.len() > 0 && d.explanations[0].sentences.len() == 0
}

/// The four fields of the slot of a detail: its part of speech, the first
/// example sentence of its first explanation, the phrase field of that
/// explanation, and the pronunciation and the explanation's text with a line
/// break between them. A detail without explanations fills its slot like no
/// detail at all.
pub open spec fn slot_fields(d: DetailModel) -> Seq<Seq<char>> {
    if d.explanations.len() == 0 {
        empty_slot()
    } else {
        let e = d.explanations[0];
        seq![
            canonical_label(d.part_of_speech),
            e.sentences[0],
            phrase_field(e.phrases),
            with_break(d.phonetic_symbol, e.explanation),
        ]
    }
}

/// The four fields of slot `i` of an entry.
pub open spec fn slot(e: EntryModel, i: int) -> Seq<Seq<char>> {
    if 0 <= i < e.details.len() {
        slot_fields(e.details[i])
    } else {
        empty_slot()
    }
}

/// The index of the first detail among the first `upto` that cannot be
/// encoded, if there is one.
pub open spec fn first_lacking(e: EntryModel, upto: int) -> Option<int>
    decreases upto,
{
    if upto <= 0 {
        None
    } else {
        match first_lacking(e, upto - 1) {
            Some(i) => Some(i),
            None => if upto - 1 < e.details.len() && lacks_sentence(e.details[upto - 1]) {
                Some(upto - 1)
            } else {
                None
            },
        }
    }
}

/// The fourteen fields of an entry's note: the word, the number of its
/// details in decimal, and the three slots.
pub open spec fn note_fields(e: EntryModel) -> Seq<Seq<char>> {
    seq![e.word, decimal(e.details.len())] + slot(e, 0) + slot(e, 1) + slot(e, 2)
}

/// The payload around the JSON text of the fields: a JSON array of that
/// array and an empty string.
pub open spec fn payload_text(json: Seq<char>) -> Seq<char> {
    "["@ + json + ",\"\"]"@
}

/// The JSON text of an array of strings as `serde_json` writes it.
pub uninterp spec fn json_text(fields: Seq<Seq<char>>) -> Seq<char>;

/// `serde_json::to_string` on a vector of strings: the JSON text of the
/// array, which depends on the strings alone. Writing strings into memory
/// has no error to report, so a text always comes back.
#[verifier::external_body]
fn json_array(fields: &Vec<String>) -> (r: String)
    ensures
        r@ == json_text(texts(fields@)),
{
    serde_json::to_string(fields).unwrap_or_default()
}

/// Writes `n` in decimal.
pub fn decimal_string(n: usize) -> (s: String)
    ensures
        s@ == decimal(n as nat),
    decreases n,
{
    let d: usize = n % 10;
    let digit: &str = if d == 0 {
        "0"
    } else if d == 1 {
        "1"
    } else if d == 2 {
        "2"
    } else if d == 3 {
        "3"
    } else if d == 4 {
        "4"
    } else if d == 5 {
        "5"
    } else if d == 6 {
        "6"
    } else if d == 7 {
        "7"
    } else if d == 8 {
        "8"
    } else {
        "9"
    };
    if n < 10 {
        String::from_str(digit)
    } else {
        let mut s = decimal_string(n / 10);
        s.append(digit);
        s
    }
}

/// Joins two texts with a line break.
pub fn join_with_break(a: &str, b: &str) -> (s: String)
    ensures
        s@ == with_break(a@, b@),
{
    let mut s = String::from_str(a);
    s.append("<br/>");
    s.append(b);
    s
}

/// The phrase field of a slot.
pub fn phrase_field_of(phrases: &Vec<PhraseDetail>) -> (s: String)
    ensures
        s@ == phrase_field(crate::extract::phrase_models(phrases@)),
{
    if phrases.len() == 0 {
        String::new()
    } else {
        let p = &phrases[0];
        if p.sentences.len() > 0 {
            join_with_break(p.phrase.as_str(), p.sentences[0].as_str())
        } else {
            let r = join_with_break(p.phrase.as_str(), "");
            proof {
                reveal_strlit("");
                assert("<br/>"@ + ""@ =~= "<br/>"@);
                assert(p.phrase@ + "<br/>"@ + ""@ =~= p.phrase@ + "<br/>"@ + Seq::<char>::empty());
            }
            r
        }
    }
}

/// Four empty fields.
pub fn empty_slot_fields() -> (v: Vec<String>)
    ensures
        texts(v@) == empty_slot(),
{
    let mut v: Vec<String> = Vec::new();
    v.push(String::new());
    v.push(String::new());
    v.push(String::new());
    v.push(String::new());
    assert(texts(v@) =~= empty_slot());
    v
}

/// The four fields of the slot of a detail; `None` exactly where the detail
/// cannot be encoded.
pub fn detail_slot(d: &WordDetail) -> (r: Option<Vec<String>>)
    ensures
        match r {
            Some(v) => !lacks_sentence(d@) && texts(v@) == slot_fields(d@),
            None => lacks_sentence(d@),
        },
{
    if d.explanations.len() == 0 {
        Some(empty_slot_fields())
    } else {
        let e: &ExplanationDetail = &d.explanations[0];
        assert(d@.explanations[0] == e@);
        if e.sentences.len() == 0 {
            None
        } else {
            let mut v: Vec<String> = Vec::new();
            v.push(d.part_of_speech.canonical());
            v.push(e.sentences[0].clone());
            v.push(phrase_field_of(&e.phrases));
            v.push(join_with_break(d.phonetic_symbol.as_str(), e.explanation.as_str()));
            assert(e@.phrases == crate::extract::phrase_models(e.phrases@));
            assert(texts(v@) =~= slot_fields(d@));
            Some(v)
        }
    }
}

/// The four fields of slot `i` of an entry; `None` exactly where the entry
/// has a detail at `i` that cannot be encoded.
pub fn entry_slot(lm: &LongMan, i: usize) -> (r: Option<Vec<String>>)
    ensures
        match r {
            Some(v) => texts(v@) == slot(lm@, i as int) && !(i < lm@.details.len()
                && lacks_sentence(lm@.details[i as int])),
            None => i < lm@.details.len() && lacks_sentence(lm@.details[i as int]),
        },
{
    if i < lm.details.len() {
        assert(lm@.details[i as int] == lm.details@[i as int]@);
        detail_slot(&lm.details[i])
    } else {
        Some(empty_slot_fields())
    }
}

/// The fourteen fields of the note of an entry. `Ok` exactly where each of
/// the first three details can be encoded; otherwise the error names the
/// first that cannot.
pub fn encode_fields(lm: &LongMan) -> (r: Result<Vec<String>, EncodeError>)
    ensures
        match r {
            Ok(v) => first_lacking(lm@, SLOTS as int) is None && texts(v@) == note_fields(lm@)
                && v@.len() == 14,
            Err(e) => e matches EncodeError::MissingExampleSentence { detail } && detail < SLOTS
                && first_lacking(lm@, SLOTS as int) == Some(detail as int),
        },
{
    let mut fields: Vec<String> = Vec::new();
    fields.push(lm.word.clone());
    fields.push(decimal_string(lm.details.len()));
    assert(first_lacking(lm@, 0) is None);
    let mut i: usize = 0;
    let ghost head = seq![lm@.word, decimal(lm@.details.len())];
    assert(texts(fields@) =~= head);
    let ghost mut done: Seq<Seq<char>> = head;
    while i < SLOTS
        invariant
            0 <= i <= SLOTS,
            first_lacking(lm@, i as int) is None,
            texts(fields@) == done,
            head == seq![lm@.word, decimal(lm@.details.len())],
            i == 0 ==> done == head,
            i == 1 ==> done == head + slot(lm@, 0),
            i == 2 ==> done == head + slot(lm@, 0) + slot(lm@, 1),
            i == 3 ==> done == head + slot(lm@, 0) + slot(lm@, 1) + slot(lm@, 2),
        decreases SLOTS - i,
    {
        match entry_slot(lm, i) {
            None => {
                assert(first_lacking(lm@, i + 1) == Some(i as int));
                assert(first_lacking(lm@, 3) == Some(i as int)) by {
                    reveal_with_fuel(first_lacking, 4);
                }
                return Err(EncodeError::MissingExampleSentence { detail: i });
            },
            Some(mut v) => {
                let ghost before = texts(fields@);
                let ghost added = texts(v@);
                fields.append(&mut v);
                assert(texts(fields@) =~= before + added);
                proof {
                    done = done + added;
                }
                assert(first_lacking(lm@, i + 1) is None);
            },
        }
        i = i + 1;
    }
    proof {
        lemma_fourteen_fields(lm@);
        assert(texts(fields@).len() == fields@.len());
    }
    Ok(fields)
}

/// Puts the payload's wrapper around the JSON text of the fields.
pub fn wrap_payload(json: &str) -> (s: String)
    ensures
        s@ == payload_text(json@),
{
    let mut s = String::from_str("[");
    s.append(json);
    s.append(",\"\"]");
    s
}

/// What [`convert_e2e`] returns for an entry: the wrapped JSON text of its
/// fields, or the error that names the first detail that cannot be encoded.
pub open spec fn payload_of(e: EntryModel) -> Result<Seq<char>, EncodeError> {
    match first_lacking(e, SLOTS as int) {
        Some(i) => Err(EncodeError::MissingExampleSentence { detail: i as usize }),
        None => Ok(payload_text(json_text(note_fields(e)))),
    }
}

/// Encodes an entry as the payload of its note: the JSON array of its
/// fourteen fields, wrapped. It fails exactly where one of the first three
/// details has a first explanation without an example sentence, and names
/// the first such detail.
pub fn convert_e2e(lm: LongMan) -> (r: Result<String, EncodeError>)
    ensures
        match r {
            Ok(s) => payload_of(lm@) == Ok::<Seq<char>, EncodeError>(s@),
            Err(e) => payload_of(lm@) == Err::<Seq<char>, EncodeError>(e),
        },
{
    match encode_fields(&lm) {
        Err(e) => Err(e),
        Ok(fields) => Ok(wrap_payload(json_array(&fields).as_str())),
    }
}

/// A note has fourteen fields, whatever the entry holds.
pub proof fn lemma_fourteen_fields(e: EntryModel)
    ensures
        note_fields(e).len() == 14,
{
}

/// The note of an entry without details: the word, the count `0` and twelve
/// empty fields. Such an entry can always be encoded.
pub proof fn lemma_note_without_details(e: EntryModel)
    requires
        e.details.len() == 0,
    ensures
        first_lacking(e, SLOTS as int) is None,
        note_fields(e) == seq![e.word, "0"@] + Seq::new(12, |i: int| Seq::<char>::empty()),
{
    reveal_with_fuel(first_lacking, 4);
    assert(note_fields(e) =~= seq![e.word, "0"@] + Seq::new(12, |i: int| Seq::<char>::empty()));
}

/// Only the first three details are encoded: two entries with the same word,
/// as many details as each other and the same details in the first three
/// places have the same note and the same payload, whatever else they hold.
pub proof fn lemma_only_first_three(a: EntryModel, b: EntryModel)
    requires
        a.word == b.word,
        a.details.len() == b.details.len(),
        forall|i: int| 0 <= i < SLOTS && i < a.details.len() ==> a.details[i] == b.details[i],
    ensures
        first_lacking(a, SLOTS as int) == first_lacking(b, SLOTS as int),
        note_fields(a) == note_fields(b),
        payload_of(a) == payload_of(b),
{
    reveal_with_fuel(first_lacking, 4);
    assert(slot(a, 0) == slot(b, 0));
    assert(slot(a, 1) == slot(b, 1));
    assert(slot(a, 2) == slot(b, 2));
}

/// Encoding is a function of the entry: equal entries have equal payloads,
/// and fail alike.
pub proof fn lemma_encoding_deterministic(a: EntryModel, b: EntryModel)
    requires
        a == b,
    ensures
        payload_of(a) == payload_of(b),
{
}

} // verus!
