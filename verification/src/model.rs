//! The entry model: a word, its details, their explanations and phrases.

use vstd::prelude::*;
use vstd::string::StringExecFns;
use crate::text::{same_text, texts, trim, trimmed};

verus! {

/// The closed set of parts of speech that a detail can carry.
#[derive(Debug, Clone, Copy, PartialEq, Eq, Structural)]
pub enum PartOfSpeech {
    Nouns,
    Pronouns,
    Adjectives,
    Numerals,
    Verb,
    Adverb,
    Preposition,
    Conjunction,
    Interjection,
    Article,
}

/// The canonical string of a part of speech, as the note format spells it.
pub open spec fn canonical_label(p: PartOfSpeech) -> Seq<char> {
    match p {
        PartOfSpeech::Nouns => "nouns"@,
        PartOfSpeech::Pronouns => "pronouns"@,
        PartOfSpeech::Adjectives => "adjective"@,
        PartOfSpeech::Numerals => "num"@,
        PartOfSpeech::Verb => "verb"@,
        PartOfSpeech::Adverb => "adverb"@,
        PartOfSpeech::Preposition => "preposition"@,
        PartOfSpeech::Conjunction => "conjunction"@,
        PartOfSpeech::Interjection => "interjection"@,
        PartOfSpeech::Article => "article"@,
    }
}

impl From<PartOfSpeech> for String {
    /// The canonical string of a part of speech.
    fn from(value: PartOfSpeech) -> (s: String)
        ensures
            s@ == canonical_label(value),
    {
        value.canonical()
    }
}

impl vstd::std_specs::convert::FromSpecImpl<PartOfSpeech> for String {
    open spec fn obeys_from_spec() -> bool {
        false
    }

    open spec fn from_spec(v: PartOfSpeech) -> String {
        arbitrary()
    }
}

/// The part of speech that a raw label of the dictionary page stands for:
/// the label is trimmed and then matched exactly, case-sensitively. Fewer
/// labels are recognized than there are parts of speech.
pub open spec fn recognized(label: Seq<char>) -> Option<PartOfSpeech> {
    let t = trimmed(label);
    if t == "noun"@ {
        Some(PartOfSpeech::Nouns)
    } else if t == "adjective"@ {
        Some(PartOfSpeech::Adjectives)
    } else if t == "verb"@ {
        Some(PartOfSpeech::Verb)
    } else if t == "adverb"@ {
        Some(PartOfSpeech::Adverb)
    } else if t == "number"@ {
        Some(PartOfSpeech::Numerals)
    } else if t == "conjunction"@ {
        Some(PartOfSpeech::Conjunction)
    } else if t == "preposition"@ {
        Some(PartOfSpeech::Preposition)
    } else {
        None
    }
}

/// The error of a raw label that stands for no part of speech.
#[derive(Debug, Clone)]
pub struct UnrecognizedPartOfSpeech {
    /// The label as it was given, untrimmed.
    pub label: String,
}

impl UnrecognizedPartOfSpeech {
    /// The error as a line of text: `Illegal value '<label>'`.
    pub fn message(&self) -> (s: String)
        ensures
            s@ == "Illegal value '"@ + self.label@ + "'"@,
    {
        let mut s = String::from_str("Illegal value '");
        s.append(self.label.as_str());
        s.append("'");
        s
    }
}

impl PartOfSpeech {
    /// Reads a raw label. `Ok` exactly for the recognized labels, with the
    /// part of speech that the label stands for; otherwise the error, which
    /// carries the label unchanged.
    pub fn from_label(label: &str) -> (r: Result<PartOfSpeech, UnrecognizedPartOfSpeech>)
        ensures
            match r {
                Ok(p) => recognized(label@) == Some(p),
                Err(e) => recognized(label@) is None && e.label@ == label@,
            },
    {
        let t = trim(label);
        let t = t.as_str();
        if same_text(t, "noun") {
            Ok(PartOfSpeech::Nouns)
        } else if same_text(t, "adjective") {
            Ok(PartOfSpeech::Adjectives)
        } else if same_text(t, "verb") {
            Ok(PartOfSpeech::Verb)
        } else if same_text(t, "adverb") {
            Ok(PartOfSpeech::Adverb)
        } else if same_text(t, "number") {
            Ok(PartOfSpeech::Numerals)
        } else if same_text(t, "conjunction") {
            Ok(PartOfSpeech::Conjunction)
        } else if same_text(t, "preposition") {
            Ok(PartOfSpeech::Preposition)
        } else {
            Err(UnrecognizedPartOfSpeech { label: label.to_owned() })
        }
    }

    /// The canonical string of this part of speech. Total: every variant has
    /// exactly one.
    pub fn canonical(&self) -> (s: String)
        ensures
            s@ == canonical_label(*self),
    {
        match self {
            PartOfSpeech::Nouns => String::from_str("nouns"),
            PartOfSpeech::Pronouns => String::from_str("pronouns"),
            PartOfSpeech::Adjectives => String::from_str("adjective"),
            PartOfSpeech::Numerals => String::from_str("num"),
            PartOfSpeech::Verb => String::from_str("verb"),
            PartOfSpeech::Adverb => String::from_str("adverb"),
            PartOfSpeech::Preposition => String::from_str("preposition"),
            PartOfSpeech::Conjunction => String::from_str("conjunction"),
            PartOfSpeech::Interjection => String::from_str("interjection"),
            PartOfSpeech::Article => String::from_str("article"),
        }
    }
}

/// A phrase with the sentences that show its use.
#[derive(Debug, Clone)]
pub struct PhraseDetail {
    pub phrase: String,
    pub sentences: Vec<String>,
}

/// One sense of a word: its definition, which may begin with a signpost in
/// square brackets, its example sentences and its phrases.
#[derive(Debug, Clone)]
pub struct ExplanationDetail {
    pub explanation: String,
    pub sentences: Vec<String>,
    pub phrases: Vec<PhraseDetail>,
}

/// One entry of the word under one part of speech.
#[derive(Debug, Clone)]
pub struct WordDetail {
    /// The pronunciation in phonetic symbols; may be empty.
    pub phonetic_symbol: String,
    pub part_of_speech: PartOfSpeech,
    pub explanations: Vec<ExplanationDetail>,
}

/// A dictionary entry: the word that was asked for and its details in the
/// order of the page.
#[derive(Debug, Clone)]
pub struct LongMan {
    pub word: String,
    pub details: Vec<WordDetail>,
}

/// What a [`PhraseDetail`] holds.
pub struct PhraseModel {
    pub phrase: Seq<char>,
    pub sentences: Seq<Seq<char>>,
}

/// What an [`ExplanationDetail`] holds.
pub struct ExplanationModel {
    pub explanation: Seq<char>,
    pub sentences: Seq<Seq<char>>,
    pub phrases: Seq<PhraseModel>,
}

/// What a [`WordDetail`] holds.
pub struct DetailModel {
    pub phonetic_symbol: Seq<char>,
    pub part_of_speech: PartOfSpeech,
    pub explanations: Seq<ExplanationModel>,
}

/// What a [`LongMan`] holds.
pub struct EntryModel {
    pub word: Seq<char>,
    pub details: Seq<DetailModel>,
}

/// Whether a text is as trimming leaves it.
pub open spec fn is_trimmed(s: Seq<char>) -> bool {
    trimmed(s) == s
}

/// Whether each text of `ss` is as trimming leaves it.
pub open spec fn all_trimmed(ss: Seq<Seq<char>>) -> bool {
    forall|i: int| 0 <= i < ss.len() ==> is_trimmed(#[trigger] ss[i])
}

impl PhraseModel {
    /// A phrase as extraction makes it: its text trimmed and not empty, its
    /// sentences trimmed.
    pub open spec fn well_formed(self) -> bool {
        &&& self.phrase.len() > 0
        &&& is_trimmed(self.phrase)
        &&& all_trimmed(self.sentences)
    }
}

impl ExplanationModel {
    /// An explanation as extraction makes it: its text trimmed and not
    /// empty, its sentences trimmed, its phrases well formed.
    pub open spec fn well_formed(self) -> bool {
        &&& self.explanation.len() > 0
        &&& is_trimmed(self.explanation)
        &&& all_trimmed(self.sentences)
        &&& forall|i: int| 0 <= i < self.phrases.len() ==> (#[trigger] self.phrases[i]).well_formed()
    }
}

impl DetailModel {
    /// A detail as extraction makes it: its pronunciation trimmed, and at
    /// least one explanation, each well formed.
    pub open spec fn well_formed(self) -> bool {
        &&& is_trimmed(self.phonetic_symbol)
        &&& self.explanations.len() > 0
        &&& forall|i: int|
            0 <= i < self.explanations.len() ==> (#[trigger] self.explanations[i]).well_formed()
    }
}

impl EntryModel {
    /// An entry as extraction makes it: each detail well formed.
    pub open spec fn well_formed(self) -> bool {
        forall|i: int| 0 <= i < self.details.len() ==> (#[trigger] self.details[i]).well_formed()
    }
}

impl Default for PartOfSpeech {
    /// The part of speech of a detail that names none: adjectives.
    fn default() -> (p: PartOfSpeech)
        ensures
            p == PartOfSpeech::Adjectives,
    {
        PartOfSpeech::Adjectives
    }
}

impl Default for PhraseDetail {
    /// The phrase without text and without sentences.
    fn default() -> (p: PhraseDetail)
        ensures
            p@.phrase.len() == 0,
            p@.sentences.len() == 0,
    {
        PhraseDetail { phrase: String::new(), sentences: Vec::new() }
    }
}

impl Default for ExplanationDetail {
    /// The explanation without text, sentences or phrases.
    fn default() -> (e: ExplanationDetail)
        ensures
            e@.explanation.len() == 0,
            e@.sentences.len() == 0,
            e@.phrases.len() == 0,
    {
        ExplanationDetail { explanation: String::new(), sentences: Vec::new(), phrases: Vec::new() }
    }
}

impl Default for WordDetail {
    /// The detail without pronunciation and explanations, under the default
    /// part of speech.
    fn default() -> (d: WordDetail)
        ensures
            d@.phonetic_symbol.len() == 0,
            d@.part_of_speech == PartOfSpeech::Adjectives,
            d@.explanations.len() == 0,
    {
        WordDetail {
            phonetic_symbol: String::new(),
            part_of_speech: PartOfSpeech::Adjectives,
            explanations: Vec::new(),
        }
    }
}

impl Default for LongMan {
    /// The entry of the empty word, without details.
    fn default() -> (lm: LongMan)
        ensures
            lm@.word.len() == 0,
            lm@.details.len() == 0,
    {
        LongMan { word: String::new(), details: Vec::new() }
    }
}

impl View for PhraseDetail {
    type V = PhraseModel;

    open spec fn view(&self) -> PhraseModel {
        PhraseModel { phrase: self.phrase@, sentences: texts(self.sentences@) }
    }
}

impl View for ExplanationDetail {
    type V = ExplanationModel;

    open spec fn view(&self) -> ExplanationModel {
        ExplanationModel {
            explanation: self.explanation@,
            sentences: texts(self.sentences@),
            phrases: Seq::new(self.phrases@.len(), |i: int| self.phrases@[i]@),
        }
    }
}

impl View for WordDetail {
    type V = DetailModel;

    open spec fn view(&self) -> DetailModel {
        DetailModel {
            phonetic_symbol: self.phonetic_symbol@,
            part_of_speech: self.part_of_speech,
            explanations: Seq::new(self.explanations@.len(), |i: int| self.explanations@[i]@),
        }
    }
}

impl View for LongMan {
    type V = EntryModel;

    open spec fn view(&self) -> EntryModel {
        EntryModel {
            word: self.word@,
            details: Seq::new(self.details@.len(), |i: int| self.details@[i]@),
        }
    }
}

impl TryFrom<String> for PartOfSpeech {
    type Error = UnrecognizedPartOfSpeech;

    /// Reads a raw label, as [`PartOfSpeech::from_label`] does.
    fn try_from(value: String) -> (r: Result<PartOfSpeech, UnrecognizedPartOfSpeech>)
        ensures
            match r {
                Ok(p) => recognized(value@) == Some(p),
                Err(e) => recognized(value@) is None && e.label@ == value@,
            },
    {
        PartOfSpeech::from_label(value.as_str())
    }
}

impl vstd::std_specs::convert::TryFromSpecImpl<String> for PartOfSpeech {
    open spec fn obeys_try_from_spec() -> bool {
        false
    }

    open spec fn try_from_spec(v: String) -> Result<PartOfSpeech, UnrecognizedPartOfSpeech> {
        arbitrary()
    }
}

/// Whether the canonical string of `p` is itself a recognized label.
pub open spec fn reads_back(p: PartOfSpeech) -> bool {
    p == PartOfSpeech::Adjectives || p == PartOfSpeech::Verb || p == PartOfSpeech::Adverb || p
        == PartOfSpeech::Preposition || p == PartOfSpeech::Conjunction
}

/// The canonical string of a part of speech reads back as that part of speech
/// where it is a recognized label, and as nothing otherwise: for nouns and
/// numerals the two tables spell the word differently, and pronouns,
/// interjections and articles have no label at all.
pub proof fn lemma_canonical_recognized(p: PartOfSpeech)
    ensures
        recognized(canonical_label(p)) == if reads_back(p) {
            Some(p)
        } else {
            None::<PartOfSpeech>
        },
{
    reveal_strlit("noun");
    reveal_strlit("adjective");
    reveal_strlit("verb");
    reveal_strlit("adverb");
    reveal_strlit("number");
    reveal_strlit("conjunction");
    reveal_strlit("preposition");
    reveal_strlit("nouns");
    reveal_strlit("pronouns");
    reveal_strlit("num");
    reveal_strlit("interjection");
    reveal_strlit("article");
    let s = canonical_label(p);
    assert(!crate::text::is_space(s[0]));
    assert(!crate::text::is_space(s[s.len() - 1]));
    assert(trimmed(s) =~= s);
}

/// Reading a recognized label, writing the result in its canonical form and
/// reading that again gives the same part of speech, for every recognized
/// label whose part of speech reads back.
pub proof fn lemma_label_round_trip(label: Seq<char>)
    requires
        recognized(label) is Some,
        reads_back(recognized(label).unwrap()),
    ensures
        recognized(canonical_label(recognized(label).unwrap())) == recognized(label),
{
    lemma_canonical_recognized(recognized(label).unwrap());
}

} // verus!
