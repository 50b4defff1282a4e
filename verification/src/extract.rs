//! From the blocks of a dictionary page to an entry: what is kept, what is
//! dropped, and how the kept text is shaped.

use vstd::prelude::*;
use vstd::string::StringExecFns;
use crate::blocks::{
    block_models, EntryBlock, EntryBlockModel, PhraseBlock, PhraseBlockModel, SenseBlock,
    SenseBlockModel,
};
use crate::model::{all_trimmed, is_trimmed, recognized, DetailModel, EntryModel, ExplanationDetail, ExplanationModel, LongMan, PartOfSpeech, PhraseDetail, PhraseModel, WordDetail};
use crate::text::texts;
use crate::page::{page_blocks, read_blocks, MAX_PAGE_LEN};
use crate::text::{is_blank, is_space, lemma_trim_twice, lemma_trimmed_ends, trim, trimmed};

verus! {

/// Each text of `s`, trimmed.
pub open spec fn trimmed_all(s: Seq<Seq<char>>) -> Seq<Seq<char>> {
    Seq::new(s.len(), |i: int| trimmed(s[i]))
}

/// The phrase that a phrase block gives: none where its headword is blank,
/// otherwise the trimmed headword with the trimmed example sentences.
pub open spec fn phrase_of(b: PhraseBlockModel) -> Option<PhraseModel> {
    if is_blank(b.headword) {
        None
    } else {
        Some(PhraseModel { phrase: trimmed(b.headword), sentences: trimmed_all(b.examples) })
    }
}

/// The phrases that a sequence of phrase blocks gives, in its order.
pub open spec fn kept_phrases(bs: Seq<PhraseBlockModel>) -> Seq<PhraseModel>
    decreases bs.len(),
{
    if bs.len() == 0 {
        Seq::empty()
    } else {
        let rest = kept_phrases(bs.drop_last());
        match phrase_of(bs.last()) {
            Some(p) => rest.push(p),
            None => rest,
        }
    }
}

/// The text of an explanation: the trimmed definition, after the trimmed
/// signpost in square brackets and a space where the signpost is not blank.
pub open spec fn explanation_text(signpost: Seq<char>, definition: Seq<char>) -> Seq<char> {
    if is_blank(signpost) {
        trimmed(definition)
    } else {
        "["@ + trimmed(signpost) + "] "@ + trimmed(definition)
    }
}

/// The explanation that a sense block gives: none where its definition is
/// blank.
pub open spec fn explanation_of(b: SenseBlockModel) -> Option<ExplanationModel> {
    if is_blank(b.definition) {
        None
    } else {
        Some(
            ExplanationModel {
                explanation: explanation_text(b.signpost, b.definition),
                sentences: trimmed_all(b.examples),
                phrases: kept_phrases(b.phrase_blocks),
            },
        )
    }
}

/// The explanations that a sequence of sense blocks gives, in its order.
pub open spec fn kept_explanations(bs: Seq<SenseBlockModel>) -> Seq<ExplanationModel>
    decreases bs.len(),
{
    if bs.len() == 0 {
        Seq::empty()
    } else {
        let rest = kept_explanations(bs.drop_last());
        match explanation_of(bs.last()) {
            Some(e) => rest.push(e),
            None => rest,
        }
    }
}

/// The detail that an entry block gives: none where its label is not
/// recognized or none of its sense blocks gives an explanation.
pub open spec fn detail_of(b: EntryBlockModel) -> Option<DetailModel> {
    match recognized(b.label) {
        None => None,
        Some(p) => {
            let explanations = kept_explanations(b.senses);
            if explanations.len() == 0 {
                None
            } else {
                Some(
                    DetailModel {
                        phonetic_symbol: trimmed(b.pronunciation),
                        part_of_speech: p,
                        explanations,
                    },
                )
            }
        },
    }
}

/// The details that a sequence of entry blocks gives, in its order.
pub open spec fn kept_details(bs: Seq<EntryBlockModel>) -> Seq<DetailModel>
    decreases bs.len(),
{
    if bs.len() == 0 {
        Seq::empty()
    } else {
        let rest = kept_details(bs.drop_last());
        match detail_of(bs.last()) {
            Some(d) => rest.push(d),
            None => rest,
        }
    }
}

/// The entry of `word` that the entry blocks of a page give.
pub open spec fn entry_of(word: Seq<char>, blocks: Seq<EntryBlockModel>) -> EntryModel {
    EntryModel { word, details: kept_details(blocks) }
}

/// Trims each text of `v`.
pub fn trim_all(v: &Vec<String>) -> (r: Vec<String>)
    ensures
        texts(r@) == trimmed_all(texts(v@)),
{
    let mut out: Vec<String> = Vec::new();
    let mut i: usize = 0;
    while i < v.len()
        invariant
            0 <= i <= v@.len(),
            out@.len() == i,
            forall|k: int| 0 <= k < i ==> (#[trigger] out@[k])@ == trimmed(v@[k]@),
        decreases v@.len() - i,
    {
        out.push(trim(v[i].as_str()));
        i = i + 1;
    }
    assert(texts(out@) =~= trimmed_all(texts(v@)));
    out
}

/// Builds the phrase of a phrase block, if it has one.
pub fn phrase_from_block(b: &PhraseBlock) -> (r: Option<PhraseDetail>)
    ensures
        match r {
            Some(p) => phrase_of(b@) == Some(p@),
            None => phrase_of(b@) is None,
        },
{
    let phrase = trim(b.headword.as_str());
    if phrase.as_str().is_empty() {
        None
    } else {
        Some(PhraseDetail { phrase, sentences: trim_all(&b.examples) })
    }
}

/// What a vector of phrases holds.
pub open spec fn phrase_models(v: Seq<PhraseDetail>) -> Seq<PhraseModel> {
    Seq::new(v.len(), |i: int| v[i]@)
}

/// What a vector of explanations holds.
pub open spec fn explanation_models(v: Seq<ExplanationDetail>) -> Seq<ExplanationModel> {
    Seq::new(v.len(), |i: int| v[i]@)
}

/// What a vector of details holds.
pub open spec fn detail_models(v: Seq<WordDetail>) -> Seq<DetailModel> {
    Seq::new(v.len(), |i: int| v[i]@)
}

/// What a vector of phrase blocks holds.
pub open spec fn phrase_block_models(v: Seq<PhraseBlock>) -> Seq<PhraseBlockModel> {
    Seq::new(v.len(), |i: int| v[i]@)
}

/// What a vector of sense blocks holds.
pub open spec fn sense_block_models(v: Seq<SenseBlock>) -> Seq<SenseBlockModel> {
    Seq::new(v.len(), |i: int| v[i]@)
}

/// Builds the phrases of a sequence of phrase blocks.
pub fn phrases_from_blocks(bs: &Vec<PhraseBlock>) -> (r: Vec<PhraseDetail>)
    ensures
        phrase_models(r@) == kept_phrases(phrase_block_models(bs@)),
{
    let ghost all = phrase_block_models(bs@);
    let mut out: Vec<PhraseDetail> = Vec::new();
    let mut i: usize = 0;
    assert(all.take(0) =~= Seq::empty());
    while i < bs.len()
        invariant
            0 <= i <= bs@.len(),
            all == phrase_block_models(bs@),
            phrase_models(out@) == kept_phrases(all.take(i as int)),
        decreases bs@.len() - i,
    {
        let ghost before = phrase_models(out@);
        proof {
            assert(all.take(i + 1).drop_last() =~= all.take(i as int));
            assert(all.take(i + 1).last() == bs@[i as int]@);
        }
        match phrase_from_block(&bs[i]) {
            Some(p) => {
                out.push(p);
                assert(phrase_models(out@) =~= before.push(p@));
            },
            None => {},
        }
        i = i + 1;
    }
    assert(all.take(i as int) =~= all);
    out
}

/// Puts an explanation's text together from the signpost and the
/// definition of its sense block.
pub fn explanation_text_from(signpost: &str, definition: &str) -> (r: String)
    ensures
        r@ == explanation_text(signpost@, definition@),
{
    let label = trim(signpost);
    let text = trim(definition);
    if label.as_str().is_empty() {
        text
    } else {
        let mut s = String::from_str("[");
        s.append(label.as_str());
        s.append("] ");
        s.append(text.as_str());
        s
    }
}

/// Builds the explanation of a sense block, if it has one.
pub fn explanation_from_block(b: &SenseBlock) -> (r: Option<ExplanationDetail>)
    ensures
        match r {
            Some(e) => explanation_of(b@) == Some(e@),
            None => explanation_of(b@) is None,
        },
{
    let definition = trim(b.definition.as_str());
    if definition.as_str().is_empty() {
        None
    } else {
        let explanation = explanation_text_from(b.signpost.as_str(), b.definition.as_str());
        let sentences = trim_all(&b.examples);
        let phrases = phrases_from_blocks(&b.phrase_blocks);
        let e = ExplanationDetail { explanation, sentences, phrases };
        assert(e@.phrases == phrase_models(phrases@));
        assert(b@.phrase_blocks == phrase_block_models(b.phrase_blocks@));
        Some(e)
    }
}

/// Builds the explanations of a sequence of sense blocks.
pub fn explanations_from_blocks(bs: &Vec<SenseBlock>) -> (r: Vec<ExplanationDetail>)
    ensures
        explanation_models(r@) == kept_explanations(sense_block_models(bs@)),
{
    let ghost all = sense_block_models(bs@);
    let mut out: Vec<ExplanationDetail> = Vec::new();
    let mut i: usize = 0;
    assert(all.take(0) =~= Seq::empty());
    while i < bs.len()
        invariant
            0 <= i <= bs@.len(),
            all == sense_block_models(bs@),
            explanation_models(out@) == kept_explanations(all.take(i as int)),
        decreases bs@.len() - i,
    {
        let ghost before = explanation_models(out@);
        proof {
            assert(all.take(i + 1).drop_last() =~= all.take(i as int));
            assert(all.take(i + 1).last() == bs@[i as int]@);
        }
        match explanation_from_block(&bs[i]) {
            Some(e) => {
                out.push(e);
                assert(explanation_models(out@) =~= before.push(e@));
            },
            None => {},
        }
        i = i + 1;
    }
    assert(all.take(i as int) =~= all);
    out
}

/// Builds the detail of an entry block, if it has one.
pub fn detail_from_block(b: &EntryBlock) -> (r: Option<WordDetail>)
    ensures
        match r {
            Some(d) => detail_of(b@) == Some(d@),
            None => detail_of(b@) is None,
        },
{
    match PartOfSpeech::from_label(b.label.as_str()) {
        Err(_) => None,
        Ok(part_of_speech) => {
            let explanations = explanations_from_blocks(&b.senses);
            assert(b@.senses == sense_block_models(b.senses@));
            if explanations.len() == 0 {
                None
            } else {
                let phonetic_symbol = trim(b.pronunciation.as_str());
                let d = WordDetail { phonetic_symbol, part_of_speech, explanations };
                assert(d@.explanations == explanation_models(explanations@));
                Some(d)
            }
        },
    }
}

/// Builds the entry of `word` from the entry blocks of its page: the details
/// of the blocks that give one, in the order of the blocks. The word is kept
/// as it was given.
pub fn build_entry(word: String, blocks: &Vec<EntryBlock>) -> (r: LongMan)
    ensures
        r@ == entry_of(word@, block_models(blocks@)),
        r@.well_formed(),
{
    let ghost all = block_models(blocks@);
    let mut details: Vec<WordDetail> = Vec::new();
    let mut i: usize = 0;
    assert(all.take(0) =~= Seq::empty());
    while i < blocks.len()
        invariant
            0 <= i <= blocks@.len(),
            all == block_models(blocks@),
            detail_models(details@) == kept_details(all.take(i as int)),
        decreases blocks@.len() - i,
    {
        let ghost before = detail_models(details@);
        proof {
            assert(all.take(i + 1).drop_last() =~= all.take(i as int));
            assert(all.take(i + 1).last() == blocks@[i as int]@);
        }
        match detail_from_block(&blocks[i]) {
            Some(d) => {
                details.push(d);
                assert(detail_models(details@) =~= before.push(d@));
            },
            None => {},
        }
        i = i + 1;
    }
    assert(all.take(i as int) =~= all);
    let r = LongMan { word, details };
    assert(r@.details == detail_models(details@));
    proof {
        lemma_entry_well_formed(r@.word, all);
    }
    r
}

/// Extracts the entry of `word` from the HTML text of its dictionary page.
/// Never fails: what the page lacks is left out of the entry. The page is no
/// longer than `MAX_PAGE_LEN` characters, which is as much as the parser
/// takes.
pub fn parse(word: String, html: &str) -> (r: LongMan)
    requires
        html@.len() <= MAX_PAGE_LEN,
    ensures
        r@ == entry_of(word@, page_blocks(html@)),
        r@.well_formed(),
{
    let blocks = read_blocks(html);
    build_entry(word, &blocks)
}

/// Texts that were trimmed each by itself are trimmed.
pub proof fn lemma_trimmed_all(ss: Seq<Seq<char>>)
    ensures
        all_trimmed(trimmed_all(ss)),
{
    assert forall|i: int| 0 <= i < trimmed_all(ss).len() implies is_trimmed(
        #[trigger] trimmed_all(ss)[i],
    ) by {
        lemma_trim_twice(ss[i]);
    }
}

/// The text of an explanation with a definition that is not blank is
/// trimmed and not empty.
pub proof fn lemma_explanation_text_trimmed(signpost: Seq<char>, definition: Seq<char>)
    requires
        !is_blank(definition),
    ensures
        explanation_text(signpost, definition).len() > 0,
        is_trimmed(explanation_text(signpost, definition)),
{
    lemma_trim_twice(definition);
    lemma_trimmed_ends(definition);
    if !is_blank(signpost) {
        reveal_strlit("[");
        reveal_strlit("] ");
        let t = explanation_text(signpost, definition);
        let d = trimmed(definition);
        assert(t[0] == '[');
        assert(t.last() == d.last());
        assert(!is_space(t[0]));
        assert(crate::text::first_kept(t, 0) == 0);
        assert(crate::text::last_kept(t, 0, t.len() as int) == t.len());
        assert(trimmed(t) =~= t);
    }
}

/// Every phrase that is kept is well formed.
pub proof fn lemma_kept_phrases_well_formed(bs: Seq<PhraseBlockModel>)
    ensures
        forall|i: int|
            0 <= i < kept_phrases(bs).len() ==> (#[trigger] kept_phrases(bs)[i]).well_formed(),
    decreases bs.len(),
{
    if bs.len() > 0 {
        lemma_kept_phrases_well_formed(bs.drop_last());
        let b = bs.last();
        let rest = kept_phrases(bs.drop_last());
        if !is_blank(b.headword) {
            lemma_trim_twice(b.headword);
            lemma_trimmed_all(b.examples);
            let p = phrase_of(b).unwrap();
            assert(p.well_formed());
            assert(kept_phrases(bs) == rest.push(p));
        } else {
            assert(kept_phrases(bs) == rest);
        }
        assert forall|i: int| 0 <= i < kept_phrases(bs).len() implies (#[trigger] kept_phrases(
            bs,
        )[i]).well_formed() by {
            if i < rest.len() {
                assert(kept_phrases(bs)[i] == rest[i]);
            }
        }
    }
}

/// Every explanation that is kept is well formed.
pub proof fn lemma_kept_explanations_well_formed(bs: Seq<SenseBlockModel>)
    ensures
        forall|i: int|
            0 <= i < kept_explanations(bs).len() ==> (#[trigger] kept_explanations(
                bs,
            )[i]).well_formed(),
    decreases bs.len(),
{
    if bs.len() > 0 {
        lemma_kept_explanations_well_formed(bs.drop_last());
        let b = bs.last();
        let rest = kept_explanations(bs.drop_last());
        if !is_blank(b.definition) {
            lemma_explanation_text_trimmed(b.signpost, b.definition);
            lemma_trimmed_all(b.examples);
            lemma_kept_phrases_well_formed(b.phrase_blocks);
            let e = explanation_of(b).unwrap();
            assert(e.well_formed());
            assert(kept_explanations(bs) == rest.push(e));
        } else {
            assert(kept_explanations(bs) == rest);
        }
        assert forall|i: int| 0 <= i < kept_explanations(bs).len() implies (
        #[trigger] kept_explanations(bs)[i]).well_formed() by {
            if i < rest.len() {
                assert(kept_explanations(bs)[i] == rest[i]);
            }
        }
    }
}

/// Every detail that is kept is well formed: it has an explanation, and all
/// its text is trimmed.
pub proof fn lemma_kept_details_well_formed(bs: Seq<EntryBlockModel>)
    ensures
        forall|i: int|
            0 <= i < kept_details(bs).len() ==> (#[trigger] kept_details(bs)[i]).well_formed(),
    decreases bs.len(),
{
    if bs.len() > 0 {
        lemma_kept_details_well_formed(bs.drop_last());
        let b = bs.last();
        let rest = kept_details(bs.drop_last());
        if detail_of(b) is Some {
            lemma_trim_twice(b.pronunciation);
            lemma_kept_explanations_well_formed(b.senses);
            let d = detail_of(b).unwrap();
            assert(d.well_formed());
            assert(kept_details(bs) == rest.push(d));
        } else {
            assert(kept_details(bs) == rest);
        }
        assert forall|i: int| 0 <= i < kept_details(bs).len() implies (#[trigger] kept_details(
            bs,
        )[i]).well_formed() by {
            if i < rest.len() {
                assert(kept_details(bs)[i] == rest[i]);
            }
        }
    }
}

/// The entry that extraction makes is well formed, whatever the page holds.
pub proof fn lemma_entry_well_formed(word: Seq<char>, blocks: Seq<EntryBlockModel>)
    ensures
        entry_of(word, blocks).well_formed(),
{
    lemma_kept_details_well_formed(blocks);
}

/// The phrases of two runs of phrase blocks, one after the other, are those
/// of the first run and then those of the second.
pub proof fn lemma_kept_phrases_concat(a: Seq<PhraseBlockModel>, b: Seq<PhraseBlockModel>)
    ensures
        kept_phrases(a + b) == kept_phrases(a) + kept_phrases(b),
    decreases b.len(),
{
    if b.len() == 0 {
        assert(a + b =~= a);
        assert(kept_phrases(a) + kept_phrases(b) =~= kept_phrases(a));
    } else {
        assert((a + b).drop_last() =~= a + b.drop_last());
        lemma_kept_phrases_concat(a, b.drop_last());
        assert(kept_phrases(a + b) =~= kept_phrases(a) + kept_phrases(b));
    }
}

/// The explanations of two runs of sense blocks, one after the other, are
/// those of the first run and then those of the second.
pub proof fn lemma_kept_explanations_concat(a: Seq<SenseBlockModel>, b: Seq<SenseBlockModel>)
    ensures
        kept_explanations(a + b) == kept_explanations(a) + kept_explanations(b),
    decreases b.len(),
{
    if b.len() == 0 {
        assert(a + b =~= a);
        assert(kept_explanations(a) + kept_explanations(b) =~= kept_explanations(a));
    } else {
        assert((a + b).drop_last() =~= a + b.drop_last());
        lemma_kept_explanations_concat(a, b.drop_last());
        assert(kept_explanations(a + b) =~= kept_explanations(a) + kept_explanations(b));
    }
}

/// A sense block whose definition is blank leaves no trace: the
/// explanations are those of the sense blocks around it.
pub proof fn lemma_blank_sense_excluded(
    before: Seq<SenseBlockModel>,
    b: SenseBlockModel,
    after: Seq<SenseBlockModel>,
)
    requires
        is_blank(b.definition),
    ensures
        explanation_of(b) is None,
        kept_explanations(before + seq![b] + after) == kept_explanations(before + after),
{
    lemma_kept_explanations_concat(before + seq![b], after);
    lemma_kept_explanations_concat(before, seq![b]);
    lemma_kept_explanations_concat(before, after);
    assert(seq![b].drop_last() =~= Seq::<SenseBlockModel>::empty());
    assert(seq![b].last() == b);
    assert(kept_explanations(seq![b].drop_last()) =~= Seq::<ExplanationModel>::empty());
    assert(kept_explanations(seq![b]) =~= Seq::<ExplanationModel>::empty());
    assert(kept_explanations(before) + Seq::<ExplanationModel>::empty() =~= kept_explanations(
        before,
    ));
}

/// A phrase block whose headword is blank leaves no trace: the phrases are
/// those of the phrase blocks around it.
pub proof fn lemma_blank_phrase_excluded(
    before: Seq<PhraseBlockModel>,
    b: PhraseBlockModel,
    after: Seq<PhraseBlockModel>,
)
    requires
        is_blank(b.headword),
    ensures
        phrase_of(b) is None,
        kept_phrases(before + seq![b] + after) == kept_phrases(before + after),
{
    lemma_kept_phrases_concat(before + seq![b], after);
    lemma_kept_phrases_concat(before, seq![b]);
    lemma_kept_phrases_concat(before, after);
    assert(seq![b].drop_last() =~= Seq::<PhraseBlockModel>::empty());
    assert(seq![b].last() == b);
    assert(kept_phrases(seq![b].drop_last()) =~= Seq::<PhraseModel>::empty());
    assert(kept_phrases(seq![b]) =~= Seq::<PhraseModel>::empty());
    assert(kept_phrases(before) + Seq::<PhraseModel>::empty() =~= kept_phrases(before));
}

/// No more explanations are kept than there are sense blocks, and no more
/// phrases than there are phrase blocks.
pub proof fn lemma_kept_no_more_than_blocks(
    senses: Seq<SenseBlockModel>,
    phrases: Seq<PhraseBlockModel>,
)
    ensures
        kept_explanations(senses).len() <= senses.len(),
        kept_phrases(phrases).len() <= phrases.len(),
    decreases senses.len() + phrases.len(),
{
    if senses.len() > 0 {
        lemma_kept_no_more_than_blocks(senses.drop_last(), phrases);
    } else if phrases.len() > 0 {
        lemma_kept_no_more_than_blocks(senses, phrases.drop_last());
    }
}

/// Entry blocks of which none has both a recognized label and a sense with
/// a definition give no detail.
pub proof fn lemma_no_detail_without_label_and_sense(blocks: Seq<EntryBlockModel>)
    requires
        forall|i: int|
            0 <= i < blocks.len() ==> recognized(#[trigger] blocks[i].label) is None
                || kept_explanations(blocks[i].senses).len() == 0,
    ensures
        kept_details(blocks).len() == 0,
    decreases blocks.len(),
{
    if blocks.len() > 0 {
        lemma_no_detail_without_label_and_sense(blocks.drop_last());
        let b = blocks.last();
        assert(b == blocks[blocks.len() - 1]);
        assert(recognized(b.label) is None || kept_explanations(b.senses).len() == 0);
    }
}

/// A page without a dictionary container, or without an entry block in its
/// container, gives an entry without details: the word alone.
pub proof fn lemma_page_without_entry_blocks(word: Seq<char>, html: Seq<char>)
    requires
        crate::page::found_under(
            html,
            crate::page::first_of(crate::page::page_matches(html, "div.dictionary"@)),
            ".dictentry"@,
        ).len() == 0,
    ensures
        entry_of(word, page_blocks(html)) == (EntryModel { word, details: Seq::empty() }),
{
    assert(page_blocks(html) =~= Seq::<EntryBlockModel>::empty());
}

/// An entry block without a part-of-speech label, or without a sense block,
/// gives no detail; a sense block without a definition gives no
/// explanation; a phrase block without a headword gives no phrase.
pub proof fn lemma_nothing_from_missing_text(
    entry: EntryBlockModel,
    sense: SenseBlockModel,
    phrase: PhraseBlockModel,
)
    ensures
        entry.label.len() == 0 ==> detail_of(entry) is None,
        entry.senses.len() == 0 ==> detail_of(entry) is None,
        sense.definition.len() == 0 ==> explanation_of(sense) is None,
        phrase.headword.len() == 0 ==> phrase_of(phrase) is None,
{
    reveal_strlit("noun");
    reveal_strlit("adjective");
    reveal_strlit("verb");
    reveal_strlit("adverb");
    reveal_strlit("number");
    reveal_strlit("conjunction");
    reveal_strlit("preposition");
    if entry.label.len() == 0 {
        crate::text::lemma_first_kept_bounds(entry.label, 0);
        assert(trimmed(entry.label).len() == 0);
    }
    if sense.definition.len() == 0 {
        crate::text::lemma_first_kept_bounds(sense.definition, 0);
    }
    if phrase.headword.len() == 0 {
        crate::text::lemma_first_kept_bounds(phrase.headword, 0);
    }
}

} // verus!
