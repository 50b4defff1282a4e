//! The blocks of a dictionary page as plain text: what the page says, before
//! any rule has been applied to it.

use vstd::prelude::*;
use crate::text::texts;

verus! {

/// A block that shows a phrase: the text of its headword and of each of its
/// example sentences, untrimmed.
#[derive(Debug, Clone)]
pub struct PhraseBlock {
    pub headword: String,
    pub examples: Vec<String>,
}

/// A block that gives one sense of the word, untrimmed. `examples` holds the
/// example sentences of the sense itself, not those of its phrase blocks.
#[derive(Debug, Clone)]
pub struct SenseBlock {
    pub definition: String,
    /// The signpost label; empty where the sense has none.
    pub signpost: String,
    pub examples: Vec<String>,
    pub phrase_blocks: Vec<PhraseBlock>,
}

/// A block that holds the entry of the word under one part of speech,
/// untrimmed.
#[derive(Debug, Clone)]
pub struct EntryBlock {
    pub pronunciation: String,
    /// The part-of-speech label as the page spells it.
    pub label: String,
    pub senses: Vec<SenseBlock>,
}

/// What a [`PhraseBlock`] holds.
pub struct PhraseBlockModel {
    pub headword: Seq<char>,
    pub examples: Seq<Seq<char>>,
}

/// What a [`SenseBlock`] holds.
pub struct SenseBlockModel {
    pub definition: Seq<char>,
    pub signpost: Seq<char>,
    pub examples: Seq<Seq<char>>,
    pub phrase_blocks: Seq<PhraseBlockModel>,
}

/// What an [`EntryBlock`] holds.
pub struct EntryBlockModel {
    pub pronunciation: Seq<char>,
    pub label: Seq<char>,
    pub senses: Seq<SenseBlockModel>,
}

impl View for PhraseBlock {
    type V = PhraseBlockModel;

    open spec fn view(&self) -> PhraseBlockModel {
        PhraseBlockModel { headword: self.headword@, examples: texts(self.examples@) }
    }
}

impl View for SenseBlock {
    type V = SenseBlockModel;

    open spec fn view(&self) -> SenseBlockModel {
        SenseBlockModel {
            definition: self.definition@,
            signpost: self.signpost@,
            examples: texts(self.examples@),
            phrase_blocks: Seq::new(self.phrase_blocks@.len(), |i: int| self.phrase_blocks@[i]@),
        }
    }
}

impl View for EntryBlock {
    type V = EntryBlockModel;

    open spec fn view(&self) -> EntryBlockModel {
        EntryBlockModel {
            pronunciation: self.pronunciation@,
            label: self.label@,
            senses: Seq::new(self.senses@.len(), |i: int| self.senses@[i]@),
        }
    }
}

/// What a vector of entry blocks holds.
pub open spec fn block_models(v: Seq<EntryBlock>) -> Seq<EntryBlockModel> {
    Seq::new(v.len(), |i: int| v[i]@)
}

} // verus!
