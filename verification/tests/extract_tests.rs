use autoanki::blocks::{EntryBlock, PhraseBlock, SenseBlock};
use autoanki::extract::{
    build_entry, detail_from_block, explanation_from_block, explanation_text_from, parse,
    phrase_from_block, phrases_from_blocks, trim_all,
};
use autoanki::model::PartOfSpeech;
use autoanki::page::read_blocks;

fn page(inner: &str) -> String {
    format!("<html><body><div class=\"dictionary\">{}</div></body></html>", inner)
}

fn sense(definition: &str) -> SenseBlock {
    SenseBlock {
        definition: definition.to_string(),
        signpost: String::new(),
        examples: vec![],
        phrase_blocks: vec![],
    }
}

#[test]
fn scenario_one_entry_block_with_one_sense() {
    let html = page(
        "<span class=\"dictentry\">\
           <span class=\"PronCodes\">/əˈbæn.dən/</span>\
           <span class=\"POS\">verb</span>\
           <span class=\"Sense\">\
             <span class=\"DEF\">to leave someone</span>\
             <span class=\"EXAMPLE\">She abandoned it.</span>\
           </span>\
         </span>",
    );
    let lm = parse("abandon".to_string(), &html);
    assert_eq!(lm.word, "abandon");
    assert_eq!(lm.details.len(), 1);
    let d = &lm.details[0];
    assert_eq!(d.phonetic_symbol, "/əˈbæn.dən/");
    assert_eq!(d.part_of_speech, PartOfSpeech::Verb);
    assert_eq!(d.explanations.len(), 1);
    assert_eq!(d.explanations[0].explanation, "to leave someone");
    assert_eq!(d.explanations[0].sentences, vec!["She abandoned it.".to_string()]);
    assert!(d.explanations[0].phrases.is_empty());
}

#[test]
fn scenario_signpost_is_put_in_brackets() {
    let html = page(
        "<span class=\"dictentry\"><span class=\"POS\">verb</span>\
           <span class=\"Sense\"><span class=\"SIGNPOST\">formal</span>\
           <span class=\"DEF\">to give up</span></span></span>",
    );
    let lm = parse("abandon".to_string(), &html);
    assert_eq!(lm.details[0].explanations[0].explanation, "[formal] to give up");
}

#[test]
fn signpost_text_rule() {
    assert_eq!(explanation_text_from("formal", "to give up"), "[formal] to give up");
    assert_eq!(explanation_text_from(" formal ", "  to give up\n"), "[formal] to give up");
    assert_eq!(explanation_text_from("", " to give up "), "to give up");
    assert_eq!(explanation_text_from("  \t", "to give up"), "to give up");
}

#[test]
fn page_without_anything_gives_no_details() {
    for html in [
        "",
        "<html></html>",
        "<p>no dictionary here</p>",
        "<div class=\"dictionary\"></div>",
        "<div class=\"other\"><span class=\"dictentry\"><span class=\"POS\">verb</span>\
         <span class=\"Sense\"><span class=\"DEF\">x</span></span></span></div>",
        "<span class=\"dictionary\"><span class=\"dictentry\"><span class=\"POS\">verb</span>\
         <span class=\"Sense\"><span class=\"DEF\">x</span></span></span></span>",
    ] {
        let lm = parse("word".to_string(), html);
        assert_eq!(lm.word, "word");
        assert!(lm.details.is_empty(), "{}", html);
    }
}

#[test]
fn entry_block_without_label_or_sense_is_dropped() {
    let html = page(
        "<span class=\"dictentry\"><span class=\"Sense\"><span class=\"DEF\">no label</span></span></span>\
         <span class=\"dictentry\"><span class=\"POS\">verb</span></span>\
         <span class=\"dictentry\"><span class=\"POS\">verb</span><span class=\"Sense\"></span></span>\
         <span class=\"dictentry\"><span class=\"POS\">phrasal verb</span>\
           <span class=\"Sense\"><span class=\"DEF\">unknown label</span></span></span>\
         <span class=\"dictentry\"><span class=\"POS\">noun</span>\
           <span class=\"Sense\"><span class=\"DEF\">kept</span></span></span>",
    );
    let blocks = read_blocks(&html);
    assert_eq!(blocks.len(), 5);
    let lm = parse("w".to_string(), &html);
    assert_eq!(lm.details.len(), 1);
    assert_eq!(lm.details[0].part_of_speech, PartOfSpeech::Nouns);
    assert_eq!(lm.details[0].explanations[0].explanation, "kept");
    assert_eq!(lm.details[0].phonetic_symbol, "");
}

#[test]
fn details_keep_the_order_of_the_page() {
    let html = page(
        "<span class=\"dictentry\"><span class=\"POS\">noun</span>\
           <span class=\"Sense\"><span class=\"DEF\">first</span></span></span>\
         <span class=\"dictentry\"><span class=\"POS\">verb</span>\
           <span class=\"Sense\"><span class=\"DEF\">second</span></span>\
           <span class=\"Sense\"><span class=\"DEF\">third</span></span></span>\
         <span class=\"dictentry\"><span class=\"POS\">adjective</span>\
           <span class=\"Sense\"><span class=\"DEF\">fourth</span></span></span>",
    );
    let lm = parse("w".to_string(), &html);
    let parts: Vec<PartOfSpeech> = lm.details.iter().map(|d| d.part_of_speech).collect();
    assert_eq!(parts, vec![PartOfSpeech::Nouns, PartOfSpeech::Verb, PartOfSpeech::Adjectives]);
    assert_eq!(lm.details[1].explanations.len(), 2);
    assert_eq!(lm.details[1].explanations[0].explanation, "second");
    assert_eq!(lm.details[1].explanations[1].explanation, "third");
}

#[test]
fn only_the_first_container_is_read() {
    let html = "<div class=\"dictionary\"><span class=\"dictentry\"><span class=\"POS\">noun</span>\
           <span class=\"Sense\"><span class=\"DEF\">in the first</span></span></span></div>\
         <div class=\"dictionary\"><span class=\"dictentry\"><span class=\"POS\">verb</span>\
           <span class=\"Sense\"><span class=\"DEF\">in the second</span></span></span></div>";
    let lm = parse("w".to_string(), html);
    assert_eq!(lm.details.len(), 1);
    assert_eq!(lm.details[0].explanations[0].explanation, "in the first");
}

#[test]
fn first_pronunciation_and_first_label_are_used() {
    let html = page(
        "<span class=\"dictentry\">\
           <span class=\"PronCodes\"> /one/ </span><span class=\"PronCodes\">/two/</span>\
           <span class=\"POS\"> adverb </span><span class=\"POS\">verb</span>\
           <span class=\"Sense\"><span class=\"DEF\">d</span></span></span>",
    );
    let blocks = read_blocks(&html);
    assert_eq!(blocks[0].pronunciation, " /one/ ");
    assert_eq!(blocks[0].label, " adverb ");
    let lm = parse("w".to_string(), &html);
    assert_eq!(lm.details[0].phonetic_symbol, "/one/");
    assert_eq!(lm.details[0].part_of_speech, PartOfSpeech::Adverb);
}

#[test]
fn blank_definition_excludes_the_sense() {
    let html = page(
        "<span class=\"dictentry\"><span class=\"POS\">noun</span>\
           <span class=\"Sense\"><span class=\"DEF\">  \n </span><span class=\"EXAMPLE\">lost</span></span>\
           <span class=\"Sense\"><span class=\"DEF\"> kept </span></span>\
           <span class=\"Sense\"><span class=\"EXAMPLE\">no definition at all</span></span></span>",
    );
    let lm = parse("w".to_string(), &html);
    assert_eq!(lm.details.len(), 1);
    assert_eq!(lm.details[0].explanations.len(), 1);
    assert_eq!(lm.details[0].explanations[0].explanation, "kept");
    assert!(explanation_from_block(&sense(" \t\u{a0}")).is_none());
    assert!(explanation_from_block(&sense("")).is_none());
    assert!(explanation_from_block(&sense("x")).is_some());
}

#[test]
fn blank_headword_excludes_the_phrase() {
    let html = page(
        "<span class=\"dictentry\"><span class=\"POS\">noun</span>\
           <span class=\"Sense\"><span class=\"DEF\">d</span>\
             <span class=\"GramExa\"><span class=\"PROPFORM\">  </span><span class=\"EXAMPLE\">a</span></span>\
             <span class=\"ColloExa\"><span class=\"EXAMPLE\">no headword</span></span>\
             <span class=\"GramExa\"><span class=\"PROPFORM\"> give up </span></span>\
           </span></span>",
    );
    let lm = parse("w".to_string(), &html);
    let phrases = &lm.details[0].explanations[0].phrases;
    assert_eq!(phrases.len(), 1);
    assert_eq!(phrases[0].phrase, "give up");
    assert!(phrases[0].sentences.is_empty());
    let blank = PhraseBlock { headword: " \n".to_string(), examples: vec!["a".to_string()] };
    assert!(phrase_from_block(&blank).is_none());
    let kept = PhraseBlock { headword: " x ".to_string(), examples: vec![" a ".to_string()] };
    let p = phrase_from_block(&kept).unwrap();
    assert_eq!(p.phrase, "x");
    assert_eq!(p.sentences, vec!["a".to_string()]);
    assert_eq!(phrases_from_blocks(&vec![blank.clone(), kept, blank]).len(), 1);
}

#[test]
fn both_markups_of_phrase_blocks_and_headwords_are_read() {
    let html = page(
        "<span class=\"dictentry\"><span class=\"POS\">verb</span>\
           <span class=\"Sense\"><span class=\"DEF\">d</span>\
             <span class=\"EXAMPLE\"> of the sense </span>\
             <span class=\"GramExa\"><span class=\"PROPFORM\">abandon sb to sth</span>\
               <span class=\"EXAMPLE\"> g1 </span><span class=\"EXAMPLE\">g2</span></span>\
             <span class=\"ColloExa\"><span class=\"PROPFORMPREP\">abandon to</span>\
               <span class=\"EXAMPLE\">c1</span></span>\
             <span class=\"EXAMPLE\">also of the sense</span>\
           </span></span>",
    );
    let lm = parse("abandon".to_string(), &html);
    let e = &lm.details[0].explanations[0];
    assert_eq!(e.sentences, vec!["of the sense".to_string(), "also of the sense".to_string()]);
    assert_eq!(e.phrases.len(), 2);
    assert_eq!(e.phrases[0].phrase, "abandon sb to sth");
    assert_eq!(e.phrases[0].sentences, vec!["g1".to_string(), "g2".to_string()]);
    assert_eq!(e.phrases[1].phrase, "abandon to");
    assert_eq!(e.phrases[1].sentences, vec!["c1".to_string()]);
}

#[test]
fn first_headword_of_a_phrase_block_is_used() {
    let html = page(
        "<span class=\"dictentry\"><span class=\"POS\">verb</span>\
           <span class=\"Sense\"><span class=\"DEF\">d</span>\
             <span class=\"GramExa\"><span class=\"PROPFORM\">one</span>\
               <span class=\"PROPFORMPREP\">two</span></span></span></span>",
    );
    let lm = parse("w".to_string(), &html);
    assert_eq!(lm.details[0].explanations[0].phrases[0].phrase, "one");
}

#[test]
fn blocks_hold_untrimmed_text() {
    let html = page(
        "<span class=\"dictentry\"><span class=\"POS\">verb</span>\
           <span class=\"Sense\"><span class=\"SIGNPOST\"> s </span><span class=\"DEF\"> d <b>bold</b></span>\
           <span class=\"EXAMPLE\"> e </span></span></span>",
    );
    let blocks = read_blocks(&html);
    assert_eq!(blocks.len(), 1);
    assert_eq!(blocks[0].pronunciation, "");
    assert_eq!(blocks[0].senses.len(), 1);
    assert_eq!(blocks[0].senses[0].signpost, " s ");
    assert_eq!(blocks[0].senses[0].definition, " d bold");
    assert_eq!(blocks[0].senses[0].examples, vec![" e ".to_string()]);
}

#[test]
fn build_entry_from_plain_blocks() {
    let blocks = vec![
        EntryBlock { pronunciation: " p ".to_string(), label: "number".to_string(), senses: vec![sense(" one ")] },
        EntryBlock { pronunciation: String::new(), label: "Noun".to_string(), senses: vec![sense("x")] },
        EntryBlock { pronunciation: String::new(), label: "noun".to_string(), senses: vec![sense(" ")] },
    ];
    let lm = build_entry("w".to_string(), &blocks);
    assert_eq!(lm.details.len(), 1);
    assert_eq!(lm.details[0].part_of_speech, PartOfSpeech::Numerals);
    assert_eq!(lm.details[0].phonetic_symbol, "p");
    assert_eq!(lm.details[0].explanations[0].explanation, "one");
    assert!(detail_from_block(&blocks[1]).is_none());
    assert!(detail_from_block(&blocks[2]).is_none());
    assert!(build_entry("w".to_string(), &vec![]).details.is_empty());
}

#[test]
fn trim_all_trims_each_text() {
    let v = vec![" a ".to_string(), "".to_string(), "b\n".to_string()];
    assert_eq!(trim_all(&v), vec!["a".to_string(), "".to_string(), "b".to_string()]);
}

#[test]
fn several_definition_nodes_are_read_in_a_row() {
    let html = page(
        "<span class=\"dictentry\"><span class=\"POS\">verb</span>\
           <span class=\"Sense\"><span class=\"SIGNPOST\">a</span><span class=\"SIGNPOST\">b</span>\
           <span class=\"DEF\">one </span><span class=\"DEF\">two</span></span></span>",
    );
    let blocks = read_blocks(&html);
    assert_eq!(blocks[0].senses[0].definition, "one two");
    assert_eq!(blocks[0].senses[0].signpost, "ab");
    let lm = parse("w".to_string(), &html);
    assert_eq!(lm.details[0].explanations[0].explanation, "[ab] one two");
}

#[test]
fn definition_node_inside_another_gives_its_text_again() {
    let html = page(
        "<span class=\"dictentry\"><span class=\"POS\">verb</span>\
           <span class=\"Sense\"><span class=\"DEF\">a<span class=\"DEF\">b</span></span></span></span>",
    );
    let blocks = read_blocks(&html);
    assert_eq!(blocks[0].senses[0].definition, "abb");
}

#[test]
fn deeply_nested_definition_nodes_are_read() {
    let depth = 300;
    let mut inner = String::new();
    for _ in 0..depth {
        inner.push_str("<span class=\"DEF\">x");
    }
    for _ in 0..depth {
        inner.push_str("</span>");
    }
    let html = page(&format!(
        "<span class=\"dictentry\"><span class=\"POS\">verb</span>\
           <span class=\"Sense\">{}</span></span>",
        inner
    ));
    let blocks = read_blocks(&html);
    assert_eq!(blocks[0].senses[0].definition.len(), depth * (depth + 1) / 2);
}
