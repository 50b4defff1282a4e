use autoanki::encode::{
    convert_e2e, decimal_string, detail_slot, encode_fields, entry_slot, join_with_break,
    phrase_field_of, wrap_payload, EncodeError,
};
use autoanki::extract::parse;
use autoanki::model::{ExplanationDetail, LongMan, PartOfSpeech, PhraseDetail, WordDetail};

fn explanation(text: &str, sentences: &[&str]) -> ExplanationDetail {
    ExplanationDetail {
        explanation: text.to_string(),
        sentences: sentences.iter().map(|s| s.to_string()).collect(),
        phrases: vec![],
    }
}

fn detail(part: PartOfSpeech, phonetic: &str, text: &str, sentence: &str) -> WordDetail {
    WordDetail {
        phonetic_symbol: phonetic.to_string(),
        part_of_speech: part,
        explanations: vec![explanation(text, &[sentence])],
    }
}

fn entry(word: &str, details: Vec<WordDetail>) -> LongMan {
    LongMan { word: word.to_string(), details }
}

fn strings(v: &[&str]) -> Vec<String> {
    v.iter().map(|s| s.to_string()).collect()
}

#[test]
fn entry_without_details_has_twelve_empty_fields() {
    let lm = entry("happy", vec![]);
    let fields = encode_fields(&lm).unwrap();
    assert_eq!(fields, strings(&["happy", "0", "", "", "", "", "", "", "", "", "", "", "", ""]));
    assert_eq!(
        convert_e2e(lm).unwrap(),
        r#"[["happy","0","","","","","","","","","","","",""],""]"#
    );
}

#[test]
fn scenario_first_slot_of_a_page() {
    let html = "<div class=\"dictionary\"><span class=\"dictentry\">\
           <span class=\"PronCodes\">/əˈbæn.dən/</span><span class=\"POS\">verb</span>\
           <span class=\"Sense\"><span class=\"DEF\">to leave someone</span>\
             <span class=\"EXAMPLE\">She abandoned it.</span></span></span></div>";
    let lm = parse("abandon".to_string(), html);
    let fields = encode_fields(&lm).unwrap();
    assert_eq!(fields.len(), 14);
    assert_eq!(fields[0], "abandon");
    assert_eq!(fields[1], "1");
    assert_eq!(
        fields[2..6].to_vec(),
        strings(&["verb", "She abandoned it.", "", "/əˈbæn.dən/<br/>to leave someone"])
    );
    assert_eq!(fields[6..].to_vec(), strings(&["", "", "", "", "", "", "", ""]));
    assert_eq!(
        convert_e2e(lm).unwrap(),
        "[[\"abandon\",\"1\",\"verb\",\"She abandoned it.\",\"\",\"/əˈbæn.dən/<br/>to leave someone\",\"\",\"\",\"\",\"\",\"\",\"\",\"\",\"\"],\"\"]"
    );
}

#[test]
fn only_the_first_three_details_are_encoded() {
    let first = vec![
        detail(PartOfSpeech::Verb, "a", "one", "s1"),
        detail(PartOfSpeech::Nouns, "b", "two", "s2"),
        detail(PartOfSpeech::Adjectives, "c", "three", "s3"),
    ];
    let mut four = first.clone();
    four.push(detail(PartOfSpeech::Adverb, "FOURTH", "FOURTH", "FOURTH"));
    let mut other = first.clone();
    other.push(WordDetail {
        phonetic_symbol: "x".to_string(),
        part_of_speech: PartOfSpeech::Article,
        explanations: vec![explanation("no sentence here", &[])],
    });
    let a = convert_e2e(entry("w", four)).unwrap();
    let b = convert_e2e(entry("w", other)).unwrap();
    assert_eq!(a, b);
    assert!(!a.contains("FOURTH"));
    assert_eq!(
        a,
        r#"[["w","4","verb","s1","","a<br/>one","nouns","s2","","b<br/>two","adjective","s3","","c<br/>three"],""]"#
    );
    let c = convert_e2e(entry("w", first)).unwrap();
    assert_eq!(
        c,
        r#"[["w","3","verb","s1","","a<br/>one","nouns","s2","","b<br/>two","adjective","s3","","c<br/>three"],""]"#
    );
}

#[test]
fn encoding_twice_gives_the_same_payload() {
    let lm = entry("w", vec![detail(PartOfSpeech::Verb, "p", "d \"quoted\"", "s")]);
    assert_eq!(convert_e2e(lm.clone()), convert_e2e(lm));
}

#[test]
fn scenario_missing_example_sentence() {
    let bad = WordDetail {
        phonetic_symbol: "p".to_string(),
        part_of_speech: PartOfSpeech::Verb,
        explanations: vec![explanation("d", &[]), explanation("e", &["s"])],
    };
    let lm = entry("w", vec![bad.clone()]);
    assert_eq!(convert_e2e(lm), Err(EncodeError::MissingExampleSentence { detail: 0 }));
    let lm = entry("w", vec![detail(PartOfSpeech::Verb, "p", "d", "s"), bad.clone(), bad.clone()]);
    assert_eq!(encode_fields(&lm), Err(EncodeError::MissingExampleSentence { detail: 1 }));
    assert!(detail_slot(&bad).is_none());
    assert!(entry_slot(&lm, 1).is_none());
    assert!(entry_slot(&lm, 0).is_some());
    let ok = detail(PartOfSpeech::Verb, "p", "d", "s");
    let lm = entry("w", vec![ok.clone(), ok.clone(), ok, bad]);
    assert!(convert_e2e(lm).is_ok());
}

#[test]
fn detail_without_explanations_fills_an_empty_slot() {
    let hollow = WordDetail {
        phonetic_symbol: "p".to_string(),
        part_of_speech: PartOfSpeech::Verb,
        explanations: vec![],
    };
    assert_eq!(detail_slot(&hollow).unwrap(), strings(&["", "", "", ""]));
    let lm = entry("w", vec![hollow, detail(PartOfSpeech::Nouns, "q", "d", "s")]);
    assert_eq!(
        encode_fields(&lm).unwrap(),
        strings(&["w", "2", "", "", "", "", "nouns", "s", "", "q<br/>d", "", "", "", ""])
    );
    assert_eq!(entry_slot(&lm, 2).unwrap(), strings(&["", "", "", ""]));
    assert_eq!(entry_slot(&lm, 7).unwrap(), strings(&["", "", "", ""]));
}

#[test]
fn phrase_field_uses_the_first_phrase_and_its_first_sentence() {
    assert_eq!(phrase_field_of(&vec![]), "");
    let with = PhraseDetail { phrase: "give up".to_string(), sentences: strings(&["s1", "s2"]) };
    let without = PhraseDetail { phrase: "give in".to_string(), sentences: vec![] };
    assert_eq!(phrase_field_of(&vec![with.clone(), without.clone()]), "give up<br/>s1");
    assert_eq!(phrase_field_of(&vec![without, with.clone()]), "give in<br/>");
    let mut d = detail(PartOfSpeech::Verb, "p", "d", "s");
    d.explanations[0].phrases = vec![with];
    d.explanations[0].sentences.push("second sentence".to_string());
    d.explanations.push(explanation("second explanation", &["x"]));
    assert_eq!(detail_slot(&d).unwrap(), strings(&["verb", "s", "give up<br/>s1", "p<br/>d"]));
}

#[test]
fn fields_are_written_as_json_strings() {
    let lm = entry("a\"b\\c", vec![detail(PartOfSpeech::Verb, "p", "line\nbreak\ttab", "s")]);
    let payload = convert_e2e(lm).unwrap();
    assert_eq!(
        payload,
        "[[\"a\\\"b\\\\c\",\"1\",\"verb\",\"s\",\"\",\"p<br/>line\\nbreak\\ttab\",\"\",\"\",\"\",\"\",\"\",\"\",\"\",\"\"],\"\"]"
    );
    let outer: (Vec<String>, String) = serde_json::from_str(&payload).unwrap();
    assert_eq!(outer.0.len(), 14);
    assert_eq!(outer.0[0], "a\"b\\c");
    assert_eq!(outer.0[5], "p<br/>line\nbreak\ttab");
    assert_eq!(outer.1, "");
}

#[test]
fn wrapper_and_line_break() {
    assert_eq!(wrap_payload("[]"), "[[],\"\"]");
    assert_eq!(wrap_payload(""), "[,\"\"]");
    assert_eq!(join_with_break("a", "b"), "a<br/>b");
    assert_eq!(join_with_break("", ""), "<br/>");
}

#[test]
fn decimal_strings() {
    assert_eq!(decimal_string(0), "0");
    assert_eq!(decimal_string(7), "7");
    assert_eq!(decimal_string(10), "10");
    assert_eq!(decimal_string(409), "409");
    assert_eq!(decimal_string(1234567890), "1234567890");
    assert_eq!(decimal_string(usize::MAX), usize::MAX.to_string());
}

#[test]
fn count_field_is_the_raw_number_of_details() {
    let d = detail(PartOfSpeech::Verb, "p", "d", "s");
    let lm = entry("w", vec![d; 12]);
    assert_eq!(encode_fields(&lm).unwrap()[1], "12");
}
