//! One job per word: look the word up, extract its entry, encode it, save
//! it. The fetching and the sending are done by the caller; what is decided
//! between them is decided here, for each word by itself.

use vstd::prelude::*;
use vstd::string::{StrSliceExecFns, StringExecFns};
use crate::encode::{decimal, decimal_string, payload_of, EncodeError};
use crate::extract::{entry_of, parse};
use crate::text::texts;
use crate::page::{page_blocks, MAX_PAGE_LEN};
use crate::session::Session;
use crate::submit::{save, save_outcome, saves, SaveRequest};

verus! {

/// Where a word is looked up: the word is put behind this address.
pub const DICTIONARY_URL: &'static str = "https://www.ldoceonline.com/dictionary/";

/// Why the job of a word failed.
#[derive(Debug, Clone)]
pub enum JobError {
    /// The page could not be fetched or the request could not be sent.
    Network { message: String },
    /// The first explanation of the detail at this index has no example
    /// sentence.
    MissingExampleSentence { detail: usize },
    /// The page is longer than the parser takes.
    PageTooLong,
    /// The note service turned the request down.
    RemoteRejection { body: String },
}

/// The text that describes an error.
pub open spec fn error_text(e: JobError) -> Seq<char> {
    match e {
        JobError::Network { message } => message@,
        JobError::MissingExampleSentence { detail } => "no example sentence in the first explanation of detail "@
            + decimal(detail as nat),
        JobError::PageTooLong => "the dictionary page is too long to be read"@,
        JobError::RemoteRejection { body } => body@,
    }
}

impl JobError {
    /// The error as text, for the report of the job.
    pub fn message(&self) -> (s: String)
        ensures
            s@ == error_text(*self),
    {
        match self {
            JobError::Network { message } => message.clone(),
            JobError::MissingExampleSentence { detail } => {
                let mut s = String::from_str(
                    "no example sentence in the first explanation of detail ",
                );
                s.append(decimal_string(*detail).as_str());
                s
            },
            JobError::PageTooLong => String::from_str("the dictionary page is too long to be read"),
            JobError::RemoteRejection { body } => body.clone(),
        }
    }
}

/// The address of the dictionary page of a word.
pub fn lookup_url(word: &str) -> (url: String)
    ensures
        url@ == DICTIONARY_URL@ + word@,
{
    let mut url = String::from_str(DICTIONARY_URL);
    url.append(word);
    url
}

/// The words to work on: those given, each as often as it was given; or,
/// where none was given, the one word from the clipboard, if there is one.
pub open spec fn chosen_words(given: Seq<Seq<char>>, clipboard: Option<Seq<char>>) -> Seq<
    Seq<char>,
> {
    if given.len() > 0 {
        given
    } else {
        match clipboard {
            Some(word) => seq![word],
            None => Seq::empty(),
        }
    }
}

/// Whether the clipboard has to be read: only where no word was given.
pub fn needs_clipboard(words: &Vec<String>) -> (r: bool)
    ensures
        r == (words@.len() == 0),
{
    words.len() == 0
}

/// What a clipboard text is as an optional text.
pub open spec fn optional_text(t: Option<String>) -> Option<Seq<char>> {
    match t {
        Some(s) => Some(s@),
        None => None,
    }
}

/// The words to work on, in the order given. Nothing is taken out: a word
/// given twice is worked on twice.
pub fn job_words(words: Vec<String>, clipboard: Option<String>) -> (r: Vec<String>)
    ensures
        texts(r@) == chosen_words(texts(words@), optional_text(clipboard)),
{
    if words.len() > 0 {
        words
    } else {
        let mut out: Vec<String> = Vec::new();
        match clipboard {
            Some(word) => {
                out.push(word);
                assert(texts(out@) =~= seq![word@]);
            },
            None => {
                assert(texts(out@) =~= Seq::<Seq<char>>::empty());
            },
        }
        out
    }
}

/// The job of a word once its page has been asked for: where the page did
/// not come, the job fails with the transport's message, and where it is
/// longer than the parser takes, with that; otherwise the entry is extracted
/// from the page and encoded, and the job goes on with the request that
/// saves it, or fails as the encoding fails.
pub fn save_word(word: String, page: Result<String, String>, session: &Session) -> (r: Result<
    SaveRequest,
    JobError,
>)
    ensures
        match page {
            Err(message) => r matches Err(JobError::Network { message: m }) && m@ == message@,
            Ok(html) => if html@.len() > MAX_PAGE_LEN {
                r matches Err(JobError::PageTooLong)
            } else {
                match payload_of(entry_of(word@, page_blocks(html@))) {
                    Ok(data) => r matches Ok(request) && saves(request, data, *session),
                    Err(EncodeError::MissingExampleSentence { detail }) => r matches Err(
                        JobError::MissingExampleSentence { detail: d },
                    ) && d == detail,
                }
            },
        },
{
    match page {
        Err(message) => Err(JobError::Network { message }),
        Ok(html) => {
            if html.as_str().unicode_len() > MAX_PAGE_LEN {
                return Err(JobError::PageTooLong);
            }
            let lm = parse(word, html.as_str());
            match save(lm, session) {
                Ok(request) => Ok(request),
                Err(EncodeError::MissingExampleSentence { detail }) => Err(
                    JobError::MissingExampleSentence { detail },
                ),
            }
        },
    }
}

/// The end of the job of a word, from what became of its request: a
/// transport failure with its message, a rejection with the answer's body,
/// or success.
pub fn finish_word(answer: Result<(bool, String), String>) -> (r: Result<(), JobError>)
    ensures
        match answer {
            Err(message) => r matches Err(JobError::Network { message: m }) && m@ == message@,
            Ok((success, body)) => if success {
                r is Ok
            } else {
                r matches Err(JobError::RemoteRejection { body: b }) && b@ == body@
            },
        },
{
    match answer {
        Err(message) => Err(JobError::Network { message }),
        Ok((success, body)) => match save_outcome(success, body) {
            Ok(_) => Ok(()),
            Err(rejection) => Err(JobError::RemoteRejection { body: rejection.body }),
        },
    }
}

/// How the job of one word ended.
#[derive(Debug)]
pub struct Outcome {
    pub word: String,
    pub result: Result<(), JobError>,
}

/// The line that reports an outcome: a mark and the word, and after a
/// failure the error.
pub open spec fn report_text(outcome: Outcome) -> Seq<char> {
    match outcome.result {
        Ok(_) => "[\u{221a}] "@ + outcome.word@,
        Err(e) => "[X] "@ + outcome.word@ + " detail: "@ + error_text(e),
    }
}

impl Outcome {
    /// Whether the job succeeded.
    pub fn succeeded(&self) -> (r: bool)
        ensures
            r == self.result is Ok,
    {
        self.result.is_ok()
    }

    /// The line that reports this outcome.
    pub fn report_line(&self) -> (s: String)
        ensures
            s@ == report_text(*self),
    {
        match &self.result {
            Ok(_) => {
                let mut s = String::from_str("[\u{221a}] ");
                s.append(self.word.as_str());
                s
            },
            Err(e) => {
                let mut s = String::from_str("[X] ");
                s.append(self.word.as_str());
                s.append(" detail: ");
                s.append(e.message().as_str());
                s
            },
        }
    }
}

/// The report of all jobs: one line for each outcome, in the order of the
/// outcomes, whatever the others were.
pub fn report(outcomes: &Vec<Outcome>) -> (lines: Vec<String>)
    ensures
        lines@.len() == outcomes@.len(),
        forall|i: int| 0 <= i < lines@.len() ==> (#[trigger] lines@[i])@ == report_text(outcomes@[i]),
{
    let mut lines: Vec<String> = Vec::new();
    let mut i: usize = 0;
    while i < outcomes.len()
        invariant
            0 <= i <= outcomes@.len(),
            lines@.len() == i,
            forall|k: int| 0 <= k < i ==> (#[trigger] lines@[k])@ == report_text(outcomes@[k]),
        decreases outcomes@.len() - i,
    {
        lines.push(outcomes[i].report_line());
        i = i + 1;
    }
    lines
}

} // verus!
