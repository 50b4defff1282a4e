//! What the command line says.

use vstd::prelude::*;
use crate::config::Config;
use crate::text::texts;

verus! {

/// The arguments of the program: the words to save, and the directory of the
/// configuration file where one is named.
#[derive(Debug, Clone)]
pub struct Args {
    pub words: Vec<String>,
    pub path: Option<String>,
}

/// The directory that the arguments name, as text.
pub open spec fn named_path(args: Args) -> Option<Seq<char>> {
    match args.path {
        Some(p) => Some(p@),
        None => None,
    }
}

/// Puts together what was read on the command line and in the
/// configuration file: the words in their order, the directory if one was
/// named, and the configuration of that user.
pub fn parse_args(
    words: Vec<String>,
    path: Option<String>,
    username: String,
    password: String,
) -> (r: (Config, Args))
    ensures
        r.0.username@ == username@,
        r.0.password@ == password@,
        texts(r.1.words@) == texts(words@),
        named_path(r.1) == match path {
            Some(p) => Some(p@),
            None => None,
        },
{
    (Config::new(username, password), Args { words, path })
}

} // verus!
