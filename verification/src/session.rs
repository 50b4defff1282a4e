//! The session with the note service: the credentials that are supplied to
//! the library, and the `Cookie` header that is made of them.

use vstd::prelude::*;
use vstd::string::StringExecFns;
use crate::text::texts;
use crate::text::{join, joined};

verus! {

/// What the note service wants to see again on each request. None of it is
/// made here: it is handed in.
#[derive(Debug, Clone)]
pub struct Session {
    pub csrf_token: String,
    /// The note type.
    pub mid: String,
    pub deck: String,
    /// The session's cookies, each a name and a value.
    pub cookies: Vec<(String, String)>,
}

/// A name and a value as texts.
pub open spec fn pair_text(p: (String, String)) -> (Seq<char>, Seq<char>) {
    (p.0@, p.1@)
}

/// What a vector of names and values holds.
pub open spec fn pair_texts(v: Seq<(String, String)>) -> Seq<(Seq<char>, Seq<char>)> {
    Seq::new(v.len(), |i: int| pair_text(v[i]))
}

/// `cookie::CookieJar`. Nothing inside it is seen here.
#[verifier::external_type_specification]
#[verifier::external_body]
pub struct ExCookieJar(cookie::CookieJar);

/// The cookies in a jar: the value under each name.
pub uninterp spec fn jar_cookies(jar: cookie::CookieJar) -> Map<Seq<char>, Seq<char>>;

/// No cookie under any name.
pub open spec fn no_cookies() -> Map<Seq<char>, Seq<char>> {
    Map::empty()
}

/// One cookie as a header shows it.
pub open spec fn cookie_line(name: Seq<char>, value: Seq<char>) -> Seq<char> {
    name + "="@ + value
}

/// Whether `lines` shows each cookie of `cookies` once, in whatever order.
pub open spec fn shows_each_once(lines: Seq<Seq<char>>, cookies: Map<Seq<char>, Seq<char>>) -> bool {
    exists|names: Seq<Seq<char>>| #[trigger]
        lists(names, cookies) && lines == Seq::new(
            names.len(),
            |i: int| cookie_line(names[i], cookies[names[i]]),
        )
}

/// Whether `names` lists the names in `cookies`, each once.
pub open spec fn lists(names: Seq<Seq<char>>, cookies: Map<Seq<char>, Seq<char>>) -> bool {
    names.no_duplicates() && names.to_set() == cookies.dom()
}

/// `cookie::CookieJar::new`: a jar without cookies.
#[verifier::external_body]
fn new_jar() -> (jar: cookie::CookieJar)
    ensures
        jar_cookies(jar) == no_cookies(),
{
    cookie::CookieJar::new()
}

/// `cookie::CookieJar::add` with a cookie made by `cookie::Cookie::new`: the
/// jar then holds the value under the name, in place of any cookie that it
/// held under that name, and its other cookies as before.
#[verifier::external_body]
fn add_cookie(jar: &mut cookie::CookieJar, name: &str, value: &str)
    ensures
        jar_cookies(*final(jar)) == jar_cookies(*old(jar)).insert(name@, value@),
{
    jar.add(cookie::Cookie::new(name.to_owned(), value.to_owned()))
}

/// `cookie::CookieJar::iter`, each cookie written by its `Display`: a cookie
/// that was made of a name and a value alone is written as the name, `=` and
/// the value. The jar hands its cookies out in no order that can be counted
/// on.
#[verifier::external_body]
fn cookie_lines(jar: &cookie::CookieJar) -> (lines: Vec<String>)
    ensures
        shows_each_once(crate::text::texts(lines@), jar_cookies(*jar)),
{
    jar.iter().map(|c| c.to_string()).collect()
}

/// The cookies that a list of names and values leaves in a jar: under each
/// name the value that was given last.
pub open spec fn cookies_of(pairs: Seq<(Seq<char>, Seq<char>)>) -> Map<Seq<char>, Seq<char>>
    decreases pairs.len(),
{
    if pairs.len() == 0 {
        Map::empty()
    } else {
        cookies_of(pairs.drop_last()).insert(pairs.last().0, pairs.last().1)
    }
}

/// Whether `text` is a `Cookie` header of `cookies`: each cookie once, as
/// its name, `=` and its value, with `; ` between them, in whatever order.
pub open spec fn is_cookie_header(text: Seq<char>, cookies: Map<Seq<char>, Seq<char>>) -> bool {
    exists|lines: Seq<Seq<char>>| #[trigger]
        shows_each_once(lines, cookies) && text == joined(lines, "; "@)
}

/// Makes the `Cookie` header of a session: its cookies go through a cookie
/// jar, which keeps the last value given under a name, and come out as one
/// line.
pub fn build_cookie(session: &Session) -> (r: String)
    ensures
        is_cookie_header(r@, cookies_of(pair_texts(session.cookies@))),
{
    let mut jar = new_jar();
    let ghost all = pair_texts(session.cookies@);
    let mut i: usize = 0;
    assert(all.take(0) =~= Seq::<(Seq<char>, Seq<char>)>::empty());
    while i < session.cookies.len()
        invariant
            0 <= i <= session.cookies@.len(),
            all == pair_texts(session.cookies@),
            jar_cookies(jar) == cookies_of(all.take(i as int)),
        decreases session.cookies@.len() - i,
    {
        proof {
            assert(all.take(i + 1).drop_last() =~= all.take(i as int));
            assert(all.take(i + 1).last() == pair_text(session.cookies@[i as int]));
        }
        let pair = &session.cookies[i];
        add_cookie(&mut jar, pair.0.as_str(), pair.1.as_str());
        i = i + 1;
    }
    assert(all.take(i as int) =~= all);
    let lines = cookie_lines(&jar);
    join(&lines, "; ")
}

/// The header of a session with one cookie is that cookie: its name, `=`
/// and its value.
pub proof fn lemma_single_cookie(name: Seq<char>, value: Seq<char>, text: Seq<char>)
    requires
        is_cookie_header(text, cookies_of(seq![(name, value)])),
    ensures
        text == cookie_line(name, value),
{
    let cookies = cookies_of(seq![(name, value)]);
    assert(seq![(name, value)].drop_last() =~= Seq::<(Seq<char>, Seq<char>)>::empty());
    reveal_with_fuel(cookies_of, 2);
    assert(cookies =~= Map::<Seq<char>, Seq<char>>::empty().insert(name, value));
    let lines = choose|lines: Seq<Seq<char>>| #[trigger]
        shows_each_once(lines, cookies) && text == joined(lines, "; "@);
    let names = choose|names: Seq<Seq<char>>| #[trigger]
        lists(names, cookies) && lines == Seq::new(
            names.len(),
            |i: int| cookie_line(names[i], cookies[names[i]]),
        );
    assert(cookies.dom() =~= set![name]);
    names.unique_seq_to_set();
    assert(names.len() == 1);
    assert(names.to_set().contains(names[0]));
    assert(names[0] == name);
}

} // verus!
