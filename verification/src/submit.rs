//! The one write request that saves a note, and what its answer means.

use vstd::prelude::*;
use vstd::string::StringExecFns;
use crate::encode::{convert_e2e, payload_of, EncodeError};
use crate::model::LongMan;
use crate::session::{
    build_cookie, cookies_of, is_cookie_header, pair_texts, Session,
};

verus! {

/// Where notes are saved.
pub const SAVE_URL: &'static str = "https://ankiuser.net/edit/save";

/// The content type of the request.
pub const CONTENT_TYPE: &'static str = "application/x-www-form-urlencoded; charset=UTF-8";

/// The user agent that the request shows.
pub const USER_AGENT: &'static str =
    "Mozilla/5.0 (Macintosh; Intel Mac OS X 10_15_7) AppleWebKit/537.36 (KHTML, like Gecko) Chrome/110.0.0.0 Safari/537.36";

/// The form fields of the request, in the order in which they are written:
/// `nid`, always empty; `data`, the payload; and the session's `csrf_token`,
/// `mid` and `deck`.
pub open spec fn form_fields(data: Seq<char>, session: Session) -> Seq<(Seq<char>, Seq<char>)> {
    seq![
        ("nid"@, Seq::<char>::empty()),
        ("data"@, data),
        ("csrf_token"@, session.csrf_token@),
        ("mid"@, session.mid@),
        ("deck"@, session.deck@),
    ]
}

/// The form fields of the request that saves the payload `data`.
pub fn build_params(data: String, session: &Session) -> (r: Vec<(String, String)>)
    ensures
        pair_texts(r@) == form_fields(data@, *session),
{
    let mut params: Vec<(String, String)> = Vec::new();
    params.push((String::from_str("nid"), String::new()));
    params.push((String::from_str("data"), data));
    params.push((String::from_str("csrf_token"), session.csrf_token.clone()));
    params.push((String::from_str("mid"), session.mid.clone()));
    params.push((String::from_str("deck"), session.deck.clone()));
    assert(pair_texts(params@) =~= form_fields(data@, *session));
    params
}

/// A request to the note service, ready to be sent.
#[derive(Debug, Clone)]
pub struct SaveRequest {
    pub url: String,
    pub content_type: String,
    pub cookie: String,
    pub user_agent: String,
    /// The form fields, each a name and a value.
    pub params: Vec<(String, String)>,
}

/// Whether `request` is the request that saves the payload `data` in the
/// session: the fixed address and headers, the session's cookies as the
/// `Cookie` header, and the form fields of the payload.
pub open spec fn saves(request: SaveRequest, data: Seq<char>, session: Session) -> bool {
    &&& request.url@ == SAVE_URL@
    &&& request.content_type@ == CONTENT_TYPE@
    &&& request.user_agent@ == USER_AGENT@
    &&& is_cookie_header(request.cookie@, cookies_of(pair_texts(session.cookies@)))
    &&& pair_texts(request.params@) == form_fields(data, session)
}

/// The request that saves the payload `data`.
pub fn save_request(data: String, session: &Session) -> (r: SaveRequest)
    ensures
        saves(r, data@, *session),
{
    let cookie = build_cookie(session);
    let params = build_params(data, session);
    SaveRequest {
        url: String::from_str(SAVE_URL),
        content_type: String::from_str(CONTENT_TYPE),
        cookie,
        user_agent: String::from_str(USER_AGENT),
        params,
    }
}

/// Prepares the saving of an entry: encodes it and makes the request that
/// saves its payload. It fails exactly where the encoding fails, with the
/// encoding's error.
pub fn save(lm: LongMan, session: &Session) -> (r: Result<SaveRequest, EncodeError>)
    ensures
        match r {
            Ok(request) => payload_of(lm@) is Ok && saves(request, payload_of(lm@).unwrap(), *session),
            Err(e) => payload_of(lm@) == Err::<Seq<char>, EncodeError>(e),
        },
{
    match convert_e2e(lm) {
        Err(e) => Err(e),
        Ok(data) => Ok(save_request(data, session)),
    }
}

/// The note service turned the request down; `body` is what it answered.
#[derive(Debug, Clone)]
pub struct RemoteRejection {
    pub body: String,
}

/// What the answer to the request means: success where the status says so,
/// otherwise a rejection that carries the answer's body unchanged.
pub fn save_outcome(success: bool, body: String) -> (r: Result<(), RemoteRejection>)
    ensures
        match r {
            Ok(_) => success,
            Err(e) => !success && e.body@ == body@,
        },
{
    if success {
        Ok(())
    } else {
        Err(RemoteRejection { body })
    }
}

} // verus!
