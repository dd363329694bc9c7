//! The translation layer: request URLs and response classification.
//!
//! Each operation is one HTTP exchange. The unverified shell performs the
//! exchange and reports its outcome as an [`Exchange`]; the functions here
//! build the request URLs beforehand and classify the outcome afterwards,
//! so that every decision the client makes is verified.

use vstd::prelude::*;
use crate::db_error::{DBError, DBErrorKind};
use crate::lines::split_lines;

verus! {

/// The outcome of one HTTP exchange, as the shell reports it.
pub enum Exchange {
    /// The exchange itself failed; the string is the transport's
    /// description of the failure.
    Failed(String),
    /// The store answered: its status code, and its body decoded as text,
    /// or `None` where the body was not read or could not be decoded.
    Responded(u16, Option<String>),
}

/// The URL of a listing request: the endpoint with the prefix, or an
/// empty prefix, as the `prefix` query parameter.
pub open spec fn list_url_spec(endpoint: Seq<char>, prefix: Option<Seq<char>>) -> Seq<char> {
    endpoint + "?prefix="@ + match prefix {
        Some(p) => p,
        None => Seq::<char>::empty(),
    }
}

/// The URL of a get or delete request: the key appended to the endpoint
/// as one more path segment.
pub open spec fn key_url_spec(endpoint: Seq<char>, key: Seq<char>) -> Seq<char> {
    endpoint + "/"@ + key
}

/// An absent prefix and an empty prefix ask for the same listing.
pub proof fn lemma_list_url_unfiltered(endpoint: Seq<char>)
    ensures
        list_url_spec(endpoint, None) == list_url_spec(endpoint, Some(Seq::<char>::empty())),
{
}

/// Builds the URL a listing request is sent to. The prefix is embedded
/// verbatim; an absent prefix is sent as an empty one.
pub fn list_request_url(endpoint: &str, prefix: Option<&str>) -> (url: String)
    ensures
        prefix matches Some(p) ==> url@ == list_url_spec(endpoint@, Some(p@)),
        prefix is None ==> url@ == list_url_spec(endpoint@, None),
{
    let mut url = endpoint.to_owned();
    url.append("?prefix=");
    match prefix {
        Some(p) => {
            url.append(p);
        },
        None => {
            proof {
                assert(url@ + Seq::<char>::empty() =~= url@);
            }
        },
    }
    url
}

/// Builds the URL a get or delete request is sent to: the key appended
/// to the endpoint, unescaped.
pub fn key_request_url(endpoint: &str, key: &str) -> (url: String)
    ensures
        url@ == key_url_spec(endpoint@, key@),
{
    let mut url = endpoint.to_owned();
    url.append("/");
    url.append(key);
    url
}

/// The views of a sequence of owned strings.
pub open spec fn string_views(v: Seq<String>) -> Seq<Seq<char>> {
    v.map_values(|s: String| s@)
}

/// The keys a listing body denotes: a body of more than one character is
/// split on the newline character; an empty or one-character body means
/// no keys at all.
pub open spec fn list_keys_spec(body: Seq<char>) -> Seq<Seq<char>> {
    if body.len() > 1 {
        split_lines(body)
    } else {
        Seq::<Seq<char>>::empty()
    }
}

/// Reads a listing body into its keys, exactly as [`list_keys_spec`]
/// says: bodies of at most one character yield no keys.
pub fn parse_list_body(body: &str) -> (keys: Vec<String>)
    ensures
        string_views(keys@) == list_keys_spec(body@),
{
    let n = body.unicode_len();
    if n <= 1 {
        let keys: Vec<String> = Vec::new();
        proof {
            assert(string_views(keys@) =~= list_keys_spec(body@));
        }
        return keys;
    }
    let mut keys: Vec<String> = Vec::new();
    let mut start: usize = 0;
    let mut i: usize = 0;
    proof {
        assert(body@.skip(0) =~= body@);
        assert(string_views(keys@) + split_lines(body@) =~= split_lines(body@));
    }
    while i < n
        invariant
            n == body@.len(),
            start <= i <= n,
            forall|j: int| start <= j < i ==> body@[j] != '\n',
            split_lines(body@) =~= string_views(keys@) + split_lines(body@.skip(start as int)),
        decreases n - i,
    {
        if body.get_char(i) == '\n' {
            let segment = body.substring_char(start, i);
            let ghost earlier = keys@;
            keys.push(segment.to_owned());
            proof {
                let tail = body@.skip(start as int);
                assert(tail[i - start] == '\n');
                assert(forall|j: int| 0 <= j < i - start ==> tail[j] != '\n');
                crate::lines::lemma_split_first_newline(tail, i - start);
                assert(tail.take(i - start) =~= segment@);
                assert(tail.skip(i - start + 1) =~= body@.skip(i + 1));
                assert(string_views(keys@) =~= string_views(earlier) + seq![segment@]);
            }
            start = i + 1;
        }
        i += 1;
    }
    let last = body.substring_char(start, n);
    let ghost earlier = keys@;
    keys.push(last.to_owned());
    proof {
        let tail = body@.skip(start as int);
        crate::lines::lemma_split_no_newline(tail);
        assert(tail =~= last@);
        assert(string_views(keys@) =~= string_views(earlier) + seq![last@]);
        assert(string_views(keys@) =~= list_keys_spec(body@));
    }
    keys
}

/// The characters of a body that may not have been read or decoded.
pub open spec fn body_view(body: Option<String>) -> Option<Seq<char>> {
    match body {
        Some(t) => Some(t@),
        None => None,
    }
}

/// The observable part of a get result: the value's characters, or the
/// kind of the error.
pub open spec fn get_result_view(r: Result<String, DBError>) -> Result<Seq<char>, DBErrorKind> {
    match r {
        Ok(v) => Ok(v@),
        Err(e) => Err(e.kind),
    }
}

/// The observable part of a delete result: the acknowledgment, or the
/// kind of the error.
pub open spec fn delete_result_view(r: Result<bool, DBError>) -> Result<bool, DBErrorKind> {
    match r {
        Ok(b) => Ok(b),
        Err(e) => Err(e.kind),
    }
}

/// How the client reads a completed get exchange: status 404 means not
/// found before the body matters; otherwise an unread or undecodable
/// body is a parse failure, and a decoded one is the value, verbatim.
pub open spec fn classify_get(status: u16, body: Option<Seq<char>>) -> Result<
    Seq<char>,
    DBErrorKind,
> {
    if status == 404 {
        Err(DBErrorKind::NotFound)
    } else {
        match body {
            None => Err(DBErrorKind::ParseText),
            Some(t) => Ok(t),
        }
    }
}

/// How the client reads a completed delete exchange: status 404 means
/// not found; anything else is an acknowledgment.
pub open spec fn classify_delete(status: u16) -> Result<bool, DBErrorKind> {
    if status == 404 {
        Err(DBErrorKind::NotFound)
    } else {
        Ok(true)
    }
}

/// Concludes a set operation: any completed exchange counts as success,
/// whatever its status; a transport failure is a request error carrying
/// the transport's description.
pub fn conclude_set(exchange: Exchange) -> (r: Result<bool, DBError>)
    ensures
        exchange matches Exchange::Failed(m) ==> (r matches Err(e) && e.kind
            == DBErrorKind::Request && e.message@ == m@),
        exchange matches Exchange::Responded(_, _) ==> r == Ok::<bool, DBError>(true),
{
    match exchange {
        Exchange::Failed(m) => Err(DBError::request_error(m)),
        Exchange::Responded(_, _) => Ok(true),
    }
}

/// Concludes a delete operation: status 404 means the key was not held;
/// any other completed exchange counts as success, and its body is never
/// read.
pub fn conclude_delete(exchange: Exchange) -> (r: Result<bool, DBError>)
    ensures
        exchange matches Exchange::Failed(m) ==> (r matches Err(e) && e.kind
            == DBErrorKind::Request && e.message@ == m@),
        exchange matches Exchange::Responded(s, _) ==> delete_result_view(r) == classify_delete(s),
        exchange matches Exchange::Responded(s, _) && s == 404 ==> (r matches Err(e)
            && e.message@ == "Not Found"@),
{
    match exchange {
        Exchange::Failed(m) => Err(DBError::request_error(m)),
        Exchange::Responded(status, _) => {
            if status == 404 {
                Err(DBError::not_found_error())
            } else {
                Ok(true)
            }
        },
    }
}

/// Concludes a get operation. Status 404 means the key was not held and
/// is checked before the body matters; otherwise an unreadable body is a
/// parse failure, and a readable one is the value, verbatim.
pub fn conclude_get(exchange: Exchange) -> (r: Result<String, DBError>)
    ensures
        exchange matches Exchange::Failed(m) ==> (r matches Err(e) && e.kind
            == DBErrorKind::Request && e.message@ == m@),
        exchange matches Exchange::Responded(s, b) ==> get_result_view(r) == classify_get(
            s,
            body_view(b),
        ),
        exchange matches Exchange::Responded(s, _) && s == 404 ==> (r matches Err(e)
            && e.message@ == "Not Found"@),
        exchange matches Exchange::Responded(s, b) && s != 404 && b is None ==> (r matches Err(e)
            && e.message@ == "Unable to parse text"@),
        exchange matches Exchange::Responded(s, b) ==> (s != 404 ==> (b matches Some(t) ==> (
        r matches Ok(v) && v == t))),
{
    match exchange {
        Exchange::Failed(m) => Err(DBError::request_error(m)),
        Exchange::Responded(status, body) => {
            if status == 404 {
                Err(DBError::not_found_error())
            } else {
                match body {
                    None => Err(DBError::parse_text_error()),
                    Some(text) => Ok(text),
                }
            }
        },
    }
}

/// Concludes a listing operation: a transport failure is a request
/// error, an unreadable body a parse failure, and a readable body is
/// split into keys as [`list_keys_spec`] says; the status is ignored.
pub fn conclude_list(exchange: Exchange) -> (r: Result<Vec<String>, DBError>)
    ensures
        exchange matches Exchange::Failed(m) ==> (r matches Err(e) && e.kind
            == DBErrorKind::Request && e.message@ == m@),
        exchange matches Exchange::Responded(_, b) && b is None ==> (r matches Err(e) && e.kind
            == DBErrorKind::ParseText && e.message@ == "Unable to parse text"@),
        exchange matches Exchange::Responded(_, b) ==> (b matches Some(t) ==> (r matches Ok(keys)
            && string_views(keys@) == list_keys_spec(t@))),
{
    match exchange {
        Exchange::Failed(m) => Err(DBError::request_error(m)),
        Exchange::Responded(_, body) => {
            match body {
                None => Err(DBError::parse_text_error()),
                Some(text) => Ok(parse_list_body(text.as_str())),
            }
        },
    }
}

} // verus!
