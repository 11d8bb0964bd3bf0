use vstd::prelude::*;
use vstd::string::{StrSliceExecFns, StringExecFns};
use crate::error::{invalid_input, BridgeError};
use crate::payload::{blank, is_blank};

verus! {

/// The entries of a header configuration text, as (name, value) pairs in
/// order of name; `None` when the text is not a JSON object whose values are
/// all strings.
pub uninterp spec fn header_entries_of(text: Seq<char>) -> Option<Seq<(Seq<char>, Seq<char>)>>;

/// A character that may stand in an HTTP header name (a `tchar` of RFC 7230):
/// an ASCII letter or digit, or one of ``!#$%&'*+-.^_`|~``.
pub open spec fn header_name_char(c: char) -> bool {
    ('a' <= c && c <= 'z') || ('A' <= c && c <= 'Z') || ('0' <= c && c <= '9') || c == '!' || c
        == '#' || c == '$' || c == '%' || c == '&' || c == '\'' || c == '*' || c == '+' || c == '-'
        || c == '.' || c == '^' || c == '_' || c == '`' || c == '|' || c == '~'
}

/// Whether `name` is a valid HTTP header name: 1 to 65535 characters, each
/// one that may stand in a name.
pub open spec fn header_name_accepted(name: Seq<char>) -> bool {
    &&& 1 <= name.len() <= 65535
    &&& forall|i: int| 0 <= i < name.len() ==> header_name_char(#[trigger] name[i])
}

/// The pairs of strings `v`, seen as pairs of character sequences.
pub open spec fn pair_views(v: Seq<(String, String)>) -> Seq<(Seq<char>, Seq<char>)> {
    v.map_values(|p: (String, String)| (p.0@, p.1@))
}

/// No name occurs twice among `entries`.
pub open spec fn distinct_names(entries: Seq<(Seq<char>, Seq<char>)>) -> bool {
    forall|i: int, j: int|
        0 <= i < j < entries.len() ==> #[trigger] entries[i].0 != #[trigger] entries[j].0
}

/// Relies on `serde_json::from_str` into a `BTreeMap<String, String>`: it
/// succeeds exactly on a JSON object whose values are strings, the result
/// depends on the text alone, and a map holds each name once.
#[verifier::external_body]
fn parse_header_object(text: &str) -> (r: Option<Vec<(String, String)>>)
    ensures
        r is None ==> header_entries_of(text@) is None,
        r matches Some(v) ==> header_entries_of(text@) == Some(pair_views(v@)),
        r matches Some(v) ==> distinct_names(pair_views(v@)),
{
    match serde_json::from_str::<std::collections::BTreeMap<String, String>>(text) {
        Ok(m) => Some(m.into_iter().collect()),
        Err(_) => None,
    }
}

/// Relies on `HeaderName::from_bytes` of the http crate (as re-exported by
/// reqwest), which accepts 1 to 65535 bytes, each a token character of its
/// table (an upper-case letter is taken as lower case); every byte of a
/// character outside ASCII maps to 0 there and is refused.
#[verifier::external_body]
fn is_header_name(name: &str) -> (r: bool)
    ensures
        r == header_name_accepted(name@),
{
    reqwest::header::HeaderName::from_bytes(name.as_bytes()).is_ok()
}

/// A character that may stand in a header value: a tab, or a character at or
/// above the space other than DEL.
pub open spec fn header_value_char(c: char) -> bool {
    c == '\t' || (c as u32 >= 32 && c as u32 != 127)
}

/// Whether `value` is a valid HTTP header value.
pub open spec fn header_value_accepted(value: Seq<char>) -> bool {
    forall|i: int| 0 <= i < value.len() ==> header_value_char(#[trigger] value[i])
}

/// Relies on `HeaderValue::from_str` of the http crate (as re-exported by
/// reqwest), which accepts a text exactly when every byte is a tab, or at least
/// 32 and not 127; every byte of a character outside ASCII is 128 or more.
#[verifier::external_body]
fn is_header_value(value: &str) -> (r: bool)
    ensures
        r == header_value_accepted(value@),
{
    reqwest::header::HeaderValue::from_str(value).is_ok()
}

/// The token of a bearer credential `Bearer <token>`; `None` for a value in
/// another form.
pub open spec fn bearer_token(value: Seq<char>) -> Option<Seq<char>> {
    if value.len() >= 7 && value.take(7) == "Bearer "@ {
        Some(value.skip(7))
    } else {
        None
    }
}

/// Whether `entry` is a bearer credential that goes to the transport's own
/// authorization field.
pub open spec fn transport_credential(entry: (Seq<char>, Seq<char>), split_authorization: bool) -> bool {
    split_authorization && entry.0 == "Authorization"@ && bearer_token(entry.1) is Some
}

/// Whether the header `(name, value)` is installed as a default header of the
/// HTTP client. A bearer credential that goes to the transport's own field is
/// not installed.
pub open spec fn installs(entry: (Seq<char>, Seq<char>), split_authorization: bool) -> bool {
    &&& !transport_credential(entry, split_authorization)
    &&& header_name_accepted(entry.0)
    &&& header_value_accepted(entry.1)
}

/// The headers installed from `entries`, in their order.
pub open spec fn installed_headers(
    entries: Seq<(Seq<char>, Seq<char>)>,
    split_authorization: bool,
) -> Seq<(Seq<char>, Seq<char>)> {
    entries.filter(|e: (Seq<char>, Seq<char>)| installs(e, split_authorization))
}

/// The token of the last bearer credential among `entries` that goes to the
/// transport's own field, if any.
pub open spec fn credential_of(entries: Seq<(Seq<char>, Seq<char>)>) -> Option<Seq<char>>
    decreases entries.len(),
{
    if entries.len() == 0 {
        None
    } else if transport_credential(entries.last(), true) {
        bearer_token(entries.last().1)
    } else {
        credential_of(entries.drop_last())
    }
}

/// An optional string, seen as an optional character sequence.
pub open spec fn opt_view(o: Option<String>) -> Option<Seq<char>> {
    match o {
        Some(s) => Some(s@),
        None => None,
    }
}

/// An optional text, seen as an optional character sequence.
pub open spec fn opt_str_view(o: Option<&str>) -> Option<Seq<char>> {
    match o {
        Some(s) => Some(s@),
        None => None,
    }
}

/// What a connect hands to the transport: the target, the transport kind, the
/// value for the transport's authorization field, and the default headers of
/// the HTTP client.
pub struct ConnectPlan {
    pub url: String,
    pub legacy_transport: bool,
    pub authorization: Option<String>,
    pub headers: Vec<(String, String)>,
}

/// Splits off the token of `Bearer <token>`; `None` for a value in another form.
pub fn bearer_token_of(value: &str) -> (r: Option<String>)
    ensures
        opt_view(r) == bearer_token(value@),
{
    let n = value.unicode_len();
    if n < 7 {
        return None;
    }
    let scheme = String::from_str(value.substring_char(0, 7));
    if scheme == String::from_str("Bearer ") {
        Some(String::from_str(value.substring_char(7, n)))
    } else {
        None
    }
}

/// Sorts header entries: with `split_authorization`, a bearer credential in
/// the `Authorization` entry goes, as its token, to the transport's own field
/// (which sends it as `Authorization: Bearer <token>`) and stays out of the
/// default headers; entries whose name or value HTTP does not accept are left
/// out.
pub fn plan_headers(entries: &Vec<(String, String)>, split_authorization: bool) -> (r: (
    Option<String>,
    Vec<(String, String)>,
))
    ensures
        pair_views(r.1@) == installed_headers(pair_views(entries@), split_authorization),
        split_authorization ==> opt_view(r.0) == credential_of(pair_views(entries@)),
        !split_authorization ==> r.0 is None,
{
    let ghost all = pair_views(entries@);
    let ghost keep = |e: (Seq<char>, Seq<char>)| installs(e, split_authorization);
    let auth_name = String::from_str("Authorization");
    let mut authorization: Option<String> = None;
    let mut out: Vec<(String, String)> = Vec::new();
    let n = entries.len();
    let mut i: usize = 0;
    proof {
        assert(all.take(0) =~= Seq::<(Seq<char>, Seq<char>)>::empty());
        assert(pair_views(out@) =~= Seq::<(Seq<char>, Seq<char>)>::empty());
    }
    while i < n
        invariant
            n == entries@.len(),
            i <= n,
            all == pair_views(entries@),
            keep == (|e: (Seq<char>, Seq<char>)| installs(e, split_authorization)),
            auth_name@ == "Authorization"@,
            pair_views(out@) == all.take(i as int).filter(keep),
            split_authorization ==> opt_view(authorization) == credential_of(all.take(i as int)),
            !split_authorization ==> authorization is None,
        decreases n - i,
    {
        let name = &entries[i].0;
        let value = &entries[i].1;
        let ghost e = all[i as int];
        proof {
            reveal(Seq::filter);
            assert(e == (name@, value@));
            assert(all.take(i + 1).drop_last() =~= all.take(i as int));
            assert(all.take(i + 1).last() == e);
        }
        let is_auth = *name == auth_name;
        let token = if split_authorization && is_auth {
            bearer_token_of(value.as_str())
        } else {
            None
        };
        if token.is_some() {
            authorization = token;
        } else if is_header_name(name.as_str()) && is_header_value(value.as_str()) {
            let ghost before = out@;
            out.push((name.clone(), value.clone()));
            proof {
                assert(pair_views(out@) =~= pair_views(before).push(e));
            }
        }
        i = i + 1;
    }
    proof {
        assert(all.take(n as int) =~= all);
    }
    (authorization, out)
}

/// The header entries that a connect uses: none when no configuration or a
/// blank one is given, else those the configuration text holds.
pub open spec fn configured_entries(headers: Option<Seq<char>>) -> Option<Seq<(Seq<char>, Seq<char>)>> {
    match headers {
        None => Some(Seq::empty()),
        Some(h) => if blank(h) {
            Some(Seq::empty())
        } else {
            header_entries_of(h)
        },
    }
}

/// What checking the inputs of a connect yields. The URL must not be empty;
/// the header configuration, when given and not blank, must be a JSON object
/// of strings. For the bidirectional HTTP transport a bearer credential in the
/// `Authorization` entry goes, as its token, to the transport's own field; the
/// other accepted entries become the HTTP client's default headers.
pub open spec fn connect_planned(
    url: Seq<char>,
    headers: Option<Seq<char>>,
    legacy_transport: bool,
    r: Result<ConnectPlan, BridgeError>,
) -> bool {
    &&& url.len() == 0 ==> invalid_input(r, "Server URL is empty"@)
    &&& url.len() > 0 && configured_entries(headers) is None ==> invalid_input(
        r,
        "Invalid headers JSON"@,
    )
    &&& url.len() > 0 && configured_entries(headers) is Some ==> r is Ok
    &&& r matches Ok(p) ==> {
        let entries = configured_entries(headers)->Some_0;
        &&& p.url@ == url
        &&& p.legacy_transport == legacy_transport
        &&& pair_views(p.headers@) == installed_headers(entries, !legacy_transport)
        &&& !legacy_transport ==> opt_view(p.authorization) == credential_of(entries)
        &&& legacy_transport ==> p.authorization is None
    }
}

/// Checks the inputs of a connect and works out what goes to the transport.
/// The URL must not be empty; the header configuration, when given and not
/// blank, must be a JSON object of strings. For the bidirectional HTTP
/// transport the `Authorization` entry goes to the transport's own field.
pub fn plan_connect(url: &str, headers: Option<&str>, legacy_transport: bool) -> (r: Result<
    ConnectPlan,
    BridgeError,
>)
    ensures
        connect_planned(url@, opt_str_view(headers), legacy_transport, r),
{
    if url.unicode_len() == 0 {
        return Err(BridgeError::InvalidInput(String::from_str("Server URL is empty")));
    }
    let entries: Vec<(String, String)> = match headers {
        None => Vec::new(),
        Some(h) => {
            if is_blank(h) {
                Vec::new()
            } else {
                match parse_header_object(h) {
                    Some(v) => v,
                    None => {
                        return Err(BridgeError::InvalidInput(String::from_str("Invalid headers JSON")));
                    },
                }
            }
        },
    };
    proof {
        assert(pair_views(entries@) =~= configured_entries(opt_str_view(headers))->Some_0);
    }
    let (authorization, installed) = plan_headers(&entries, !legacy_transport);
    Ok(ConnectPlan {
        url: String::from_str(url),
        legacy_transport,
        authorization,
        headers: installed,
    })
}

} // verus!
