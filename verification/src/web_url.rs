use vstd::prelude::*;

use crate::error::AppError;

verus! {

// A URL is carried as its serialization, the text that `url::Url::as_str`
// gives. Each operation below parses the text with `url::Url::parse`, applies
// one method of `url::Url` and hands back the new serialization; a text that
// does not parse yields nothing. What the contracts say of a result's parts is
// what the modified `Url` answers: the crate keeps its serialization such that
// parsing it again gives the same URL.

/// `url::Url::host_str` of the parsed text.
pub uninterp spec fn url_host_of(url: Seq<char>) -> Option<Seq<char>>;

/// `url::Url::path` of the parsed text.
pub uninterp spec fn url_path_of(url: Seq<char>) -> Option<Seq<char>>;

/// `url::Url::scheme` of the parsed text.
pub uninterp spec fn url_scheme_of(url: Seq<char>) -> Option<Seq<char>>;

/// `url::Url::port` of the parsed text.
pub uninterp spec fn url_port_of(url: Seq<char>) -> Option<Option<u16>>;

/// `url::Url::username` of the parsed text.
pub uninterp spec fn url_username_of(url: Seq<char>) -> Option<Seq<char>>;

/// `url::Url::password` of the parsed text.
pub uninterp spec fn url_password_of(url: Seq<char>) -> Option<Option<Seq<char>>>;

/// `url::Url::query` of the parsed text.
pub uninterp spec fn url_query_of(url: Seq<char>) -> Option<Option<Seq<char>>>;

/// `url::Url::fragment` of the parsed text.
pub uninterp spec fn url_fragment_of(url: Seq<char>) -> Option<Option<Seq<char>>>;

/// `url::Url::cannot_be_a_base` of the parsed text: whether the URL has an
/// opaque path, that is, whether what follows the scheme's colon does not start
/// with `/`; nothing where the text does not parse.
pub uninterp spec fn url_cannot_be_a_base_of(url: Seq<char>) -> Option<bool>;

/// The parsed text after `url::Url::set_query(query)`.
pub uninterp spec fn url_with_query(url: Seq<char>, query: Option<Seq<char>>) -> Option<Seq<char>>;

/// The parsed text after `url::Url::set_fragment(fragment)`.
pub uninterp spec fn url_with_fragment(url: Seq<char>, fragment: Option<Seq<char>>) -> Option<
    Seq<char>,
>;

/// The parsed text after `path_segments_mut()` and `push(segment)`; nothing
/// where the URL cannot be a base.
pub uninterp spec fn url_with_segment(url: Seq<char>, segment: Seq<char>) -> Option<Seq<char>>;

/// The parsed text after `query_pairs_mut().append_pair(name, value)`.
pub uninterp spec fn url_with_query_pair(url: Seq<char>, name: Seq<char>, value: Seq<char>) -> Option<
    Seq<char>,
>;

pub open spec fn opt_str_view(o: Option<&str>) -> Option<Seq<char>> {
    match o {
        None => None,
        Some(s) => Some(s@),
    }
}

pub open spec fn opt_string_view(o: Option<String>) -> Option<Seq<char>> {
    match o {
        None => None,
        Some(s) => Some(s@),
    }
}

/// Whether two URLs agree on everything before the path: scheme, host, port,
/// user name and password.
pub open spec fn same_scheme_and_authority(a: Seq<char>, b: Seq<char>) -> bool {
    &&& url_scheme_of(a) == url_scheme_of(b)
    &&& url_host_of(a) == url_host_of(b)
    &&& url_port_of(a) == url_port_of(b)
    &&& url_username_of(a) == url_username_of(b)
    &&& url_password_of(a) == url_password_of(b)
}

/// A character that a fragment keeps as it is: printable ASCII other than
/// space, `"`, `<`, `>` and `` ` ``, the fragment percent-encode set of the URL
/// standard.
pub open spec fn fragment_plain_char(c: char) -> bool {
    &&& '!' <= c <= '~'
    &&& c != '"'
    &&& c != '<'
    &&& c != '>'
    &&& c != '`'
}

/// A text that a fragment keeps as it is.
pub open spec fn fragment_plain(s: Seq<char>) -> bool {
    forall|i: int| 0 <= i < s.len() ==> fragment_plain_char(#[trigger] s[i])
}

/// A character that `application/x-www-form-urlencoded` serialization keeps
/// as it is: an ASCII letter or digit, `*`, `-`, `.` or `_`.
pub open spec fn form_plain_char(c: char) -> bool {
    ||| 'a' <= c <= 'z'
    ||| 'A' <= c <= 'Z'
    ||| '0' <= c <= '9'
    ||| c == '*'
    ||| c == '-'
    ||| c == '.'
    ||| c == '_'
}

/// A text that form serialization keeps as it is.
pub open spec fn form_plain(s: Seq<char>) -> bool {
    forall|i: int| 0 <= i < s.len() ==> form_plain_char(#[trigger] s[i])
}

/// The host of a URL, with `url::Url::host_str`. The contract also claims that
/// a URL with a host has a path: `url::Url::path` answers for every parsed URL.
#[verifier::external_body]
pub(crate) fn host_str(url: &str) -> (r: Option<String>)
    ensures
        opt_string_view(r) == url_host_of(url@),
        r is Some ==> url_path_of(url@) is Some,
{
    url::Url::parse(url).ok().and_then(|u| u.host_str().map(|h| h.to_string()))
}

/// The path of a URL, with `url::Url::path`.
#[verifier::external_body]
pub(crate) fn path(url: &str) -> (r: Option<String>)
    ensures
        opt_string_view(r) == url_path_of(url@),
{
    url::Url::parse(url).ok().map(|u| u.path().to_string())
}

/// The scheme of a URL, with `url::Url::scheme`.
#[verifier::external_body]
pub(crate) fn scheme(url: &str) -> (r: Option<String>)
    ensures
        opt_string_view(r) == url_scheme_of(url@),
{
    url::Url::parse(url).ok().map(|u| u.scheme().to_string())
}

/// Replaces the query with `url::Url::set_query`. The contract also claims what
/// the method's source shows: every URL that parses is answered; it takes the
/// fragment off, cuts the serialization at the old query, writes the new one
/// and puts the fragment back, so scheme, host, port, credentials, fragment and
/// whether the URL can be a base stay as they were, and so does a path that is
/// not opaque (an opaque one may lose trailing spaces); `None` leaves no query.
#[verifier::external_body]
pub(crate) fn set_query(url: &str, query: Option<&str>) -> (r: Option<String>)
    ensures
        opt_string_view(r) == url_with_query(url@, opt_str_view(query)),
        r is Some <==> url_cannot_be_a_base_of(url@) is Some,
        r matches Some(t) ==> url_scheme_of(t@) == url_scheme_of(url@) && url_host_of(t@)
            == url_host_of(url@) && url_port_of(t@) == url_port_of(url@) && url_username_of(t@)
            == url_username_of(url@) && url_password_of(t@) == url_password_of(url@),
        r matches Some(t) ==> url_fragment_of(t@) == url_fragment_of(url@),
        r matches Some(t) ==> url_cannot_be_a_base_of(t@) == url_cannot_be_a_base_of(url@),
        r matches Some(t) ==> (url_cannot_be_a_base_of(url@) == Some(false) ==> url_path_of(t@)
            == url_path_of(url@)),
        r matches Some(t) ==> (query is None ==> url_query_of(t@) == Some(None::<Seq<char>>)),
{
    let mut u = url::Url::parse(url).ok()?;
    u.set_query(query);
    Some(u.into())
}

/// Replaces the fragment with `url::Url::set_fragment`. The contract also
/// claims what the method's source shows: every URL that parses is answered;
/// it cuts the serialization at the old fragment and writes the new one, so
/// scheme, host, port, credentials, query and whether the URL can be a base stay
/// as they were, and so does a path that is not opaque; `None` leaves no
/// fragment, and a fragment of characters outside the fragment percent-encode
/// set is written as it is.
#[verifier::external_body]
pub(crate) fn set_fragment(url: &str, fragment: Option<&str>) -> (r: Option<String>)
    ensures
        opt_string_view(r) == url_with_fragment(url@, opt_str_view(fragment)),
        r is Some <==> url_cannot_be_a_base_of(url@) is Some,
        r matches Some(t) ==> url_scheme_of(t@) == url_scheme_of(url@) && url_host_of(t@)
            == url_host_of(url@) && url_port_of(t@) == url_port_of(url@) && url_username_of(t@)
            == url_username_of(url@) && url_password_of(t@) == url_password_of(url@),
        r matches Some(t) ==> url_query_of(t@) == url_query_of(url@),
        r matches Some(t) ==> url_cannot_be_a_base_of(t@) == url_cannot_be_a_base_of(url@),
        r matches Some(t) ==> (url_cannot_be_a_base_of(url@) == Some(false) ==> url_path_of(t@)
            == url_path_of(url@)),
        r matches Some(t) ==> (fragment is None ==> url_fragment_of(t@) == Some(None::<Seq<char>>)),
        r matches Some(t) ==> (fragment matches Some(f) ==> (fragment_plain(f@) ==> url_fragment_of(
            t@,
        ) == Some(Some(f@)))),
{
    let mut u = url::Url::parse(url).ok()?;
    u.set_fragment(fragment);
    Some(u.into())
}

/// Appends one path segment with `url::Url::path_segments_mut` and
/// `PathSegmentsMut::push`, which percent-encodes the segment (`/` and `%`
/// included); nothing where the URL cannot be a base, as `path_segments_mut`
/// refuses exactly those. The contract also claims what the source shows: the
/// part after the path is set aside and put back unchanged, and the segment
/// lands in the path, so scheme, host, port, credentials, query and fragment
/// stay as they were and the URL can still be a base.
#[verifier::external_body]
pub(crate) fn push_path_segment(url: &str, segment: &str) -> (r: Option<String>)
    ensures
        opt_string_view(r) == url_with_segment(url@, segment@),
        r is Some <==> url_cannot_be_a_base_of(url@) == Some(false),
        r matches Some(t) ==> url_scheme_of(t@) == url_scheme_of(url@) && url_host_of(t@)
            == url_host_of(url@) && url_port_of(t@) == url_port_of(url@) && url_username_of(t@)
            == url_username_of(url@) && url_password_of(t@) == url_password_of(url@),
        r matches Some(t) ==> url_query_of(t@) == url_query_of(url@),
        r matches Some(t) ==> url_fragment_of(t@) == url_fragment_of(url@),
        r matches Some(t) ==> url_cannot_be_a_base_of(t@) == Some(false),
{
    let mut u = url::Url::parse(url).ok()?;
    u.path_segments_mut().ok()?.push(segment);
    Some(u.into())
}

/// Appends `name=value` to the query with `url::Url::query_pairs_mut` and
/// `append_pair`, which form-encodes both. The contract also claims what the
/// source shows: every URL that parses is answered; the fragment is set aside,
/// the pair is written after the query (after a `&` where the query is not
/// empty) and the fragment is put back, so scheme, host, port, credentials,
/// fragment and whether the URL can be a base stay as they were, and so does a
/// path that is not opaque; on a URL without a query, a name and value that form
/// serialization keeps as they are become the whole query `name=value`.
#[verifier::external_body]
pub(crate) fn append_query_pair(url: &str, name: &str, value: &str) -> (r: Option<String>)
    ensures
        opt_string_view(r) == url_with_query_pair(url@, name@, value@),
        r is Some <==> url_cannot_be_a_base_of(url@) is Some,
        r matches Some(t) ==> url_scheme_of(t@) == url_scheme_of(url@) && url_host_of(t@)
            == url_host_of(url@) && url_port_of(t@) == url_port_of(url@) && url_username_of(t@)
            == url_username_of(url@) && url_password_of(t@) == url_password_of(url@),
        r matches Some(t) ==> url_fragment_of(t@) == url_fragment_of(url@),
        r matches Some(t) ==> url_cannot_be_a_base_of(t@) == url_cannot_be_a_base_of(url@),
        r matches Some(t) ==> (url_cannot_be_a_base_of(url@) == Some(false) ==> url_path_of(t@)
            == url_path_of(url@)),
        r matches Some(t) ==> (url_query_of(url@) == Some(None::<Seq<char>>) && form_plain(name@)
            && form_plain(value@) ==> url_query_of(t@) == Some(Some(name@ + seq!['='] + value@))),
{
    let mut u = url::Url::parse(url).ok()?;
    u.query_pairs_mut().append_pair(name, value);
    Some(u.into())
}

/// The room URL: the Jitsi URL without query and fragment, with the room
/// appended as one encoded path segment.
pub open spec fn spec_room_url(jitsi_url: Seq<char>, room: Seq<char>) -> Option<Seq<char>> {
    match url_with_query(jitsi_url, None) {
        None => None,
        Some(a) => match url_with_fragment(a, None) {
            None => None,
            Some(b) => url_with_segment(b, room),
        },
    }
}

/// What a room URL under `jitsi_url` is made of: the Jitsi URL's scheme, host,
/// port and credentials, no query, no fragment, and a path that can be a base.
pub open spec fn is_room_url_of(u: Seq<char>, jitsi_url: Seq<char>) -> bool {
    &&& same_scheme_and_authority(u, jitsi_url)
    &&& url_query_of(u) == Some(None::<Seq<char>>)
    &&& url_fragment_of(u) == Some(None::<Seq<char>>)
    &&& url_cannot_be_a_base_of(u) == Some(false)
}

/// Builds the URL of a Jitsi room under the configured Jitsi URL. The room name
/// becomes one encoded path segment, so the result keeps the scheme, host, port
/// and credentials of the configured URL whatever the room name holds. Every
/// Jitsi URL that can be a base gives a room URL, and no other.
pub fn create_jitsi_room_url(jitsi_url: &str, room: &str) -> (r: Result<String, AppError>)
    ensures
        match r {
            Ok(u) => spec_room_url(jitsi_url@, room@) == Some(u@),
            Err(e) => spec_room_url(jitsi_url@, room@) is None && e is InternalServerError,
        },
        r is Ok <==> url_cannot_be_a_base_of(jitsi_url@) == Some(false),
        r matches Ok(u) ==> is_room_url_of(u@, jitsi_url@),
{
    let without_query = match set_query(jitsi_url, None) {
        Some(u) => u,
        None => return Err(AppError::InternalServerError),
    };
    let without_fragment = match set_fragment(without_query.as_str(), None) {
        Some(u) => u,
        None => return Err(AppError::InternalServerError),
    };
    match push_path_segment(without_fragment.as_str(), room) {
        Some(u) => Ok(u),
        None => Err(AppError::InternalServerError),
    }
}

/// The fragment that tells Jitsi to skip its pre-join screen.
pub open spec fn prejoin_fragment() -> Seq<char> {
    "config.prejoinConfig.enabled=false"@
}

/// Whether the pre-join screen is skipped: yes, unless configured otherwise.
pub open spec fn skips_prejoin(skip_prejoin_screen: Option<bool>) -> bool {
    match skip_prejoin_screen {
        None => true,
        Some(b) => b,
    }
}

/// The URL the user is sent to after a login: the room URL with the token as
/// the query pair `jwt`, and, where the pre-join screen is skipped, the fragment
/// that says so.
pub open spec fn spec_redirect_url(
    jitsi_url: Seq<char>,
    room: Seq<char>,
    jwt: Seq<char>,
    skip_prejoin_screen: Option<bool>,
) -> Option<Seq<char>> {
    match spec_room_url(jitsi_url, room) {
        None => None,
        Some(a) => match url_with_query_pair(a, "jwt"@, jwt) {
            None => None,
            Some(b) => if skips_prejoin(skip_prejoin_screen) {
                url_with_fragment(b, Some(prejoin_fragment()))
            } else {
                Some(b)
            },
        },
    }
}

/// The query that carries a token: the single pair `jwt=` and the token.
pub open spec fn jwt_query(jwt: Seq<char>) -> Seq<char> {
    seq!['j', 'w', 't', '='] + jwt
}

/// What a redirect into a room is made of, besides its query: the Jitsi URL's
/// scheme, host, port and credentials, the path of the room URL, and the
/// pre-join fragment exactly where the pre-join screen is skipped.
pub open spec fn is_redirect_url_of(
    u: Seq<char>,
    jitsi_url: Seq<char>,
    room: Seq<char>,
    skip_prejoin_screen: Option<bool>,
) -> bool {
    &&& same_scheme_and_authority(u, jitsi_url)
    &&& spec_room_url(jitsi_url, room) matches Some(a) && url_path_of(u) == url_path_of(a)
    &&& url_fragment_of(u) == if skips_prejoin(skip_prejoin_screen) {
        Some(Some(prejoin_fragment()))
    } else {
        Some(None::<Seq<char>>)
    }
}

/// Builds the URL that sends a logged-in user into the room, carrying the token.
/// Every Jitsi URL that can be a base gives a redirect, and no other; a token
/// made of characters that form serialization keeps, as a JWT is, is the whole
/// query.
pub fn jitsi_redirect_url(jitsi_url: &str, room: &str, jwt: &str, skip_prejoin_screen: Option<bool>) -> (r:
    Result<String, AppError>)
    ensures
        match r {
            Ok(u) => spec_redirect_url(jitsi_url@, room@, jwt@, skip_prejoin_screen) == Some(u@),
            Err(e) => spec_redirect_url(jitsi_url@, room@, jwt@, skip_prejoin_screen) is None
                && e is InternalServerError,
        },
        r is Ok <==> url_cannot_be_a_base_of(jitsi_url@) == Some(false),
        r matches Ok(u) ==> is_redirect_url_of(u@, jitsi_url@, room@, skip_prejoin_screen),
        r matches Ok(u) ==> (form_plain(jwt@) ==> url_query_of(u@) == Some(Some(jwt_query(jwt@)))),
{
    let room_url = create_jitsi_room_url(jitsi_url, room)?;
    let jwt_key = "jwt";
    proof {
        reveal_strlit("jwt");
        assert(form_plain(jwt_key@));
        assert(jwt_key@ + seq!['='] + jwt@ =~= jwt_query(jwt@));
    }
    let with_token = match append_query_pair(room_url.as_str(), jwt_key, jwt) {
        Some(u) => u,
        None => return Err(AppError::InternalServerError),
    };
    let skip = match skip_prejoin_screen {
        None => true,
        Some(b) => b,
    };
    if skip {
        let fragment = "config.prejoinConfig.enabled=false";
        proof {
            reveal_strlit("config.prejoinConfig.enabled=false");
            assert(fragment_plain(fragment@));
        }
        match set_fragment(with_token.as_str(), Some(fragment)) {
            Some(u) => Ok(u),
            None => Err(AppError::InternalServerError),
        }
    } else {
        Ok(with_token)
    }
}

/// The name of the cookie that carries the session id.
pub const SESSION_COOKIE_NAME: &'static str = "JITSI_OPENID_SESSION";

/// The name of the session cookie, as text.
pub open spec fn cookie_name() -> Seq<char> {
    SESSION_COOKIE_NAME@
}

/// The cookie that ties a browser to its login session.
pub struct SessionCookie {
    pub name: String,
    pub value: String,
    pub domain: String,
    pub path: String,
    pub secure: bool,
    pub http_only: bool,
    /// `SameSite=Lax` where true.
    pub same_site_lax: bool,
    pub max_age_seconds: i64,
}

/// What the session cookie for `base_url` holds: named as above, valued with the
/// session id's text, scoped to the base URL's host and path, secure exactly for
/// `https`, hidden from scripts, `SameSite=Lax`, living as long as the session.
pub open spec fn is_session_cookie(c: SessionCookie, base_url: Seq<char>, id_text: Seq<char>, max_age_seconds: i64) -> bool {
    &&& c.name@ == cookie_name()
    &&& c.value@ == id_text
    &&& url_host_of(base_url) == Some(c.domain@)
    &&& url_path_of(base_url) == Some(c.path@)
    &&& c.secure == (url_scheme_of(base_url) == Some("https"@))
    &&& c.http_only
    &&& c.same_site_lax
    &&& c.max_age_seconds == max_age_seconds
}

/// The session cookie for a login that goes through `base_url`; nothing where
/// that URL has no host.
pub fn session_cookie(base_url: &str, value: String, max_age_seconds: i64) -> (r: Option<SessionCookie>)
    ensures
        r is Some <==> url_host_of(base_url@) is Some,
        r matches Some(c) ==> is_session_cookie(c, base_url@, value@, max_age_seconds),
{
    let domain = host_str(base_url)?;
    let path = path(base_url)?;
    let secure = match scheme(base_url) {
        Some(s) => {
            let https = String::from_str("https");
            proof {
                reveal_strlit("https");
            }
            s == https
        },
        None => false,
    };
    Some(
        SessionCookie {
            name: String::from_str(SESSION_COOKIE_NAME),
            value,
            domain,
            path,
            secure,
            http_only: true,
            same_site_lax: true,
            max_age_seconds,
        },
    )
}

} // verus!
