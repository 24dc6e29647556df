use vstd::prelude::*;

use crate::clock::{
    checked_add_seconds, datetime_plus_seconds, in_datetime_range, lemma_in_range_representable,
    now_unix_nanos, representable,
};
use crate::config::{option_list_view, string_views};
use crate::error::AppError;
use crate::ids::{new_session_id, session_id_text, uuid_parse, uuid_text};
use crate::jwt::{
    create_jitsi_jwt_at, jwt_hs256, jwt_outcome, JwtError, seconds_of, spec_claims_json, token_char, JitsiUser,
};
use crate::session::{lemma_open_then_take, open_session, spec_take_session, unexpired, Session, SessionStore};
use crate::web_url::{
    form_plain_char, is_redirect_url_of, is_session_cookie, jitsi_redirect_url,
    jwt_query, session_cookie, spec_redirect_url, url_cannot_be_a_base_of, url_host_of,
    url_query_of, SessionCookie,
};

verus! {

/// The scopes asked for besides `openid`: the configured ones, or `email`
/// where none are configured (the documented default is `openid email`).
pub open spec fn spec_requested_scopes(configured: Option<Seq<Seq<char>>>) -> Seq<Seq<char>> {
    match configured {
        None => seq!["email"@],
        Some(list) => list,
    }
}

/// The scopes to ask the identity provider for.
pub fn requested_scopes(configured: Option<Vec<String>>) -> (r: Vec<String>)
    ensures
        string_views(r@) == spec_requested_scopes(option_list_view(configured)),
{
    match configured {
        Some(list) => list,
        None => {
            let mut v: Vec<String> = Vec::new();
            v.push(String::from_str("email"));
            proof {
                assert(string_views(v@) =~= seq!["email"@]);
            }
            v
        },
    }
}

/// What starting a login at time `now` under session id `id` does: where the
/// session's expiry cannot be represented, or the base URL gives no cookie
/// scope, nothing is stored and an internal error comes back; otherwise the
/// expired sessions are dropped, the new session is stored, expiring
/// `max_age_seconds` after `now`, and the cookie that names it comes back.
pub open spec fn login_start(
    r: Result<SessionCookie, AppError>,
    before: Map<u128, Session>,
    after: Map<u128, Session>,
    id: u128,
    now: i128,
    base_url: Seq<char>,
    room: String,
    csrf_token: String,
    nonce: String,
    pkce_verifier: String,
    session_max_age_seconds: i64,
) -> bool {
    match datetime_plus_seconds(now, session_max_age_seconds) {
        None => r matches Err(AppError::InternalServerError) && after == before,
        Some(expires_at) => if url_host_of(base_url) is None {
            r matches Err(AppError::InternalServerError) && after == before
        } else {
            &&& expires_at == now + session_max_age_seconds * 1_000_000_000
            &&& r matches Ok(c) && is_session_cookie(c, base_url, uuid_text(id), session_max_age_seconds)
                && uuid_parse(c.value@) == Some(id)
            &&& after == unexpired(before, now as int).insert(
                id,
                (Session { room, csrf_token, nonce, pkce_verifier, expires_at }),
            )
        },
    }
}

/// Starts a login at time `now` under the session id `id`.
pub fn open_login(
    store: &mut SessionStore,
    id: u128,
    now: i128,
    base_url: &str,
    room: String,
    csrf_token: String,
    nonce: String,
    pkce_verifier: String,
    session_max_age_seconds: i64,
) -> (r: Result<SessionCookie, AppError>)
    ensures
        login_start(
            r,
            old(store)@,
            final(store)@,
            id,
            now,
            base_url@,
            room,
            csrf_token,
            nonce,
            pkce_verifier,
            session_max_age_seconds,
        ),
{
    let expires_at = match checked_add_seconds(now, session_max_age_seconds) {
        Some(t) => t,
        None => return Err(AppError::InternalServerError),
    };
    let cookie = match session_cookie(base_url, session_id_text(id), session_max_age_seconds) {
        Some(c) => c,
        None => return Err(AppError::InternalServerError),
    };
    open_session(store, id, Session { room, csrf_token, nonce, pkce_verifier, expires_at }, now);
    Ok(cookie)
}

/// Starts a login now under a fresh random session id: remembers where the
/// user wants to go and the secrets of the authorization request, and gives
/// the cookie that ties the browser to the session.
pub fn start_login(
    store: &mut SessionStore,
    base_url: &str,
    room: String,
    csrf_token: String,
    nonce: String,
    pkce_verifier: String,
    session_max_age_seconds: i64,
) -> (r: Result<SessionCookie, AppError>)
    ensures
        exists|id: u128, now: i128|
            in_datetime_range(now as int) && login_start(
                r,
                old(store)@,
                final(store)@,
                id,
                now,
                base_url@,
                room,
                csrf_token,
                nonce,
                pkce_verifier,
                session_max_age_seconds,
            ),
{
    let id = new_session_id();
    let now = now_unix_nanos();
    open_login(store, id, now, base_url, room, csrf_token, nonce, pkce_verifier, session_max_age_seconds)
}

/// Where a login stands once the ID token has been looked at.
pub enum UserLookup {
    /// The user is known.
    Found(JitsiUser),
    /// The login fails.
    Failed(AppError),
    /// The user info endpoint must be asked.
    AskUserInfo,
}

/// The next step after the ID token: a user it names is taken, an error ends the
/// login, and without a user the user info endpoint is asked.
pub fn after_id_token(r: Result<Option<JitsiUser>, AppError>) -> (step: UserLookup)
    ensures
        match r {
            Ok(Some(u)) => step == UserLookup::Found(u),
            Ok(None) => step is AskUserInfo,
            Err(e) => step == UserLookup::Failed(e),
        },
{
    match r {
        Ok(Some(u)) => UserLookup::Found(u),
        Ok(None) => UserLookup::AskUserInfo,
        Err(e) => UserLookup::Failed(e),
    }
}

/// The user after asking the user info endpoint: where it names none either,
/// the login fails with `MissingIdTokenAndUserInfoEndpoint`.
pub fn after_user_info(r: Result<Option<JitsiUser>, AppError>) -> (u: Result<JitsiUser, AppError>)
    ensures
        match r {
            Ok(Some(x)) => u == Ok::<JitsiUser, AppError>(x),
            Ok(None) => u == Err::<JitsiUser, AppError>(AppError::MissingIdTokenAndUserInfoEndpoint),
            Err(e) => u == Err::<JitsiUser, AppError>(e),
        },
{
    match r {
        Ok(Some(x)) => Ok(x),
        Ok(None) => Err(AppError::MissingIdTokenAndUserInfoEndpoint),
        Err(e) => Err(e),
    }
}

/// The configuration a finished login needs.
pub struct JitsiSettings {
    pub jitsi_url: String,
    pub jitsi_sub: String,
    pub jitsi_secret: String,
    pub group: String,
    pub jwt_max_age_seconds: i64,
    pub skip_prejoin_screen: Option<bool>,
}

/// The token a finished login at time `now` carries: for the user, issued by
/// and for `jitsi`, with the configured subject, group and secret, for the room,
/// valid from `now` for the configured lifetime.
pub open spec fn login_token(user: JitsiUser, room: Seq<char>, settings: JitsiSettings, now: i128) -> Seq<char> {
    jwt_hs256(
        spec_claims_json(
            user,
            Some(settings.group@),
            "jitsi"@,
            "jitsi"@,
            settings.jitsi_sub@,
            room,
            seconds_of(now as int),
            seconds_of(now as int),
            seconds_of(now as int) + settings.jwt_max_age_seconds,
        ),
        settings.jitsi_secret@,
    )
}

/// What finishing a login at time `now` gives: where the token's expiry cannot
/// be represented, an internal error; otherwise the redirect into the session's
/// room under the configured Jitsi URL carrying that token, or an internal error
/// where no such URL can be made. The redirect comes exactly where the Jitsi URL
/// can be a base and the expiry can be represented; it keeps the Jitsi URL's
/// scheme, host, port and credentials, takes the room URL's path, carries the
/// token as its only query pair `jwt`, and holds the pre-join fragment exactly
/// where the pre-join screen is skipped.
pub open spec fn login_finish_at(
    r: Result<String, AppError>,
    user: JitsiUser,
    room: Seq<char>,
    settings: JitsiSettings,
    now: i128,
) -> bool {
    &&& match datetime_plus_seconds(now, settings.jwt_max_age_seconds) {
        None => r matches Err(AppError::InternalServerError),
        Some(_) => match spec_redirect_url(
            settings.jitsi_url@,
            room,
            login_token(user, room, settings, now),
            settings.skip_prejoin_screen,
        ) {
            None => r matches Err(AppError::InternalServerError),
            Some(u) => r matches Ok(x) && x@ == u,
        },
    }
    &&& (r is Ok <==> (url_cannot_be_a_base_of(settings.jitsi_url@) == Some(false)
        && datetime_plus_seconds(now, settings.jwt_max_age_seconds) is Some))
    &&& r matches Ok(u) ==> is_redirect_url_of(
        u@,
        settings.jitsi_url@,
        room,
        settings.skip_prejoin_screen,
    ) && url_query_of(u@) == Some(Some(jwt_query(login_token(user, room, settings, now))))
}

/// Finishes a login at time `now` for a known user: makes the Jitsi token for
/// the session's room and builds the redirect into that room.
pub fn finish_login_at(user: JitsiUser, session: &Session, settings: &JitsiSettings, now: i128) -> (r: Result<
    String,
    AppError,
>)
    requires
        representable(now as int),
    ensures
        login_finish_at(r, user, session.room@, *settings, now),
{
    let token = match create_jitsi_jwt_at(
        user,
        String::from_str("jitsi"),
        String::from_str("jitsi"),
        settings.jitsi_sub.clone(),
        session.room.clone(),
        settings.jitsi_secret.clone(),
        settings.group.clone(),
        settings.jwt_max_age_seconds,
        now,
    ) {
        Ok(t) => t,
        Err(_) => return Err(AppError::InternalServerError),
    };
    proof {
        assert forall|i: int| 0 <= i < token@.len() implies form_plain_char(#[trigger] token@[i]) by {
            assert(token_char(token@[i]));
        }
    }
    jitsi_redirect_url(
        settings.jitsi_url.as_str(),
        session.room.as_str(),
        token.as_str(),
        settings.skip_prejoin_screen,
    )
}

/// Finishes a login now for a known user.
pub fn finish_login(user: JitsiUser, session: &Session, settings: &JitsiSettings) -> (r: Result<String, AppError>)
    ensures
        exists|now: i128|
            in_datetime_range(now as int) && login_finish_at(r, user, session.room@, *settings, now),
{
    let now = now_unix_nanos();
    proof {
        lemma_in_range_representable(now as int);
    }
    finish_login_at(user, session, settings, now)
}

/// A login that started gets its session back when the identity provider
/// calls back before the session expires, with the started login's cookie and
/// the `state` of its authorization request: the callback finds the room and
/// secrets that were stored, and the session is gone from the store afterwards.
pub proof fn lemma_started_login_is_claimed(
    c: SessionCookie,
    before: Map<u128, Session>,
    after: Map<u128, Session>,
    id: u128,
    now: i128,
    base_url: Seq<char>,
    room: String,
    csrf_token: String,
    nonce: String,
    pkce_verifier: String,
    session_max_age_seconds: i64,
    later: int,
)
    requires
        login_start(
            Ok::<SessionCookie, AppError>(c),
            before,
            after,
            id,
            now,
            base_url,
            room,
            csrf_token,
            nonce,
            pkce_verifier,
            session_max_age_seconds,
        ),
        later < now + session_max_age_seconds * 1_000_000_000,
    ensures
        spec_take_session(after, Some(c.value@), csrf_token@, later) == (
            after.remove(id),
            Ok::<Session, AppError>(
                Session {
                    room,
                    csrf_token,
                    nonce,
                    pkce_verifier,
                    expires_at: (now + session_max_age_seconds * 1_000_000_000) as i128,
                },
            ),
        ),
{
    let expires_at = datetime_plus_seconds(now, session_max_age_seconds)->0;
    let s = Session { room, csrf_token, nonce, pkce_verifier, expires_at };
    lemma_open_then_take(before, id, s, now as int, c.value@, csrf_token@, later);
}

/// A login started for a room and called back in time, with the cookie it gave
/// and the `state` of its authorization request, finishes in that same room:
/// the session the callback takes holds the room requested at the start, and
/// finishing the login with it, for whatever user the identity provider names,
/// gives the redirect that carries the token for that room and keeps the Jitsi
/// URL's scheme, host, port and credentials. This holds for every Jitsi URL that
/// can be a base and every time at which the token's expiry lies in the range
/// of dates.
pub proof fn lemma_started_login_finishes_in_its_room(
    c: SessionCookie,
    before: Map<u128, Session>,
    after: Map<u128, Session>,
    id: u128,
    now: i128,
    base_url: Seq<char>,
    room: String,
    csrf_token: String,
    nonce: String,
    pkce_verifier: String,
    session_max_age_seconds: i64,
    later: i128,
    taken: Result<Session, AppError>,
    user: JitsiUser,
    settings: JitsiSettings,
    r: Result<String, AppError>,
)
    requires
        login_start(
            Ok::<SessionCookie, AppError>(c),
            before,
            after,
            id,
            now,
            base_url,
            room,
            csrf_token,
            nonce,
            pkce_verifier,
            session_max_age_seconds,
        ),
        later < now + session_max_age_seconds * 1_000_000_000,
        taken == spec_take_session(after, Some(c.value@), csrf_token@, later as int).1,
        taken matches Ok(s) ==> login_finish_at(r, user, s.room@, settings, later),
        url_cannot_be_a_base_of(settings.jitsi_url@) == Some(false),
        in_datetime_range(later as int),
        in_datetime_range(later + settings.jwt_max_age_seconds * 1_000_000_000),
    ensures
        taken matches Ok(s) && s.room == room,
        r matches Ok(u) && is_redirect_url_of(
            u@,
            settings.jitsi_url@,
            room@,
            settings.skip_prejoin_screen,
        ) && url_query_of(u@) == Some(Some(jwt_query(login_token(user, room@, settings, later)))),
{
    lemma_started_login_is_claimed(
        c,
        before,
        after,
        id,
        now,
        base_url,
        room,
        csrf_token,
        nonce,
        pkce_verifier,
        session_max_age_seconds,
        later as int,
    );
}

/// With scopes configured, exactly the configured scopes are asked for, all of
/// them and in their order; without, `email` alone.
pub proof fn lemma_configured_scopes_are_requested(configured: Option<Seq<Seq<char>>>)
    ensures
        configured matches Some(l) ==> spec_requested_scopes(configured) == l,
        configured is None ==> spec_requested_scopes(configured) == seq![seq!['e', 'm', 'a', 'i', 'l']],
{
    reveal_strlit("email");
    assert("email"@ =~= seq!['e', 'm', 'a', 'i', 'l']);
    assert(seq!["email"@] =~= seq![seq!['e', 'm', 'a', 'i', 'l']]);
}

/// The token a finished login carries is the very token that creating a Jitsi
/// token at the same time gives for the same user and room, issued by and for
/// `jitsi` with the configured subject, secret, group and lifetime: the user
/// goes into the token as handed over.
pub proof fn lemma_finished_login_carries_the_users_token(
    r: Result<String, AppError>,
    user: JitsiUser,
    room: Seq<char>,
    settings: JitsiSettings,
    now: i128,
    token: Result<String, JwtError>,
)
    requires
        login_finish_at(r, user, room, settings, now),
        jwt_outcome(
            token,
            user,
            "jitsi"@,
            "jitsi"@,
            settings.jitsi_sub@,
            room,
            settings.jitsi_secret@,
            settings.group@,
            settings.jwt_max_age_seconds,
            now,
        ),
    ensures
        r is Ok ==> token is Ok,
        r matches Ok(u) ==> url_query_of(u@) == Some(Some(jwt_query(token->Ok_0@))),
{
}

} // verus!
