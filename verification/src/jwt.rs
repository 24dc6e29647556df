use vstd::prelude::*;

use crate::clock::{
    checked_add_seconds, datetime_plus_seconds, in_datetime_range, jwt_numeric_date,
    lemma_in_range_representable, now_unix_nanos, representable,
};
use crate::config::option_view;
use crate::json::{
    append_json_int, append_json_opt_bool, append_json_opt_string, append_json_string, json_int,
    json_member, json_opt_bool, json_opt_string, json_plain_char, json_string,
    lemma_plain_text_is_written_as_itself,
};

verus! {

/// The user as Jitsi sees them.
pub struct JitsiUser {
    pub id: String,
    pub email: Option<String>,
    pub affiliation: Option<String>,
    pub name: Option<String>,
    pub avatar: Option<String>,
    pub moderator: Option<bool>,
}

/// The `context` claim of a Jitsi token.
pub struct JitsiContext {
    pub user: JitsiUser,
    pub group: Option<String>,
}

/// The claims of a Jitsi token; the three times are nanoseconds since the Unix epoch.
pub struct JitsiClaims {
    pub context: JitsiContext,
    pub aud: String,
    pub iss: String,
    pub sub: String,
    pub room: String,
    pub nbf: i128,
    pub iat: i128,
    pub exp: i128,
}

/// Why no token was made.
#[derive(Debug)]
pub enum JwtError {
    /// The expiry lies outside the dates that can be represented.
    ExpiryOutOfRange,
}

/// The JSON of the `user` object.
pub open spec fn user_json(u: JitsiUser) -> Seq<char> {
    "{\"id\":"@ + json_string(u.id@) + ",\"email\":"@ + json_opt_string(option_view(u.email))
        + ",\"affiliation\":"@ + json_opt_string(option_view(u.affiliation)) + ",\"name\":"@
        + json_opt_string(option_view(u.name)) + ",\"avatar\":"@ + json_opt_string(
        option_view(u.avatar),
    ) + ",\"moderator\":"@ + json_opt_bool(u.moderator) + "}"@
}

/// The JSON payload of a Jitsi token; `nbf`, `iat` and `exp` are given in whole
/// seconds since the Unix epoch.
pub open spec fn spec_claims_json(
    user: JitsiUser,
    group: Option<Seq<char>>,
    aud: Seq<char>,
    iss: Seq<char>,
    sub: Seq<char>,
    room: Seq<char>,
    nbf: int,
    iat: int,
    exp: int,
) -> Seq<char> {
    "{\"context\":{\"user\":"@ + user_json(user) + ",\"group\":"@ + json_opt_string(group)
        + "},\"aud\":"@ + json_string(aud) + ",\"iss\":"@ + json_string(iss) + ",\"sub\":"@
        + json_string(sub) + ",\"room\":"@ + json_string(room) + ",\"nbf\":"@ + json_int(nbf)
        + ",\"iat\":"@ + json_int(iat) + ",\"exp\":"@ + json_int(exp) + "}"@
}

/// Whole seconds of a point in time given in nanoseconds.
pub open spec fn seconds_of(t: int) -> int {
    t / 1_000_000_000
}

fn append_user_json(out: &mut String, u: &JitsiUser)
    ensures
        final(out)@ == old(out)@ + user_json(*u),
{
    let ghost start = out@;
    out.append("{\"id\":");
    append_json_string(out, u.id.as_str());
    out.append(",\"email\":");
    append_json_opt_string(out, &u.email);
    out.append(",\"affiliation\":");
    append_json_opt_string(out, &u.affiliation);
    out.append(",\"name\":");
    append_json_opt_string(out, &u.name);
    out.append(",\"avatar\":");
    append_json_opt_string(out, &u.avatar);
    out.append(",\"moderator\":");
    append_json_opt_bool(out, u.moderator);
    out.append("}");
    proof {
        assert(out@ =~= start + user_json(*u));
    }
}

/// Writes the claims as the token's JSON payload, times in whole seconds.
pub fn claims_json(c: &JitsiClaims) -> (r: String)
    requires
        representable(c.nbf as int),
        representable(c.iat as int),
        representable(c.exp as int),
    ensures
        r@ == spec_claims_json(
            c.context.user,
            option_view(c.context.group),
            c.aud@,
            c.iss@,
            c.sub@,
            c.room@,
            seconds_of(c.nbf as int),
            seconds_of(c.iat as int),
            seconds_of(c.exp as int),
        ),
{
    let mut out = String::new();
    out.append("{\"context\":{\"user\":");
    append_user_json(&mut out, &c.context.user);
    out.append(",\"group\":");
    append_json_opt_string(&mut out, &c.context.group);
    out.append("},\"aud\":");
    append_json_string(&mut out, c.aud.as_str());
    out.append(",\"iss\":");
    append_json_string(&mut out, c.iss.as_str());
    out.append(",\"sub\":");
    append_json_string(&mut out, c.sub.as_str());
    out.append(",\"room\":");
    append_json_string(&mut out, c.room.as_str());
    out.append(",\"nbf\":");
    append_json_int(&mut out, jwt_numeric_date(c.nbf));
    out.append(",\"iat\":");
    append_json_int(&mut out, jwt_numeric_date(c.iat));
    out.append(",\"exp\":");
    append_json_int(&mut out, jwt_numeric_date(c.exp));
    out.append("}");
    proof {
        assert(out@ =~= spec_claims_json(
            c.context.user,
            option_view(c.context.group),
            c.aud@,
            c.iss@,
            c.sub@,
            c.room@,
            seconds_of(c.nbf as int),
            seconds_of(c.iat as int),
            seconds_of(c.exp as int),
        ));
    }
    out
}

/// The error type of `jsonwebtoken`.
#[verifier::external_type_specification]
#[verifier::external_body]
pub struct ExJsonWebTokenError(jsonwebtoken::errors::Error);

/// What `jsonwebtoken::encode` yields with the default header (HS256), claims
/// whose JSON is `payload`, and the key `EncodingKey::from_secret` of the
/// secret's bytes.
pub uninterp spec fn jwt_hs256(payload: Seq<char>, secret: Seq<char>) -> Seq<char>;

/// Whether a text is the JSON payload of some Jitsi token.
pub open spec fn is_claims_payload(payload: Seq<char>) -> bool {
    exists|
        u: JitsiUser,
        group: Option<Seq<char>>,
        aud: Seq<char>,
        iss: Seq<char>,
        sub: Seq<char>,
        room: Seq<char>,
        nbf: int,
        iat: int,
        exp: int,
    | payload == #[trigger] spec_claims_json(u, group, aud, iss, sub, room, nbf, iat, exp)
}

/// A character of a compact token: a base64url digit (an ASCII letter or
/// digit, `-` or `_`) or the `.` between its parts.
pub open spec fn token_char(c: char) -> bool {
    ||| 'a' <= c <= 'z'
    ||| 'A' <= c <= 'Z'
    ||| '0' <= c <= '9'
    ||| c == '-'
    ||| c == '_'
    ||| c == '.'
}

/// Whether a text is made of token characters only.
pub open spec fn is_token_text(s: Seq<char>) -> bool {
    forall|i: int| 0 <= i < s.len() ==> token_char(#[trigger] s[i])
}

/// Signs a JSON payload as an HS256 token with `jsonwebtoken::encode`; the
/// payload is handed over unchanged as a `serde_json::value::RawValue`
/// (`RawValue::from_string`). The contract claims that for a payload written as
/// `spec_claims_json` describes, the result is a token, the named one:
/// `from_string` accepts every well-formed JSON value without surrounding
/// blanks, and `encode` with the default header and an HMAC key has no failing
/// step for HS256 (the key family matches, the header and the raw value
/// serialize, and HMAC signing cannot fail). It also claims that the token is
/// made of token characters: `encode` joins with `.` the header, the claims and
/// the signature, each written in unpadded base64url.
#[verifier::external_body]
fn encode_hs256(payload: String, secret: &str) -> (r: Result<String, jsonwebtoken::errors::Error>)
    requires
        is_claims_payload(payload@),
    ensures
        r is Ok,
        r matches Ok(t) ==> t@ == jwt_hs256(payload@, secret@),
        r matches Ok(t) ==> is_token_text(t@),
{
    let claims = serde_json::value::RawValue::from_string(payload)
        .map_err(jsonwebtoken::errors::Error::from)?;
    jsonwebtoken::encode(
        &jsonwebtoken::Header::default(),
        &claims,
        &jsonwebtoken::EncodingKey::from_secret(secret.as_bytes()),
    )
}

/// Adding whole seconds to a time adds them to its whole seconds.
pub proof fn lemma_seconds_shift(t: int, secs: int)
    ensures
        seconds_of(t + secs * 1_000_000_000) == seconds_of(t) + secs,
{
    assert((t + secs * 1_000_000_000) / 1_000_000_000 == t / 1_000_000_000 + secs) by (nonlinear_arith);
}

/// What creating a token at time `now` gives: an error where the expiry cannot
/// be represented; otherwise the HS256 token of the claims that name the user,
/// the group, audience, issuer, subject and room, with `nbf` and `iat` at `now`
/// and `exp` exactly `max_age_seconds` later, made of token characters.
pub open spec fn jwt_outcome(
    r: Result<String, JwtError>,
    user: JitsiUser,
    aud: Seq<char>,
    iss: Seq<char>,
    sub: Seq<char>,
    room: Seq<char>,
    secret: Seq<char>,
    group: Seq<char>,
    max_age_seconds: i64,
    now: i128,
) -> bool {
    match datetime_plus_seconds(now, max_age_seconds) {
        None => r matches Err(JwtError::ExpiryOutOfRange),
        Some(_) => match r {
            Ok(t) => t@ == jwt_hs256(
                spec_claims_json(
                    user,
                    Some(group),
                    aud,
                    iss,
                    sub,
                    room,
                    seconds_of(now as int),
                    seconds_of(now as int),
                    seconds_of(now as int) + max_age_seconds,
                ),
                secret,
            ) && is_token_text(t@),
            Err(_) => false,
        },
    }
}

/// Creates the Jitsi token at time `now` (nanoseconds since the Unix epoch).
pub fn create_jitsi_jwt_at(
    user: JitsiUser,
    aud: String,
    iss: String,
    sub: String,
    room: String,
    secret: String,
    group: String,
    max_age_seconds: i64,
    now: i128,
) -> (r: Result<String, JwtError>)
    requires
        representable(now as int),
    ensures
        jwt_outcome(r, user, aud@, iss@, sub@, room@, secret@, group@, max_age_seconds, now),
{
    let exp = match checked_add_seconds(now, max_age_seconds) {
        Some(t) => t,
        None => return Err(JwtError::ExpiryOutOfRange),
    };
    proof {
        lemma_seconds_shift(now as int, max_age_seconds as int);
        lemma_in_range_representable(exp as int);
    }
    let claims = JitsiClaims {
        context: JitsiContext { user, group: Some(group) },
        aud,
        iss,
        sub,
        room,
        nbf: now,
        iat: now,
        exp,
    };
    let payload = claims_json(&claims);
    proof {
        assert(is_claims_payload(payload@)) by {
            let w = spec_claims_json(
                claims.context.user,
                option_view(claims.context.group),
                claims.aud@,
                claims.iss@,
                claims.sub@,
                claims.room@,
                seconds_of(claims.nbf as int),
                seconds_of(claims.iat as int),
                seconds_of(claims.exp as int),
            );
            assert(payload@ == w);
        }
    }
    match encode_hs256(payload, secret.as_str()) {
        Ok(t) => Ok(t),
        Err(_) => {
            proof {
                assert(false);
            }
            Err(JwtError::ExpiryOutOfRange)
        },
    }
}

/// Creates the Jitsi token for a user and room, valid from now for
/// `max_age_seconds`.
pub fn create_jitsi_jwt(
    user: JitsiUser,
    aud: String,
    iss: String,
    sub: String,
    room: String,
    secret: String,
    group: String,
    max_age_seconds: i64,
) -> (r: Result<String, JwtError>)
    ensures
        exists|now: i128|
            in_datetime_range(now as int) && jwt_outcome(
                r,
                user,
                aud@,
                iss@,
                sub@,
                room@,
                secret@,
                group@,
                max_age_seconds,
                now,
            ),
{
    let now = now_unix_nanos();
    proof {
        lemma_in_range_representable(now as int);
    }
    create_jitsi_jwt_at(user, aud, iss, sub, room, secret, group, max_age_seconds, now)
}

/// Creating a token at time `now` succeeds exactly where `now` and the expiry
/// `max_age_seconds` later lie in the range of dates, and then signs with the
/// secret the payload that names the user as given, the group, audience,
/// issuer, subject and room, with `nbf` and `iat` the whole seconds of `now`
/// and `exp` exactly `max_age_seconds` after them.
pub proof fn lemma_token_names_user_and_times(
    r: Result<String, JwtError>,
    user: JitsiUser,
    aud: Seq<char>,
    iss: Seq<char>,
    sub: Seq<char>,
    room: Seq<char>,
    secret: Seq<char>,
    group: Seq<char>,
    max_age_seconds: i64,
    now: i128,
)
    requires
        jwt_outcome(r, user, aud, iss, sub, room, secret, group, max_age_seconds, now),
    ensures
        r is Ok <==> (in_datetime_range(now as int) && in_datetime_range(
            now + max_age_seconds * 1_000_000_000,
        )),
        r is Err ==> r matches Err(JwtError::ExpiryOutOfRange),
        r matches Ok(t) ==> t@ == jwt_hs256(
            spec_claims_json(
                user,
                Some(group),
                aud,
                iss,
                sub,
                room,
                now / 1_000_000_000,
                now / 1_000_000_000,
                now / 1_000_000_000 + max_age_seconds,
            ),
            secret,
        ),
{
}

/// The token's payload opens with the `context` object whose `user` is the
/// user as given.
pub proof fn lemma_payload_opens_with_the_user(
    user: JitsiUser,
    group: Option<Seq<char>>,
    aud: Seq<char>,
    iss: Seq<char>,
    sub: Seq<char>,
    room: Seq<char>,
    nbf: int,
    iat: int,
    exp: int,
)
    ensures
        ({
            let head = "{\"context\":{\"user\":"@ + user_json(user);
            spec_claims_json(user, group, aud, iss, sub, room, nbf, iat, exp).subrange(
                0,
                head.len() as int,
            ) == head
        }),
{
    let head = "{\"context\":{\"user\":"@ + user_json(user);
    let whole = spec_claims_json(user, group, aud, iss, sub, room, nbf, iat, exp);
    let rest = ",\"group\":"@ + json_opt_string(group) + "},\"aud\":"@ + json_string(aud)
        + ",\"iss\":"@ + json_string(iss) + ",\"sub\":"@ + json_string(sub) + ",\"room\":"@
        + json_string(room) + ",\"nbf\":"@ + json_int(nbf) + ",\"iat\":"@ + json_int(iat)
        + ",\"exp\":"@ + json_int(exp) + "}"@;
    assert(whole =~= head + rest);
    assert(whole.subrange(0, head.len() as int) =~= head);
}

/// The `user` object holds, in this order, the members `id`, `email`,
/// `affiliation`, `name`, `avatar` and `moderator`, each with the user's own
/// value: a string, or `null` where the value is absent.
pub proof fn lemma_user_object_members(u: JitsiUser)
    ensures
        user_json(u) == seq!['{'] + json_member(seq!['i', 'd'], json_string(u.id@)) + seq![',']
            + json_member(seq!['e', 'm', 'a', 'i', 'l'], json_opt_string(option_view(u.email)))
            + seq![','] + json_member(
            seq!['a', 'f', 'f', 'i', 'l', 'i', 'a', 't', 'i', 'o', 'n'],
            json_opt_string(option_view(u.affiliation)),
        ) + seq![','] + json_member(seq!['n', 'a', 'm', 'e'], json_opt_string(option_view(u.name)))
            + seq![','] + json_member(
            seq!['a', 'v', 'a', 't', 'a', 'r'],
            json_opt_string(option_view(u.avatar)),
        ) + seq![','] + json_member(
            seq!['m', 'o', 'd', 'e', 'r', 'a', 't', 'o', 'r'],
            json_opt_bool(u.moderator),
        ) + seq!['}'],
{
    reveal_strlit("{\"id\":");
    reveal_strlit(",\"email\":");
    reveal_strlit(",\"affiliation\":");
    reveal_strlit(",\"name\":");
    reveal_strlit(",\"avatar\":");
    reveal_strlit(",\"moderator\":");
    reveal_strlit("}");
    let keys = seq![
        seq!['i', 'd'],
        seq!['e', 'm', 'a', 'i', 'l'],
        seq!['a', 'f', 'f', 'i', 'l', 'i', 'a', 't', 'i', 'o', 'n'],
        seq!['n', 'a', 'm', 'e'],
        seq!['a', 'v', 'a', 't', 'a', 'r'],
        seq!['m', 'o', 'd', 'e', 'r', 'a', 't', 'o', 'r'],
    ];
    assert forall|k: int| 0 <= k < 6 implies json_string(#[trigger] keys[k]) == seq!['"'] + keys[k]
        + seq!['"'] by {
        let key = keys[k];
        assert forall|i: int| 0 <= i < key.len() implies json_plain_char(#[trigger] key[i]) by {}
        lemma_plain_text_is_written_as_itself(key);
    }
    assert(json_string(keys[0]) == seq!['"'] + keys[0] + seq!['"']);
    assert(json_string(keys[1]) == seq!['"'] + keys[1] + seq!['"']);
    assert(json_string(keys[2]) == seq!['"'] + keys[2] + seq!['"']);
    assert(json_string(keys[3]) == seq!['"'] + keys[3] + seq!['"']);
    assert(json_string(keys[4]) == seq!['"'] + keys[4] + seq!['"']);
    assert(json_string(keys[5]) == seq!['"'] + keys[5] + seq!['"']);
    assert(user_json(u) =~= seq!['{'] + json_member(keys[0], json_string(u.id@)) + seq![',']
        + json_member(keys[1], json_opt_string(option_view(u.email))) + seq![','] + json_member(
        keys[2],
        json_opt_string(option_view(u.affiliation)),
    ) + seq![','] + json_member(keys[3], json_opt_string(option_view(u.name))) + seq![',']
        + json_member(keys[4], json_opt_string(option_view(u.avatar))) + seq![','] + json_member(
        keys[5],
        json_opt_bool(u.moderator),
    ) + seq!['}']);
}

/// The payload holds, in this order, the members `context` (an object with the
/// members `user` and `group`), `aud`, `iss`, `sub`, `room`, `nbf`, `iat` and
/// `exp`, each with its own value.
#[verifier::rlimit(60)]
pub proof fn lemma_payload_members(
    user: JitsiUser,
    group: Option<Seq<char>>,
    aud: Seq<char>,
    iss: Seq<char>,
    sub: Seq<char>,
    room: Seq<char>,
    nbf: int,
    iat: int,
    exp: int,
)
    ensures
        spec_claims_json(user, group, aud, iss, sub, room, nbf, iat, exp) == seq!['{']
            + json_member(
            seq!['c', 'o', 'n', 't', 'e', 'x', 't'],
            seq!['{'] + json_member(seq!['u', 's', 'e', 'r'], user_json(user)) + seq![',']
                + json_member(seq!['g', 'r', 'o', 'u', 'p'], json_opt_string(group)) + seq!['}'],
        ) + seq![','] + json_member(seq!['a', 'u', 'd'], json_string(aud)) + seq![',']
            + json_member(seq!['i', 's', 's'], json_string(iss)) + seq![','] + json_member(
            seq!['s', 'u', 'b'],
            json_string(sub),
        ) + seq![','] + json_member(seq!['r', 'o', 'o', 'm'], json_string(room)) + seq![',']
            + json_member(seq!['n', 'b', 'f'], json_int(nbf)) + seq![','] + json_member(
            seq!['i', 'a', 't'],
            json_int(iat),
        ) + seq![','] + json_member(seq!['e', 'x', 'p'], json_int(exp)) + seq!['}'],
{
    reveal_strlit("{\"context\":{\"user\":");
    reveal_strlit(",\"group\":");
    reveal_strlit("},\"aud\":");
    reveal_strlit(",\"iss\":");
    reveal_strlit(",\"sub\":");
    reveal_strlit(",\"room\":");
    reveal_strlit(",\"nbf\":");
    reveal_strlit(",\"iat\":");
    reveal_strlit(",\"exp\":");
    reveal_strlit("}");
    let keys = seq![
        seq!['c', 'o', 'n', 't', 'e', 'x', 't'],
        seq!['u', 's', 'e', 'r'],
        seq!['g', 'r', 'o', 'u', 'p'],
        seq!['a', 'u', 'd'],
        seq!['i', 's', 's'],
        seq!['s', 'u', 'b'],
        seq!['r', 'o', 'o', 'm'],
        seq!['n', 'b', 'f'],
        seq!['i', 'a', 't'],
        seq!['e', 'x', 'p'],
    ];
    assert forall|k: int| 0 <= k < 10 implies json_string(#[trigger] keys[k]) == seq!['"'] + keys[k]
        + seq!['"'] by {
        let key = keys[k];
        assert forall|i: int| 0 <= i < key.len() implies json_plain_char(#[trigger] key[i]) by {}
        lemma_plain_text_is_written_as_itself(key);
    }
    assert(json_string(keys[0]) == seq!['"'] + keys[0] + seq!['"']);
    assert(json_string(keys[1]) == seq!['"'] + keys[1] + seq!['"']);
    assert(json_string(keys[2]) == seq!['"'] + keys[2] + seq!['"']);
    assert(json_string(keys[3]) == seq!['"'] + keys[3] + seq!['"']);
    assert(json_string(keys[4]) == seq!['"'] + keys[4] + seq!['"']);
    assert(json_string(keys[5]) == seq!['"'] + keys[5] + seq!['"']);
    assert(json_string(keys[6]) == seq!['"'] + keys[6] + seq!['"']);
    assert(json_string(keys[7]) == seq!['"'] + keys[7] + seq!['"']);
    assert(json_string(keys[8]) == seq!['"'] + keys[8] + seq!['"']);
    assert(json_string(keys[9]) == seq!['"'] + keys[9] + seq!['"']);
    assert(spec_claims_json(user, group, aud, iss, sub, room, nbf, iat, exp) =~= seq!['{']
        + json_member(
        keys[0],
        seq!['{'] + json_member(keys[1], user_json(user)) + seq![','] + json_member(
            keys[2],
            json_opt_string(group),
        ) + seq!['}'],
    ) + seq![','] + json_member(keys[3], json_string(aud)) + seq![','] + json_member(
        keys[4],
        json_string(iss),
    ) + seq![','] + json_member(keys[5], json_string(sub)) + seq![','] + json_member(
        keys[6],
        json_string(room),
    ) + seq![','] + json_member(keys[7], json_int(nbf)) + seq![','] + json_member(
        keys[8],
        json_int(iat),
    ) + seq![','] + json_member(keys[9], json_int(exp)) + seq!['}']);
}

} // verus!
