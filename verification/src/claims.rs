use vstd::prelude::*;

use crate::config::{join_spaces, option_view};
use crate::error::AppError;
use crate::jwt::JitsiUser;

verus! {

/// What the identity provider says about the user, as plain values; each
/// localized claim is read without a language tag.
pub struct ProfileClaims {
    pub subject: String,
    pub email: Option<String>,
    pub affiliation: Option<String>,
    pub name: Option<String>,
    pub given_name: Option<String>,
    pub middle_name: Option<String>,
    pub family_name: Option<String>,
    pub preferred_username: Option<String>,
    pub picture: Option<String>,
    pub moderator: Option<bool>,
}

/// A name part as a list of at most one text.
pub open spec fn name_part(o: Option<String>) -> Seq<Seq<char>> {
    match o {
        Some(s) => seq![s@],
        None => Seq::<Seq<char>>::empty(),
    }
}

/// The given, middle and family names that are present, in that order.
pub open spec fn present_name_parts(c: ProfileClaims) -> Seq<Seq<char>> {
    name_part(c.given_name) + name_part(c.middle_name) + name_part(c.family_name)
}

/// The name Jitsi shows: the `name` claim; failing that, the given, middle and
/// family names that are present, joined by spaces; failing that, the
/// preferred user name.
pub open spec fn spec_display_name(c: ProfileClaims) -> Option<Seq<char>> {
    match c.name {
        Some(n) => Some(n@),
        None => if present_name_parts(c).len() > 0 {
            Some(join_spaces(present_name_parts(c)))
        } else {
            option_view(c.preferred_username)
        },
    }
}

proof fn lemma_join_push(pieces: Seq<Seq<char>>, p: Seq<char>)
    requires
        pieces.len() > 0,
    ensures
        join_spaces(pieces.push(p)) == join_spaces(pieces) + seq![' '] + p,
{
    assert(pieces.push(p).drop_last() =~= pieces);
}

/// Appends one name part to a space-separated name being built.
fn add_name_part(acc: Option<String>, part: &Option<String>, Ghost(parts): Ghost<Seq<Seq<char>>>) -> (r:
    Option<String>)
    requires
        acc is None ==> parts.len() == 0,
        acc matches Some(s) ==> parts.len() > 0 && s@ == join_spaces(parts),
    ensures
        r is None ==> parts + name_part(*part) == Seq::<Seq<char>>::empty(),
        r matches Some(s) ==> (parts + name_part(*part)).len() > 0 && s@ == join_spaces(
            parts + name_part(*part),
        ),
{
    let p = match part {
        None => {
            proof {
                assert(parts + name_part(*part) =~= parts);
            }
            return acc;
        },
        Some(p) => p,
    };
    match acc {
        None => {
            proof {
                assert(parts + name_part(*part) =~= seq![p@]);
                assert(seq![p@].len() == 1 && seq![p@][0] == p@);
                assert(join_spaces(seq![p@]) == p@);
            }
            Some(p.clone())
        },
        Some(mut s) => {
            proof {
                lemma_join_push(parts, p@);
                assert(parts + name_part(*part) =~= parts.push(p@));
                reveal_strlit(" ");
            }
            s.append(" ");
            s.append(p.as_str());
            Some(s)
        },
    }
}

/// The display name of a user described by user info claims.
pub fn get_display_name(claims: &ProfileClaims) -> (r: Option<String>)
    ensures
        option_view(r) == spec_display_name(*claims),
{
    match &claims.name {
        Some(n) => return Some(n.clone()),
        None => {},
    }
    let ghost g = name_part(claims.given_name);
    let ghost m = name_part(claims.middle_name);
    let a = add_name_part(None, &claims.given_name, Ghost(Seq::<Seq<char>>::empty()));
    proof {
        assert(Seq::<Seq<char>>::empty() + g =~= g);
    }
    let b = add_name_part(a, &claims.middle_name, Ghost(g));
    let c = add_name_part(b, &claims.family_name, Ghost(g + m));
    match c {
        Some(joined) => Some(joined),
        None => match &claims.preferred_username {
            Some(u) => Some(u.clone()),
            None => None,
        },
    }
}

/// The display name of a user described by ID token claims; the same rule as
/// for user info claims.
pub fn get_display_name_id_token(claims: &ProfileClaims) -> (r: Option<String>)
    ensures
        option_view(r) == spec_display_name(*claims),
{
    get_display_name(claims)
}

/// Whether `u` is the Jitsi user that the claims describe: the subject as id,
/// e-mail, affiliation, picture and moderator flag as they are, and the
/// display name.
pub open spec fn is_user_of(u: JitsiUser, c: ProfileClaims) -> bool {
    &&& u.id@ == c.subject@
    &&& option_view(u.email) == option_view(c.email)
    &&& option_view(u.affiliation) == option_view(c.affiliation)
    &&& option_view(u.name) == spec_display_name(c)
    &&& option_view(u.avatar) == option_view(c.picture)
    &&& u.moderator == c.moderator
}

/// The Jitsi user that the claims describe.
pub fn jitsi_user_from(claims: ProfileClaims) -> (u: JitsiUser)
    ensures
        is_user_of(u, claims),
{
    let name = get_display_name(&claims);
    JitsiUser {
        id: claims.subject,
        email: claims.email,
        affiliation: claims.affiliation,
        name,
        avatar: claims.picture,
        moderator: claims.moderator,
    }
}

/// Whether an extra audience of an ID token is trusted: exactly when trusted
/// audiences are configured and it is one of them. Without configured ones no
/// extra audience is trusted, as with the ID token verifier's default.
pub fn audience_is_trusted(trusted_audiences: &Option<Vec<String>>, aud: &str) -> (r: bool)
    ensures
        r == (trusted_audiences matches Some(list) && exists|i: int|
            0 <= i < list@.len() && (#[trigger] list@[i])@ == aud@),
{
    let list = match trusted_audiences {
        Some(list) => list,
        None => return false,
    };
    let wanted = String::from_str(aud);
    let n = list.len();
    let mut i: usize = 0;
    while i < n
        invariant
            *trusted_audiences == Some(*list),
            n == list@.len(),
            i <= n,
            wanted@ == aud@,
            forall|j: int| 0 <= j < i ==> (#[trigger] list@[j])@ != aud@,
        decreases n - i,
    {
        if list[i] == wanted {
            proof {
                assert(trusted_audiences->0@[i as int]@ == aud@);
            }
            return true;
        }
        i = i + 1;
    }
    false
}

/// An ID token whose signature, nonce, audiences and times were checked.
pub struct VerifiedIdToken {
    pub profile: ProfileClaims,
    /// The `acr` claim.
    pub auth_context: Option<String>,
    /// The `at_hash` claim.
    pub access_token_hash: Option<String>,
}

/// The access token's hash as computed with the ID token's signing algorithm
/// and key, or the step that failed.
pub enum AccessTokenHashOutcome {
    /// The signing algorithm is not supported for hashing.
    UnsupportedAlgorithm,
    /// The signing key could not be found.
    InvalidSigningKey,
    Computed(String),
}

/// What checking an ID token found.
pub struct IdTokenEvidence {
    /// The verified claims, or why verification failed.
    pub verification: Result<VerifiedIdToken, String>,
    pub computed_access_token_hash: AccessTokenHashOutcome,
}

/// Whether the configured authentication context classes refuse the ID token's
/// class: some are configured, and the token names none of them.
pub open spec fn acr_refuses(acr_values: Option<Seq<Seq<char>>>, auth_context: Option<Seq<char>>) -> bool {
    match acr_values {
        None => false,
        Some(list) => match auth_context {
            None => true,
            Some(a) => !list.contains(a),
        },
    }
}

/// Whether access token hashes are checked: yes, unless configured otherwise.
pub open spec fn checks_access_token_hash(verify_access_token_hash: Option<bool>) -> bool {
    match verify_access_token_hash {
        None => true,
        Some(b) => b,
    }
}

/// A successful answer that carries the user the claims describe.
pub open spec fn gives_user(r: Result<Option<JitsiUser>, AppError>, c: ProfileClaims) -> bool {
    r matches Ok(Some(u)) && is_user_of(u, c)
}

/// What an ID token decides: without a token, nothing where no authentication
/// context classes are configured and `IdTokenRequired` where some are; with a
/// token, in this order, its verification error, an unfulfilled context class,
/// and, where hashes are checked, a missing hash, an unusable algorithm or key
/// and a wrong hash refuse it; otherwise it gives the user it describes.
pub open spec fn id_token_decision(
    r: Result<Option<JitsiUser>, AppError>,
    acr_values: Option<Seq<Seq<char>>>,
    verify_access_token_hash: Option<bool>,
    evidence: Option<IdTokenEvidence>,
) -> bool {
    match evidence {
        None => if acr_values is None {
            r == Ok::<Option<JitsiUser>, AppError>(None)
        } else {
            r == Err::<Option<JitsiUser>, AppError>(AppError::IdTokenRequired)
        },
        Some(e) => match e.verification {
            Err(msg) => r == Err::<Option<JitsiUser>, AppError>(AppError::InvalidIdTokenNonce(msg)),
            Ok(v) => if acr_refuses(acr_values, option_view(v.auth_context)) {
                r == Err::<Option<JitsiUser>, AppError>(AppError::AuthenticationContextWasNotFulfilled)
            } else if checks_access_token_hash(verify_access_token_hash) {
                match v.access_token_hash {
                    None => r == Err::<Option<JitsiUser>, AppError>(AppError::MissingAccessTokenHash),
                    Some(expected) => match e.computed_access_token_hash {
                        AccessTokenHashOutcome::UnsupportedAlgorithm => r == Err::<
                            Option<JitsiUser>,
                            AppError,
                        >(AppError::UnsupportedSigningAlgorithm),
                        AccessTokenHashOutcome::InvalidSigningKey => r == Err::<
                            Option<JitsiUser>,
                            AppError,
                        >(AppError::InvalidSigningKey),
                        AccessTokenHashOutcome::Computed(actual) => if actual@ != expected@ {
                            r == Err::<Option<JitsiUser>, AppError>(AppError::InvalidAccessToken)
                        } else {
                            gives_user(r, v.profile)
                        },
                    },
                }
            } else {
                gives_user(r, v.profile)
            },
        },
    }
}

/// Whether a list of strings holds one equal to `s`.
fn list_contains(list: &Vec<String>, s: &String) -> (r: bool)
    ensures
        r == crate::config::string_views(list@).contains(s@),
{
    let n = list.len();
    let mut i: usize = 0;
    while i < n
        invariant
            n == list@.len(),
            i <= n,
            forall|j: int| 0 <= j < i ==> (#[trigger] list@[j])@ != s@,
        decreases n - i,
    {
        if list[i] == *s {
            proof {
                assert(crate::config::string_views(list@)[i as int] == s@);
            }
            return true;
        }
        i = i + 1;
    }
    proof {
        if crate::config::string_views(list@).contains(s@) {
            let j = choose|j: int| 0 <= j < n && crate::config::string_views(list@)[j] == s@;
            assert(list@[j]@ == s@);
        }
    }
    false
}

/// Decides what an ID token says about the login.
pub fn id_token_claims(
    acr_values: &Option<Vec<String>>,
    verify_access_token_hash: Option<bool>,
    evidence: Option<IdTokenEvidence>,
) -> (r: Result<Option<JitsiUser>, AppError>)
    ensures
        id_token_decision(
            r,
            crate::config::option_list_view(*acr_values),
            verify_access_token_hash,
            evidence,
        ),
{
    let e = match evidence {
        None => {
            return match acr_values {
                None => Ok(None),
                Some(_) => Err(AppError::IdTokenRequired),
            };
        },
        Some(e) => e,
    };
    let verified = match e.verification {
        Err(msg) => return Err(AppError::InvalidIdTokenNonce(msg)),
        Ok(v) => v,
    };
    match acr_values {
        Some(list) => match &verified.auth_context {
            Some(ctx) => {
                if !list_contains(list, ctx) {
                    return Err(AppError::AuthenticationContextWasNotFulfilled);
                }
            },
            None => return Err(AppError::AuthenticationContextWasNotFulfilled),
        },
        None => {},
    }
    let check = match verify_access_token_hash {
        None => true,
        Some(b) => b,
    };
    if check {
        match &verified.access_token_hash {
            None => return Err(AppError::MissingAccessTokenHash),
            Some(expected) => match &e.computed_access_token_hash {
                AccessTokenHashOutcome::UnsupportedAlgorithm => {
                    return Err(AppError::UnsupportedSigningAlgorithm)
                },
                AccessTokenHashOutcome::InvalidSigningKey => return Err(AppError::InvalidSigningKey),
                AccessTokenHashOutcome::Computed(actual) => {
                    if !(*actual == *expected) {
                        return Err(AppError::InvalidAccessToken);
                    }
                },
            },
        }
    }
    Ok(Some(jitsi_user_from(verified.profile)))
}

/// Whether the decision on an ID token reads the computed access token hash.
pub open spec fn spec_hash_needed(
    acr_values: Option<Seq<Seq<char>>>,
    verify_access_token_hash: Option<bool>,
    verification: Result<VerifiedIdToken, String>,
) -> bool {
    verification matches Ok(v) && !acr_refuses(acr_values, option_view(v.auth_context))
        && checks_access_token_hash(verify_access_token_hash) && v.access_token_hash is Some
}

/// Where the decision does not read the computed hash, two pieces of evidence
/// that differ only in it are decided alike.
pub proof fn lemma_unread_hash_does_not_matter(
    r: Result<Option<JitsiUser>, AppError>,
    acr_values: Option<Seq<Seq<char>>>,
    verify_access_token_hash: Option<bool>,
    verification: Result<VerifiedIdToken, String>,
    h1: AccessTokenHashOutcome,
    h2: AccessTokenHashOutcome,
)
    requires
        !spec_hash_needed(acr_values, verify_access_token_hash, verification),
    ensures
        id_token_decision(
            r,
            acr_values,
            verify_access_token_hash,
            Some((IdTokenEvidence { verification, computed_access_token_hash: h1 })),
        ) == id_token_decision(
            r,
            acr_values,
            verify_access_token_hash,
            Some((IdTokenEvidence { verification, computed_access_token_hash: h2 })),
        ),
{
}

/// Whether deciding on an ID token reads the access token hash computed for it:
/// exactly when the token verified, its context class is not refused, hashes
/// are checked and the token carries one. Elsewhere `id_token_claims` gives the
/// same answer whatever hash outcome it is handed.
pub fn access_token_hash_needed(
    acr_values: &Option<Vec<String>>,
    verify_access_token_hash: Option<bool>,
    verification: &Result<VerifiedIdToken, String>,
) -> (r: bool)
    ensures
        r == spec_hash_needed(
            crate::config::option_list_view(*acr_values),
            verify_access_token_hash,
            *verification,
        ),
{
    let v = match verification {
        Err(_) => return false,
        Ok(v) => v,
    };
    match acr_values {
        Some(list) => match &v.auth_context {
            Some(ctx) => {
                if !list_contains(list, ctx) {
                    return false;
                }
            },
            None => return false,
        },
        None => {},
    }
    let check = match verify_access_token_hash {
        None => true,
        Some(b) => b,
    };
    check && v.access_token_hash.is_some()
}

/// What asking the user info endpoint gave.
pub enum UserInfoOutcome {
    /// The provider has no user info endpoint.
    MissingEndpoint,
    /// The user info request could not be set up for another reason.
    EndpointError,
    /// The request failed.
    RequestFailed,
    /// The user info claims.
    Claims(ProfileClaims),
}

/// What the user info endpoint decides: nothing where there is none, an
/// internal error where it cannot be asked, `UnableToQueryUserInfo` where the
/// request failed, and otherwise the user its claims describe.
pub fn user_info_claims(outcome: UserInfoOutcome) -> (r: Result<Option<JitsiUser>, AppError>)
    ensures
        match outcome {
            UserInfoOutcome::MissingEndpoint => r == Ok::<Option<JitsiUser>, AppError>(None),
            UserInfoOutcome::EndpointError => r == Err::<Option<JitsiUser>, AppError>(
                AppError::InternalServerError,
            ),
            UserInfoOutcome::RequestFailed => r == Err::<Option<JitsiUser>, AppError>(
                AppError::UnableToQueryUserInfo,
            ),
            UserInfoOutcome::Claims(c) => gives_user(r, c),
        },
{
    match outcome {
        UserInfoOutcome::MissingEndpoint => Ok(None),
        UserInfoOutcome::EndpointError => Err(AppError::InternalServerError),
        UserInfoOutcome::RequestFailed => Err(AppError::UnableToQueryUserInfo),
        UserInfoOutcome::Claims(c) => Ok(Some(jitsi_user_from(c))),
    }
}

/// The Jitsi user carries what the claims say: the subject as id, and the
/// e-mail, affiliation, picture and moderator flag unchanged.
pub proof fn lemma_user_carries_the_claims(u: JitsiUser, c: ProfileClaims)
    requires
        is_user_of(u, c),
    ensures
        u.id@ == c.subject@,
        u.email is Some == c.email is Some,
        u.email matches Some(e) ==> e@ == c.email->0@,
        u.affiliation is Some == c.affiliation is Some,
        u.affiliation matches Some(a) ==> a@ == c.affiliation->0@,
        u.avatar is Some == c.picture is Some,
        u.avatar matches Some(p) ==> p@ == c.picture->0@,
        u.moderator == c.moderator,
        u.name is Some == (c.name is Some || c.given_name is Some || c.middle_name is Some
            || c.family_name is Some || c.preferred_username is Some),
{
}

/// The display name: the `name` claim where there is one; otherwise the given,
/// middle and family names that are present, in that order, with one space
/// between two of them, whatever the preferred user name; only where none of
/// them is present, the preferred user name.
pub proof fn lemma_display_name_rule(c: ProfileClaims)
    ensures
        c.name matches Some(n) ==> spec_display_name(c) == Some(n@),
        c.name is None ==> (c.given_name matches Some(g) ==> (c.middle_name is None
            ==> (c.family_name is None ==> spec_display_name(c) == Some(g@)))),
        c.name is None ==> (c.middle_name matches Some(m) ==> (c.given_name is None
            ==> (c.family_name is None ==> spec_display_name(c) == Some(m@)))),
        c.name is None ==> (c.family_name matches Some(f) ==> (c.given_name is None
            ==> (c.middle_name is None ==> spec_display_name(c) == Some(f@)))),
        c.name is None ==> (c.given_name matches Some(g) ==> (c.middle_name matches Some(m) ==> (
        c.family_name is None ==> spec_display_name(c) == Some(g@ + seq![' '] + m@)))),
        c.name is None ==> (c.given_name matches Some(g) ==> (c.family_name matches Some(f) ==> (
        c.middle_name is None ==> spec_display_name(c) == Some(g@ + seq![' '] + f@)))),
        c.name is None ==> (c.middle_name matches Some(m) ==> (c.family_name matches Some(f) ==> (
        c.given_name is None ==> spec_display_name(c) == Some(m@ + seq![' '] + f@)))),
        c.name is None ==> (c.given_name matches Some(g) ==> (c.middle_name matches Some(m) ==> (
        c.family_name matches Some(f) ==> spec_display_name(c) == Some(
            g@ + seq![' '] + m@ + seq![' '] + f@,
        )))),
        c.name is None && c.given_name is None && c.middle_name is None && c.family_name is None
            ==> spec_display_name(c) == option_view(c.preferred_username),
{
    let parts = present_name_parts(c);
    if c.name is None {
        lemma_join_one_two_three(parts);
        match (c.given_name, c.middle_name, c.family_name) {
            (Some(g), Some(m), Some(f)) => assert(parts =~= seq![g@, m@, f@]),
            (Some(g), Some(m), None) => assert(parts =~= seq![g@, m@]),
            (Some(g), None, Some(f)) => assert(parts =~= seq![g@, f@]),
            (None, Some(m), Some(f)) => assert(parts =~= seq![m@, f@]),
            (Some(g), None, None) => assert(parts =~= seq![g@]),
            (None, Some(m), None) => assert(parts =~= seq![m@]),
            (None, None, Some(f)) => assert(parts =~= seq![f@]),
            (None, None, None) => assert(parts.len() == 0),
        }
    }
}

proof fn lemma_join_one_two_three(p: Seq<Seq<char>>)
    ensures
        p.len() == 1 ==> join_spaces(p) == p[0],
        p.len() == 2 ==> join_spaces(p) == p[0] + seq![' '] + p[1],
        p.len() == 3 ==> join_spaces(p) == p[0] + seq![' '] + p[1] + seq![' '] + p[2],
{
    if p.len() == 2 {
        let d = p.drop_last();
        assert(d.len() == 1 && d[0] == p[0]);
        assert(join_spaces(d) == p[0]);
        assert(join_spaces(p) == join_spaces(d) + seq![' '] + p.last());
    } else if p.len() == 3 {
        let d = p.drop_last();
        let e = d.drop_last();
        assert(e.len() == 1 && e[0] == p[0]);
        assert(join_spaces(e) == p[0]);
        assert(join_spaces(d) == join_spaces(e) + seq![' '] + d.last());
        assert(join_spaces(p) == join_spaces(d) + seq![' '] + p.last());
    }
}

/// An ID token whose context class is one of the configured ones, wherever it
/// stands in the list, and whose access token hash matches the computed one
/// (or is not checked), gives the user its claims describe.
pub proof fn lemma_listed_context_gives_user(
    r: Result<Option<JitsiUser>, AppError>,
    acr_values: Seq<Seq<char>>,
    i: int,
    verify_access_token_hash: Option<bool>,
    v: VerifiedIdToken,
    computed: AccessTokenHashOutcome,
)
    requires
        0 <= i < acr_values.len(),
        v.auth_context matches Some(a) && a@ == acr_values[i],
        verify_access_token_hash == Some(false) || (v.access_token_hash matches Some(h)
            && computed matches AccessTokenHashOutcome::Computed(x) && x@ == h@),
        id_token_decision(
            r,
            Some(acr_values),
            verify_access_token_hash,
            Some((IdTokenEvidence { verification: Ok(v), computed_access_token_hash: computed })),
        ),
    ensures
        r matches Ok(Some(u)) && is_user_of(u, v.profile),
{
    assert(acr_values.contains(acr_values[i]));
}

/// Without configured context classes, a verified ID token whose access token
/// hash matches (or is not checked) gives the user its claims describe,
/// whatever its context class.
pub proof fn lemma_unconfigured_context_gives_user(
    r: Result<Option<JitsiUser>, AppError>,
    verify_access_token_hash: Option<bool>,
    v: VerifiedIdToken,
    computed: AccessTokenHashOutcome,
)
    requires
        verify_access_token_hash == Some(false) || (v.access_token_hash matches Some(h)
            && computed matches AccessTokenHashOutcome::Computed(x) && x@ == h@),
        id_token_decision(
            r,
            None,
            verify_access_token_hash,
            Some((IdTokenEvidence { verification: Ok(v), computed_access_token_hash: computed })),
        ),
    ensures
        r matches Ok(Some(u)) && is_user_of(u, v.profile),
{
}

/// Where context classes are configured, a verified ID token without a context
/// class, or with one that is none of them, is refused as not fulfilling the
/// context, whatever its hash.
pub proof fn lemma_unlisted_context_is_refused(
    r: Result<Option<JitsiUser>, AppError>,
    acr_values: Seq<Seq<char>>,
    verify_access_token_hash: Option<bool>,
    v: VerifiedIdToken,
    computed: AccessTokenHashOutcome,
)
    requires
        v.auth_context matches Some(a) ==> forall|i: int| 0 <= i < acr_values.len() ==> acr_values[i] != a@,
        id_token_decision(
            r,
            Some(acr_values),
            verify_access_token_hash,
            Some((IdTokenEvidence { verification: Ok(v), computed_access_token_hash: computed })),
        ),
    ensures
        r == Err::<Option<JitsiUser>, AppError>(AppError::AuthenticationContextWasNotFulfilled),
{
}

/// Where hashes are checked and the context class is fulfilled, a verified ID
/// token without an access token hash is refused as missing it, and one whose
/// hash differs from the computed one as an invalid access token.
pub proof fn lemma_checked_hash_must_match(
    r: Result<Option<JitsiUser>, AppError>,
    acr_values: Option<Seq<Seq<char>>>,
    verify_access_token_hash: Option<bool>,
    v: VerifiedIdToken,
    computed: AccessTokenHashOutcome,
)
    requires
        verify_access_token_hash != Some(false),
        acr_values matches Some(l) ==> (v.auth_context matches Some(a) && exists|i: int|
            0 <= i < l.len() && l[i] == a@),
        id_token_decision(
            r,
            acr_values,
            verify_access_token_hash,
            Some((IdTokenEvidence { verification: Ok(v), computed_access_token_hash: computed })),
        ),
    ensures
        v.access_token_hash is None ==> r == Err::<Option<JitsiUser>, AppError>(
            AppError::MissingAccessTokenHash,
        ),
        v.access_token_hash matches Some(h) ==> (computed matches AccessTokenHashOutcome::Computed(x)
            ==> (x@ != h@ ==> r == Err::<Option<JitsiUser>, AppError>(AppError::InvalidAccessToken))),
{
}

/// A token that failed verification is refused with the verifier's message.
pub proof fn lemma_unverified_token_is_refused(
    r: Result<Option<JitsiUser>, AppError>,
    acr_values: Option<Seq<Seq<char>>>,
    verify_access_token_hash: Option<bool>,
    msg: String,
    computed: AccessTokenHashOutcome,
)
    requires
        id_token_decision(
            r,
            acr_values,
            verify_access_token_hash,
            Some((IdTokenEvidence { verification: Err(msg), computed_access_token_hash: computed })),
        ),
    ensures
        r == Err::<Option<JitsiUser>, AppError>(AppError::InvalidIdTokenNonce(msg)),
{
}

/// Without an ID token there is no user from it: nothing where no context
/// classes are configured, and `IdTokenRequired` where some are.
pub proof fn lemma_missing_id_token(
    r: Result<Option<JitsiUser>, AppError>,
    acr_values: Option<Seq<Seq<char>>>,
    verify_access_token_hash: Option<bool>,
)
    requires
        id_token_decision(r, acr_values, verify_access_token_hash, None),
    ensures
        acr_values is None ==> r == Ok::<Option<JitsiUser>, AppError>(None),
        acr_values is Some ==> r == Err::<Option<JitsiUser>, AppError>(AppError::IdTokenRequired),
{
}

} // verus!
