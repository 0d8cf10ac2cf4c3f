//! Principals, the role rules, and the session tokens that bind a request to
//! an account.

use vstd::prelude::*;
use vstd::string::StrSliceExecFns;
use vstd::string::StringExecFns;

use crate::config::Config;
use crate::models::profile::{get_kind, spec_position_by_id, Kind, Profile, ProfileView};
use crate::store::Db;

verus! {

/// For how many seconds a token is valid after it was issued.
pub const VALIDITY: i64 = 3600;

/// What a token says: the account and the second after which it no longer
/// holds.
#[derive(Debug, Clone, Copy, PartialEq, Eq, Structural)]
pub struct Claims {
    pub user_id: u8,
    pub exp: i64,
}

/// Who makes a request. The id 0 stands for nobody.
#[derive(Debug, Clone, Copy, PartialEq, Eq, Structural)]
pub struct User {
    pub id: u8,
    pub role: Kind,
}

/// What a principal may ask to change.
#[derive(Debug, Clone, Copy, PartialEq, Eq, Structural)]
pub enum Action {
    /// Creating or updating a course.
    WriteCourse,
    /// Creating or updating a topic.
    WriteTopic,
}

impl Kind {
    /// Whether the role may take the action: courses are written by `Root`
    /// and `Admin`, topics by everyone but `Trainee`.
    pub open spec fn spec_is_allowed(self, action: Action) -> bool {
        match action {
            Action::WriteCourse => self == Kind::Root || self == Kind::Admin,
            Action::WriteTopic => self != Kind::Trainee,
        }
    }

    pub fn is_allowed(self, action: Action) -> (allowed: bool)
        ensures
            allowed == self.spec_is_allowed(action),
    {
        match action {
            Action::WriteCourse => match self {
                Kind::Root | Kind::Admin => true,
                Kind::Mentor | Kind::Trainee => false,
            },
            Action::WriteTopic => match self {
                Kind::Trainee => false,
                Kind::Root | Kind::Admin | Kind::Mentor => true,
            },
        }
    }
}

impl User {
    /// The principal of a request that no valid token came with.
    pub open spec fn spec_anonymous() -> User {
        User { id: 0, role: Kind::Trainee }
    }

    pub fn anonymous() -> (user: User)
        ensures
            user == User::spec_anonymous(),
    {
        User { id: 0, role: Kind::Trainee }
    }

    /// Whether the principal may see the account: its own, any as `Root` or
    /// `Admin`, and a `Trainee`'s as `Mentor`.
    pub open spec fn spec_can_view(self, profile: ProfileView) -> bool {
        ||| self.id == profile.id
        ||| self.role == Kind::Admin
        ||| self.role == Kind::Root
        ||| (self.role == Kind::Mentor && profile.kind == Kind::Trainee)
    }

    pub fn can_view(&self, profile: &Profile) -> (allowed: bool)
        ensures
            allowed == self.spec_can_view(profile@),
    {
        if self.id == profile.id {
            return true;
        }
        match self.role {
            Kind::Root | Kind::Admin => true,
            Kind::Mentor => match profile.kind {
                Kind::Trainee => true,
                Kind::Root | Kind::Admin | Kind::Mentor => false,
            },
            Kind::Trainee => false,
        }
    }
}

/// The error of `jsonwebtoken`.
#[verifier::external_type_specification]
#[verifier::external_body]
pub struct ExTokenFault(jsonwebtoken::errors::Error);

/// The token that `jsonwebtoken::encode` gives for the two claims under the
/// default header and the secret, where it gives one.
pub uninterp spec fn jwt_token(user_id: u8, exp: i64, secret: Seq<u8>) -> Option<Seq<char>>;

/// The claims `user_id` and `exp`, in this order and each where the token
/// has it, that `jsonwebtoken::decode` reads from a token whose signature
/// the secret confirms. `None` where it reads none. The expiry is not looked
/// at.
pub uninterp spec fn jwt_claims(token: Seq<char>, secret: Seq<u8>) -> Option<
    (Option<i64>, Option<i64>),
>;

/// Calls `jsonwebtoken::encode` with the default header (HS256), the claims
/// `user_id` and `exp`, and the secret as the key.
///
/// Trusted: the token is a function of the claims and the secret alone, and
/// `jsonwebtoken::decode` with the same secret reads the same two claims
/// from it.
#[verifier::external_body]
fn sign_claims(claims: &Claims, secret: &[u8]) -> (signed: Result<
    String,
    jsonwebtoken::errors::Error,
>)
    ensures
        match signed {
            Ok(token) => jwt_token(claims.user_id, claims.exp, secret@) == Some(token@)
                && jwt_claims(token@, secret@) == Some(
                (Some(claims.user_id as i64), Some(claims.exp)),
            ),
            Err(_) => jwt_token(claims.user_id, claims.exp, secret@) is None,
        },
{
    let fields = std::collections::BTreeMap::from(
        [("user_id", i64::from(claims.user_id)), ("exp", claims.exp)],
    );
    jsonwebtoken::encode(
        &jsonwebtoken::Header::default(),
        &fields,
        &jsonwebtoken::EncodingKey::from_secret(secret),
    )
}

/// Calls `jsonwebtoken::decode` for HS256 with the secret as the key and the
/// check of the expiry switched off, and picks the claims `user_id` and
/// `exp`.
///
/// Trusted: the outcome is a function of the token and the secret alone;
/// `None` stands for every error of that crate.
#[verifier::external_body]
fn read_claims(token: &str, secret: &[u8]) -> (claims: Option<(Option<i64>, Option<i64>)>)
    ensures
        claims == jwt_claims(token@, secret@),
{
    let mut validation = jsonwebtoken::Validation::new(jsonwebtoken::Algorithm::HS256);
    validation.validate_exp = false;
    validation.required_spec_claims.clear();
    let key = jsonwebtoken::DecodingKey::from_secret(secret);
    match jsonwebtoken::decode::<std::collections::BTreeMap<String, i64>>(token, &key, &validation)
    {
        Ok(data) => Some((data.claims.get("user_id").copied(), data.claims.get("exp").copied())),
        Err(_) => None,
    }
}

/// Calls `chrono::Utc::now` and takes its `timestamp`: the seconds since the
/// Unix epoch by the machine's clock. Nothing is promised of the number.
#[verifier::external_body]
pub(crate) fn current_timestamp() -> (now: i64) {
    chrono::Utc::now().timestamp()
}

/// Calls `gen` on `rand::thread_rng` for one byte. Nothing is promised of
/// the byte.
#[verifier::external_body]
fn random_byte() -> (byte: u8) {
    rand::Rng::gen(&mut rand::thread_rng())
}

/// Why no token was issued.
#[derive(Debug, Clone, Copy, PartialEq, Eq, Structural)]
pub enum TokenError {
    /// The expiry is later than the clock can count.
    Expiry,
    /// The token could not be signed.
    Signing,
}

/// The kind of a token that proves nothing: malformed, signed with another
/// secret, naming no account, or expired.
#[derive(Debug, Clone, Copy, PartialEq, Eq, Structural)]
pub struct Invalid;

/// The second at which a token issued at `now` stops being valid.
pub open spec fn spec_expiry(now: i64) -> int {
    now + VALIDITY
}

/// The token issued to the account at `now`, or why there is none.
pub open spec fn spec_generate_token(user_id: u8, now: i64, secret: Seq<u8>) -> Result<
    Seq<char>,
    TokenError,
> {
    if spec_expiry(now) > i64::MAX {
        Err(TokenError::Expiry)
    } else {
        match jwt_token(user_id, spec_expiry(now) as i64, secret) {
            Some(token) => Ok(token),
            None => Err(TokenError::Signing),
        }
    }
}

/// The account that the claims name at `now`, or `Invalid`: both claims
/// must be there, the account must be one that an id can name, and `now`
/// before the expiry.
pub open spec fn spec_check_claims(claims: Option<(Option<i64>, Option<i64>)>, now: i64) -> Result<
    u8,
    Invalid,
> {
    match claims {
        Some((Some(user_id), Some(exp))) => if 0 <= user_id <= u8::MAX && now < exp {
            Ok(user_id as u8)
        } else {
            Err(Invalid)
        },
        _ => Err(Invalid),
    }
}

/// The account that the token proves at `now`, or `Invalid`.
pub open spec fn spec_decode_token(token: Seq<char>, now: i64, secret: Seq<u8>) -> Result<
    u8,
    Invalid,
> {
    spec_check_claims(jwt_claims(token, secret), now)
}

/// The account that a token issued to `user_id` at `now` proves at `later`:
/// the account before the expiry, none from the expiry on.
pub open spec fn spec_proves(user_id: u8, now: i64, later: i64) -> Result<u8, Invalid> {
    if later < spec_expiry(now) {
        Ok(user_id)
    } else {
        Err(Invalid)
    }
}

/// Whether `outcome` is what issuing a token to the account at `now` gives:
/// the token or the error that the rules name, and a token that proves the
/// account at every second before its expiry and nothing from then on.
pub open spec fn issued_at(
    outcome: Result<String, TokenError>,
    user_id: u8,
    now: i64,
    secret: Seq<u8>,
) -> bool {
    match outcome {
        Ok(token) => {
            &&& spec_generate_token(user_id, now, secret) == Ok::<Seq<char>, TokenError>(token@)
            &&& forall|later: i64| #[trigger]
                spec_decode_token(token@, later, secret) == spec_proves(user_id, now, later)
        },
        Err(error) => spec_generate_token(user_id, now, secret) == Err::<Seq<char>, TokenError>(
            error,
        ),
    }
}

/// Issues a token to the account at the second `now`, valid for `VALIDITY`
/// seconds. Until then the token proves the account, from then on nothing.
pub fn generate_token_at(user_id: u8, now: i64, config: &Config) -> (outcome: Result<
    String,
    TokenError,
>)
    ensures
        issued_at(outcome, user_id, now, config.jwt_secret@),
{
    let exp = match now.checked_add(VALIDITY) {
        Some(exp) => exp,
        None => {
            return Err(TokenError::Expiry);
        },
    };
    let claims = Claims { user_id, exp };
    match sign_claims(&claims, config.jwt_secret.as_slice()) {
        Ok(token) => Ok(token),
        Err(_) => Err(TokenError::Signing),
    }
}

/// Issues a token to the account, valid for `VALIDITY` seconds from now by
/// the machine's clock.
pub fn generate_token(user_id: u8, config: &Config) -> (outcome: Result<String, TokenError>)
    ensures
        exists|now: i64| issued_at(outcome, user_id, now, config.jwt_secret@),
{
    let now = current_timestamp();
    let outcome = generate_token_at(user_id, now, config);
    assert(issued_at(outcome, user_id, now, config.jwt_secret@));
    outcome
}

/// The account that the claims name at `now`, or `Invalid`.
pub fn check_claims(claims: Option<(Option<i64>, Option<i64>)>, now: i64) -> (outcome: Result<
    u8,
    Invalid,
>)
    ensures
        outcome == spec_check_claims(claims, now),
{
    match claims {
        Some((Some(user_id), Some(exp))) => {
            if 0 <= user_id && user_id <= 255 && now < exp {
                Ok(user_id as u8)
            } else {
                Err(Invalid)
            }
        },
        _ => Err(Invalid),
    }
}

/// The account that the token proves at the second `now`, or `Invalid`.
pub fn decode_token_at(token: &str, now: i64, config: &Config) -> (outcome: Result<u8, Invalid>)
    ensures
        outcome == spec_decode_token(token@, now, config.jwt_secret@),
{
    check_claims(read_claims(token, config.jwt_secret.as_slice()), now)
}

/// The account that the token proves now, by the machine's clock, or
/// `Invalid`.
pub fn decode_token(token: &str, config: &Config) -> (outcome: Result<u8, Invalid>)
    ensures
        exists|now: i64| outcome == spec_decode_token(token@, now, config.jwt_secret@),
        jwt_claims(token@, config.jwt_secret@) is None ==> outcome is Err,
{
    let now = current_timestamp();
    let outcome = decode_token_at(token, now, config);
    assert(outcome == spec_decode_token(token@, now, config.jwt_secret@));
    outcome
}

/// A key of `length` bytes, each drawn at random.
pub fn generate_secret_key(length: usize) -> (key: Vec<u8>)
    ensures
        key@.len() == length,
{
    let mut key: Vec<u8> = Vec::new();
    let mut i: usize = 0;
    while i < length
        invariant
            i <= length,
            key@.len() == i,
        decreases length - i,
    {
        key.push(random_byte());
        i += 1;
    }
    key
}

/// What an authorization header starts with where it carries a token.
pub const BEARER: &'static str = "Bearer ";

/// The token that an authorization header carries: what follows `BEARER`,
/// without any double quotes. `None` where the header does not start so.
pub open spec fn spec_bearer_token(header: Seq<char>) -> Option<Seq<char>> {
    if header.len() >= BEARER@.len() && header.subrange(0, BEARER@.len() as int) == BEARER@ {
        Some(header.subrange(BEARER@.len() as int, header.len() as int).filter(|c: char| c != '"'))
    } else {
        None
    }
}

/// The token that an authorization header carries, if it carries one.
pub fn bearer_token(header: &str) -> (token: Option<String>)
    ensures
        match token {
            Some(text) => spec_bearer_token(header@) == Some(text@),
            None => spec_bearer_token(header@) is None,
        },
{
    proof {
        reveal_strlit("Bearer ");
    }
    let length = header.unicode_len();
    if length < 7 {
        return None;
    }
    let start = String::from_str(header.substring_char(0, 7));
    let bearer = String::from_str(BEARER);
    if !(start == bearer) {
        return None;
    }
    let ghost rest = header@.subrange(7, length as int);
    let ghost keep = |c: char| c != '"';
    let mut token = String::new();
    let mut i: usize = 7;
    proof {
        reveal(Seq::filter);
        assert(rest.take(0).filter(keep) =~= Seq::<char>::empty());
    }
    while i < length
        invariant
            7 <= i <= length,
            length == header@.len(),
            rest == header@.subrange(7, length as int),
            keep == |c: char| c != '"',
            token@ == rest.take(i - 7).filter(keep),
        decreases length - i,
    {
        let c = header.get_char(i);
        proof {
            reveal(Seq::filter);
            let upto = rest.take(i - 7 + 1);
            assert(upto.drop_last() =~= rest.take(i - 7));
            assert(upto.last() == c);
        }
        if c != '"' {
            token.append(header.substring_char(i, i + 1));
            proof {
                assert(header@.subrange(i as int, i + 1) =~= seq![c]);
                assert(rest.take(i - 7).filter(keep) + seq![c] =~= rest.take(i - 7).filter(
                    keep,
                ).push(c));
            }
        }
        i += 1;
    }
    proof {
        assert(rest.take(length - 7) =~= rest);
    }
    Some(token)
}

/// The text of a header that may be absent.
pub open spec fn header_view(header: Option<&str>) -> Option<Seq<char>> {
    match header {
        Some(text) => Some(text@),
        None => None,
    }
}

/// The role under which an account acts: that of the first stored account
/// with its id, and `Trainee` where there is none.
pub open spec fn spec_role_of(profiles: Seq<ProfileView>, id: u8) -> Kind {
    match spec_position_by_id(profiles, id) {
        Some(i) => profiles[i].kind,
        None => Kind::Trainee,
    }
}

/// The principal of a request at the second `now`: nobody unless the header
/// carries a token that proves an account, else that account in its role.
pub open spec fn spec_authenticate(
    header: Option<Seq<char>>,
    profiles: Seq<ProfileView>,
    now: i64,
    secret: Seq<u8>,
) -> User {
    match header {
        Some(text) => match spec_bearer_token(text) {
            Some(token) => match spec_decode_token(token, now, secret) {
                Ok(id) => User { id, role: spec_role_of(profiles, id) },
                Err(_) => User::spec_anonymous(),
            },
            None => User::spec_anonymous(),
        },
        None => User::spec_anonymous(),
    }
}

/// The principal of a request that came with the header at the second
/// `now`. A request without a header that carries a token that proves an
/// account is nobody's: this never fails.
pub fn with_auth(header: Option<&str>, db: &Db, config: &Config, now: i64) -> (user: User)
    requires
        Profile::stored(db@),
    ensures
        user == spec_authenticate(header_view(header), Profile::all(db@), now, config.jwt_secret@),
{
    let text = match header {
        Some(text) => text,
        None => {
            return User::anonymous();
        },
    };
    let token = match bearer_token(text) {
        Some(token) => token,
        None => {
            return User::anonymous();
        },
    };
    match decode_token_at(token.as_str(), now, config) {
        Ok(id) => match get_kind(db, id) {
            Ok(role) => User { id, role },
            Err(_) => User { id, role: Kind::Trainee },
        },
        Err(_) => User::anonymous(),
    }
}

} // verus!
