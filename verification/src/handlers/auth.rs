//! Logging in: credentials against a session token.

use vstd::prelude::*;

use crate::auth::{generate_token_at, spec_generate_token, TokenError};
use crate::config::Config;
use crate::handlers::apiresponse::{internal_server_error, ok, unauthorized, Reply, Status};
use crate::models::profile::{profile_views, Credentials, Kind, Profile, ProfileView};
use crate::store::Db;

verus! {

/// What a login is refused with where no account has the credentials.
pub const INVALID_CREDENTIALS: &'static str = "Invalid username or password!";

/// What a login is refused with where no token could be issued.
pub const NO_TOKEN: &'static str = "Unable to issue a token.";

/// What a login answers with, as a mathematical value.
pub struct SessionView {
    pub id: u8,
    pub token: Seq<char>,
    pub role: Kind,
}

/// What a login answers with: the account, its role, and the token to send
/// with later requests.
#[derive(Debug, PartialEq, Eq)]
pub struct Session {
    pub id: u8,
    pub token: String,
    pub role: Kind,
}

impl View for Session {
    type V = SessionView;

    open spec fn view(&self) -> SessionView {
        SessionView { id: self.id, token: self.token@, role: self.role }
    }
}

/// Whether `i` is the place of the first account with the username and the
/// password, both compared letter for letter.
pub open spec fn is_first_match(
    profiles: Seq<ProfileView>,
    username: Seq<char>,
    password: Seq<char>,
    i: int,
) -> bool {
    &&& 0 <= i < profiles.len()
    &&& profiles[i].username == username && profiles[i].password == password
    &&& forall|j: int|
        0 <= j < i ==> !(profiles[j].username == username && profiles[j].password == password)
}

/// The place of the first account with the username and the password, if
/// there is one.
pub open spec fn spec_find_account(
    profiles: Seq<ProfileView>,
    username: Seq<char>,
    password: Seq<char>,
) -> Option<int> {
    if exists|i: int| is_first_match(profiles, username, password, i) {
        Some(choose|i: int| is_first_match(profiles, username, password, i))
    } else {
        None
    }
}

/// The place of the first account with the credentials, if there is one.
pub fn find_account(profiles: &Vec<Profile>, credentials: &Credentials) -> (at: Option<usize>)
    ensures
        match at {
            Some(i) => i < profiles@.len() && spec_find_account(
                profile_views(profiles@),
                credentials.username@,
                credentials.password@,
            ) == Some(i as int),
            None => spec_find_account(
                profile_views(profiles@),
                credentials.username@,
                credentials.password@,
            ) is None,
        },
{
    let mut i: usize = 0;
    while i < profiles.len()
        invariant
            i <= profiles@.len(),
            forall|j: int|
                0 <= j < i ==> !(profile_views(profiles@)[j].username == credentials.username@
                    && profile_views(profiles@)[j].password == credentials.password@),
        decreases profiles@.len() - i,
    {
        if profiles[i].username == credentials.username && profiles[i].password
            == credentials.password {
            assert(is_first_match(
                profile_views(profiles@),
                credentials.username@,
                credentials.password@,
                i as int,
            ));
            return Some(i);
        }
        i += 1;
    }
    None
}

/// Whether `reply` is what a login with the credentials at the second `now`
/// answers: 401 where no account has them; else 200 with the first such
/// account, its role and the token issued to it at `now`, or 500 where none
/// could be issued.
pub open spec fn logged_in(
    reply: Reply<Session>,
    profiles: Seq<ProfileView>,
    username: Seq<char>,
    password: Seq<char>,
    now: i64,
    secret: Seq<u8>,
) -> bool {
    match spec_find_account(profiles, username, password) {
        Some(i) => match spec_generate_token(profiles[i].id, now, secret) {
            Ok(token) => reply.succeeds(Status::Success) && reply.body.data->Some_0@ == (
            SessionView { id: profiles[i].id, token, role: profiles[i].kind }),
            Err(_) => reply.fails(Status::InternalServerError, NO_TOKEN@),
        },
        None => reply.fails(Status::Unauthorized, INVALID_CREDENTIALS@),
    }
}

/// The answer to a login, given the account found and the outcome of
/// issuing a token to it.
pub fn answer(account: Option<&Profile>, token: Option<Result<String, TokenError>>) -> (reply:
    Reply<Session>)
    requires
        account is Some ==> token is Some,
    ensures
        match account {
            Some(profile) => match token->Some_0 {
                Ok(text) => reply.succeeds(Status::Success) && reply.body.data->Some_0@ == (
                SessionView { id: profile.id, token: text@, role: profile.kind }),
                Err(_) => reply.fails(Status::InternalServerError, NO_TOKEN@),
            },
            None => reply.fails(Status::Unauthorized, INVALID_CREDENTIALS@),
        },
{
    proof {
        reveal_strlit("Invalid username or password!");
    }
    match account {
        Some(profile) => match token {
            Some(Ok(text)) => ok(Session { id: profile.id, token: text, role: profile.kind }),
            Some(Err(_)) => internal_server_error(NO_TOKEN),
            None => internal_server_error(NO_TOKEN),
        },
        None => unauthorized(INVALID_CREDENTIALS),
    }
}

/// Answers a login at the second `now`.
pub fn login(credentials: Credentials, db: &Db, config: &Config, now: i64) -> (reply: Reply<
    Session,
>)
    requires
        Profile::stored(db@),
    ensures
        logged_in(
            reply,
            Profile::all(db@),
            credentials.username@,
            credentials.password@,
            now,
            config.jwt_secret@,
        ),
{
    let profiles = Profile::load(db);
    match find_account(&profiles, &credentials) {
        Some(i) => {
            assert(profile_views(profiles@)[i as int] == profiles@[i as int]@);
            let token = generate_token_at(profiles[i].id, now, config);
            answer(Some(&profiles[i]), Some(token))
        },
        None => answer(None, None),
    }
}

} // verus!
