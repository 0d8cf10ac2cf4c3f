//! Registering an account and reading one.

use vstd::prelude::*;

use crate::auth::User;
use crate::handlers::apiresponse::{
    bad_request, created, forbidden, internal_server_error, not_found, ok, unauthorized, Reply,
    Status, FORBIDDEN, NOT_AUTHORIZED,
};
use crate::handlers::{Refusal, CAPACITY};
use crate::models::profile::{
    position_by_id, profile_views, spec_position_by_id, Kind, Profile, ProfileView, PROFILES,
};
use crate::models::{same_courses, same_topics};
use crate::store::Db;

verus! {

/// What a registration is refused with where the username is taken.
pub const USERNAME_TAKEN: &'static str = "Username is no longer available!";

/// What a registration is refused with where no id is left.
pub const NO_ID: &'static str = "Unable to provide profile ID.";

/// What a request is refused with where no account has the id.
pub const NOT_FOUND: &'static str = "Profile not found!";

/// The message that a refusal goes out with.
pub open spec fn spec_message(refusal: Refusal) -> Seq<char> {
    match refusal {
        Refusal::Unauthorized => NOT_AUTHORIZED@,
        Refusal::Forbidden => FORBIDDEN@,
        Refusal::NotFound => NOT_FOUND@,
        Refusal::Conflict => USERNAME_TAKEN@,
        Refusal::InvalidReference => NOT_FOUND@,
        Refusal::CapacityExceeded => NO_ID@,
    }
}

/// Whether the answer is the refusal.
pub open spec fn refused<T>(reply: Reply<T>, refusal: Refusal) -> bool {
    reply.fails(refusal.spec_status(), spec_message(refusal))
}

/// The answer that a refusal goes out as.
pub fn refuse<T>(refusal: Refusal) -> (reply: Reply<T>)
    ensures
        refused(reply, refusal),
{
    proof {
        reveal_strlit("");
    }
    match refusal {
        Refusal::Unauthorized => unauthorized(""),
        Refusal::Forbidden => forbidden(),
        Refusal::NotFound => not_found(NOT_FOUND),
        Refusal::Conflict => bad_request(USERNAME_TAKEN),
        Refusal::InvalidReference => bad_request(NOT_FOUND),
        Refusal::CapacityExceeded => internal_server_error(NO_ID),
    }
}

/// What a registration answers with: the id and the role, never the
/// password.
#[derive(Debug, Clone, Copy, PartialEq, Eq, Structural)]
pub struct Registration {
    pub id: u8,
    pub kind: Kind,
}

/// What of an account a read shows, as a mathematical value.
pub struct ProfileInfoView {
    pub id: u8,
    pub username: Seq<char>,
    pub first_name: Seq<char>,
    pub last_name: Seq<char>,
    pub kind: Kind,
}

/// What of an account a read shows: all but the password.
#[derive(Debug, PartialEq, Eq)]
pub struct ProfileInfo {
    pub id: u8,
    pub username: String,
    pub first_name: String,
    pub last_name: String,
    pub kind: Kind,
}

impl View for ProfileInfo {
    type V = ProfileInfoView;

    open spec fn view(&self) -> ProfileInfoView {
        ProfileInfoView {
            id: self.id,
            username: self.username@,
            first_name: self.first_name@,
            last_name: self.last_name@,
            kind: self.kind,
        }
    }
}

impl Clone for ProfileInfo {
    fn clone(&self) -> (copy: Self)
        ensures
            copy@ == self@,
    {
        ProfileInfo {
            id: self.id,
            username: self.username.clone(),
            first_name: self.first_name.clone(),
            last_name: self.last_name.clone(),
            kind: self.kind,
        }
    }
}

impl ProfileInfo {
    /// What a read shows of the account.
    pub open spec fn spec_of(profile: ProfileView) -> ProfileInfoView {
        ProfileInfoView {
            id: profile.id,
            username: profile.username,
            first_name: profile.first_name,
            last_name: profile.last_name,
            kind: profile.kind,
        }
    }

    pub fn of(profile: &Profile) -> (info: ProfileInfo)
        ensures
            info@ == ProfileInfo::spec_of(profile@),
    {
        ProfileInfo {
            id: profile.id,
            username: profile.username.clone(),
            first_name: profile.first_name.clone(),
            last_name: profile.last_name.clone(),
            kind: profile.kind,
        }
    }
}

/// Whether an account has the username.
pub open spec fn username_taken(profiles: Seq<ProfileView>, username: Seq<char>) -> bool {
    exists|i: int| 0 <= i < profiles.len() && profiles[i].username == username
}

/// Whether an account has the username.
pub fn has_username(profiles: &Vec<Profile>, username: &String) -> (taken: bool)
    ensures
        taken == username_taken(profile_views(profiles@), username@),
{
    let mut i: usize = 0;
    while i < profiles.len()
        invariant
            i <= profiles@.len(),
            forall|j: int| 0 <= j < i ==> profile_views(profiles@)[j].username != username@,
        decreases profiles@.len() - i,
    {
        if profiles[i].username == *username {
            assert(profile_views(profiles@)[i as int].username == username@);
            return true;
        }
        i += 1;
    }
    false
}

/// The account that a registration stores, or why it stores none. Anyone
/// may register; the username must be new; an id must be left. The account
/// gets the next id.
pub open spec fn spec_create(profiles: Seq<ProfileView>, profile: ProfileView) -> Result<
    ProfileView,
    Refusal,
> {
    if username_taken(profiles, profile.username) {
        Err(Refusal::Conflict)
    } else if profiles.len() >= CAPACITY {
        Err(Refusal::CapacityExceeded)
    } else {
        Ok(ProfileView { id: (profiles.len() + 1) as u8, ..profile })
    }
}

/// The account that a read shows, or why it shows none. The principal must
/// be someone, the account must exist, and the principal must be allowed to
/// see it.
pub open spec fn spec_get(profiles: Seq<ProfileView>, id: u8, user: User) -> Result<
    ProfileView,
    Refusal,
> {
    if user.id == 0 {
        Err(Refusal::Unauthorized)
    } else {
        match spec_position_by_id(profiles, id) {
            Some(i) => if user.spec_can_view(profiles[i]) {
                Ok(profiles[i])
            } else {
                Err(Refusal::Forbidden)
            },
            None => Err(Refusal::NotFound),
        }
    }
}

/// Whether `reply` and the store `after` are what a creation gives on the
/// store `before`: the profile that the rules allow is stored after those that
/// are there and answered with 201, or the answer is the refusal and the
/// store is as it was. The other collections are as they were.
pub open spec fn creates(
    reply: Reply<Registration>,
    before: Map<Seq<char>, Seq<Seq<u8>>>,
    after: Map<Seq<char>, Seq<Seq<u8>>>,
    profile: ProfileView,
) -> bool {
    &&& Profile::stored(after)
    &&& same_courses(before, after)
    &&& same_topics(before, after)
    &&& match spec_create(Profile::all(before), profile) {
        Ok(made) => {
            &&& reply.succeeds(Status::Created)
            &&& reply.body.data == Some(Registration { id: made.id, kind: made.kind })
            &&& after == before.insert(
                PROFILES@,
                before[PROFILES@].push(Profile::spec_encode(made)),
            )
            &&& Profile::all(after) == Profile::all(before).push(made)
        },
        Err(refusal) => refused(reply, refusal) && after == before,
    }
}

/// Stores a new account and answers 201 with its id and role, or refuses
/// and leaves the store as it was.
pub fn create(profile: Profile, db: &mut Db) -> (reply: Reply<Registration>)
    requires
        Profile::stored(old(db)@),
    ensures
        creates(reply, old(db)@, final(db)@, profile@),
        username_taken(Profile::all(old(db)@), profile@.username) ==> refused(
            reply,
            Refusal::Conflict,
        ) && final(db)@ == old(db)@,
{
    let profiles = Profile::load(db);
    if has_username(&profiles, &profile.username) {
        return refuse(Refusal::Conflict);
    }
    if profiles.len() >= CAPACITY {
        return refuse(Refusal::CapacityExceeded);
    }
    let id = (profiles.len() + 1) as u8;
    let made = profile.with_id(id);
    made.append(db);
    created(Registration { id, kind: made.kind })
}

/// Whether `reply` is what a read of the account with the id gives on the
/// store: 200 with it, or the refusal.
pub open spec fn gets(
    reply: Reply<ProfileInfo>,
    db: Map<Seq<char>, Seq<Seq<u8>>>,
    id: u8,
    user: User,
) -> bool {
    match spec_get(Profile::all(db), id, user) {
        Ok(profile) => reply.succeeds(Status::Success) && reply.body.data->Some_0@
            == ProfileInfo::spec_of(profile),
        Err(refusal) => refused(reply, refusal),
    }
}

/// Answers 200 with the first account with the id, less its password, or
/// refuses.
pub fn get(id: u8, db: &Db, user: User) -> (reply: Reply<ProfileInfo>)
    requires
        Profile::stored(db@),
    ensures
        gets(reply, db@, id, user),
{
    if user.id == 0 {
        return refuse(Refusal::Unauthorized);
    }
    let profiles = Profile::load(db);
    match position_by_id(&profiles, id) {
        Some(i) => {
            assert(profile_views(profiles@)[i as int] == profiles@[i as int]@);
            if !user.can_view(&profiles[i]) {
                return refuse(Refusal::Forbidden);
            }
            ok(ProfileInfo::of(&profiles[i]))
        },
        None => refuse(Refusal::NotFound),
    }
}

} // verus!
