//! Accounts and their roles.

use vstd::prelude::*;
use vstd::string::StrSliceExecFns;
use vstd::string::StringExecFns;

use crate::models::{lemma_write_keeps_others, same_courses, same_topics};
use crate::store::Db;

verus! {

/// Name of the collection that holds the accounts.
pub const PROFILES: &'static str = "profiles";

/// The role of an account, in descending privilege.
#[derive(Debug, Clone, Copy, PartialEq, Eq, Structural)]
pub enum Kind {
    Root,
    Admin,
    Mentor,
    Trainee,
}

impl Default for Kind {
    fn default() -> (kind: Self)
        ensures
            kind == Kind::Trainee,
    {
        Kind::Trainee
    }
}

/// What an account is, as a mathematical value.
pub struct ProfileView {
    pub id: u8,
    pub username: Seq<char>,
    pub password: Seq<char>,
    pub first_name: Seq<char>,
    pub last_name: Seq<char>,
    pub kind: Kind,
}

/// An account.
#[derive(Debug, PartialEq, Eq)]
pub struct Profile {
    pub id: u8,
    pub username: String,
    pub password: String,
    pub first_name: String,
    pub last_name: String,
    pub kind: Kind,
}

impl View for Profile {
    type V = ProfileView;

    open spec fn view(&self) -> ProfileView {
        ProfileView {
            id: self.id,
            username: self.username@,
            password: self.password@,
            first_name: self.first_name@,
            last_name: self.last_name@,
            kind: self.kind,
        }
    }
}

impl Default for Profile {
    fn default() -> (profile: Self)
        ensures
            profile@ == Profile::spec_new(),
    {
        Profile {
            id: 0,
            username: String::new(),
            password: String::new(),
            first_name: String::new(),
            last_name: String::new(),
            kind: Kind::Trainee,
        }
    }
}

impl Clone for Profile {
    fn clone(&self) -> (copy: Self)
        ensures
            copy@ == self@,
    {
        Profile {
            id: self.id,
            username: self.username.clone(),
            password: self.password.clone(),
            first_name: self.first_name.clone(),
            last_name: self.last_name.clone(),
            kind: self.kind,
        }
    }
}

impl Profile {
    /// The account that `new` gives: every text empty, id 0, the lowest role.
    pub open spec fn spec_new() -> ProfileView {
        ProfileView {
            id: 0,
            username: Seq::empty(),
            password: Seq::empty(),
            first_name: Seq::empty(),
            last_name: Seq::empty(),
            kind: Kind::Trainee,
        }
    }

    pub fn new() -> (profile: Profile)
        ensures
            profile@ == Profile::spec_new(),
    {
        Profile::default()
    }

    pub fn with_id(self, value: u8) -> (profile: Profile)
        ensures
            profile@ == (ProfileView { id: value, ..self@ }),
    {
        let mut profile = self;
        profile.id = value;
        profile
    }

    pub fn with_username(self, value: String) -> (profile: Profile)
        ensures
            profile@ == (ProfileView { username: value@, ..self@ }),
    {
        let mut profile = self;
        profile.username = value;
        profile
    }

    pub fn with_password(self, value: String) -> (profile: Profile)
        ensures
            profile@ == (ProfileView { password: value@, ..self@ }),
    {
        let mut profile = self;
        profile.password = value;
        profile
    }

    pub fn with_first_name(self, value: String) -> (profile: Profile)
        ensures
            profile@ == (ProfileView { first_name: value@, ..self@ }),
    {
        let mut profile = self;
        profile.first_name = value;
        profile
    }

    pub fn with_last_name(self, value: String) -> (profile: Profile)
        ensures
            profile@ == (ProfileView { last_name: value@, ..self@ }),
    {
        let mut profile = self;
        profile.last_name = value;
        profile
    }

    pub fn with_kind(self, value: Kind) -> (profile: Profile)
        ensures
            profile@ == (ProfileView { kind: value, ..self@ }),
    {
        let mut profile = self;
        profile.kind = value;
        profile
    }
}

/// The characters that a generated password is made of.
pub const CHARSET: &'static str =
    "ABCDEFGHIJKLMNOPQRSTUVWXYZabcdefghijklmnopqrstuvwxyz0123456789!@#$%^&*()";

/// How long a generated password is.
pub const PASSWORD_LENGTH: usize = 8;

/// Calls `gen_range` on `rand::thread_rng` for a number from 0 up to, not
/// including, `bound`.
///
/// Trusted: the number is below `bound`. That crate panics on an empty
/// range, so `bound` must not be 0.
#[verifier::external_body]
fn random_below(bound: usize) -> (n: usize)
    requires
        bound > 0,
    ensures
        n < bound,
{
    rand::Rng::gen_range(&mut rand::thread_rng(), 0..bound)
}

/// Whether the text has the length and holds only characters of `CHARSET`.
pub open spec fn is_password(text: Seq<char>, length: nat) -> bool {
    &&& text.len() == length
    &&& forall|i: int| 0 <= i < text.len() ==> CHARSET@.contains(#[trigger] text[i])
}

/// A password of `length` characters, each drawn at random from `CHARSET`.
pub fn generate_password(length: usize) -> (password: String)
    ensures
        is_password(password@, length as nat),
{
    proof {
        reveal_strlit("ABCDEFGHIJKLMNOPQRSTUVWXYZabcdefghijklmnopqrstuvwxyz0123456789!@#$%^&*()");
    }
    let choices = CHARSET.unicode_len();
    let mut password = String::new();
    let mut i: usize = 0;
    while i < length
        invariant
            i <= length,
            choices == CHARSET@.len(),
            choices > 0,
            is_password(password@, i as nat),
        decreases length - i,
    {
        let at = random_below(choices);
        let ghost before = password@;
        password.append(CHARSET.substring_char(at, at + 1));
        proof {
            assert(CHARSET@.subrange(at as int, at + 1) =~= seq![CHARSET@[at as int]]);
            assert(password@ =~= before.push(CHARSET@[at as int]));
            assert forall|k: int| 0 <= k < password@.len() implies CHARSET@.contains(
                #[trigger] password@[k],
            ) by {
                if k < before.len() {
                    assert(password@[k] == before[k]);
                } else {
                    assert(password@[k] == CHARSET@[at as int]);
                }
            }
        }
        i += 1;
    }
    password
}

impl Profile {
    /// The account with a password of `PASSWORD_LENGTH` characters drawn at
    /// random from `CHARSET`, and all else as it was.
    pub fn with_generated_password(self) -> (profile: Profile)
        ensures
            profile@ == (ProfileView { password: profile@.password, ..self@ }),
            is_password(profile@.password, PASSWORD_LENGTH as nat),
    {
        let mut profile = self;
        profile.password = generate_password(PASSWORD_LENGTH);
        profile
    }
}

/// What a login request carries.
#[derive(Debug, PartialEq, Eq)]
pub struct Credentials {
    pub username: String,
    pub password: String,
}

impl Clone for Credentials {
    fn clone(&self) -> (copy: Self)
        ensures
            copy.username@ == self.username@,
            copy.password@ == self.password@,
    {
        Credentials { username: self.username.clone(), password: self.password.clone() }
    }
}

/// The accounts of a list, as mathematical values.
pub open spec fn profile_views(profiles: Seq<Profile>) -> Seq<ProfileView> {
    Seq::new(profiles.len(), |i: int| profiles[i]@)
}

/// The bytes under which the accounts of a list are stored.
pub open spec fn profile_docs(profiles: Seq<Profile>) -> Seq<Seq<u8>> {
    Seq::new(profiles.len(), |i: int| Profile::spec_encode(profiles[i]@))
}

/// The three collections bear different names.
pub proof fn lemma_collection_names_differ()
    ensures
        PROFILES@ != crate::models::course::COURSES@,
        PROFILES@ != crate::models::topic::TOPICS@,
        crate::models::course::COURSES@ != crate::models::topic::TOPICS@,
{
    reveal_strlit("profiles");
    reveal_strlit("courses");
    reveal_strlit("topics");
    assert(PROFILES@.len() == 8);
    assert(crate::models::course::COURSES@.len() == 7);
    assert(crate::models::topic::TOPICS@.len() == 6);
}

impl Profile {
    /// Whether the store has the account collection and every record in it
    /// holds an account.
    pub open spec fn stored(db: Map<Seq<char>, Seq<Seq<u8>>>) -> bool {
        &&& db.dom().contains(PROFILES@)
        &&& forall|i: int|
            0 <= i < db[PROFILES@].len() ==> (#[trigger] Profile::spec_decode(
                db[PROFILES@][i],
            )) is Some
    }

    /// The accounts in the store, in the order in which they were stored.
    pub open spec fn all(db: Map<Seq<char>, Seq<Seq<u8>>>) -> Seq<ProfileView> {
        Seq::new(db[PROFILES@].len(), |i: int| Profile::spec_decode(db[PROFILES@][i]).unwrap())
    }

    /// The accounts in the store, or `None` where the collection is missing
    /// or a record in it holds no account.
    pub fn try_load(db: &Db) -> (loaded: Option<Vec<Profile>>)
        ensures
            match loaded {
                Some(profiles) => Profile::stored(db@) && profile_views(profiles@) == Profile::all(
                    db@,
                ),
                None => !Profile::stored(db@),
            },
    {
        let docs = match db.get(PROFILES) {
            Some(docs) => docs,
            None => {
                return None;
            },
        };
        let mut profiles: Vec<Profile> = Vec::new();
        let mut i: usize = 0;
        while i < docs.len()
            invariant
                i <= docs@.len(),
                db@.dom().contains(PROFILES@),
                crate::store::docs_view(docs@) == db@[PROFILES@],
                profiles@.len() == i,
                forall|j: int|
                    0 <= j < i ==> Profile::spec_decode(db@[PROFILES@][j]) == Some(
                        (#[trigger] profiles@[j])@,
                    ),
            decreases docs@.len() - i,
        {
            assert(db@[PROFILES@][i as int] == docs@[i as int]@);
            match Profile::decode(docs[i].as_slice()) {
                Some(profile) => {
                    profiles.push(profile);
                },
                None => {
                    return None;
                },
            }
            i += 1;
        }
        proof {
            assert(db@[PROFILES@].len() == docs@.len());
            assert forall|j: int| 0 <= j < db@[PROFILES@].len() implies (
            #[trigger] Profile::spec_decode(db@[PROFILES@][j])) is Some by {
                assert(Profile::spec_decode(db@[PROFILES@][j]) == Some(profiles@[j]@));
            }
            assert(profile_views(profiles@) =~= Profile::all(db@));
        }
        Some(profiles)
    }

    /// The accounts in the store.
    pub fn load(db: &Db) -> (profiles: Vec<Profile>)
        requires
            Profile::stored(db@),
        ensures
            profile_views(profiles@) == Profile::all(db@),
    {
        match Profile::try_load(db) {
            Some(profiles) => profiles,
            None => Vec::new(),
        }
    }

    /// Stores the account after those that are there.
    pub fn append(&self, db: &mut Db)
        requires
            old(db)@.dom().contains(PROFILES@),
        ensures
            final(db)@ == old(db)@.insert(
                PROFILES@,
                old(db)@[PROFILES@].push(Profile::spec_encode(self@)),
            ),
            Profile::stored(old(db)@) ==> Profile::stored(final(db)@) && Profile::all(final(db)@)
                == Profile::all(old(db)@).push(self@),
            same_courses(old(db)@, final(db)@),
            same_topics(old(db)@, final(db)@),
    {
        let bytes = self.encode();
        db.push(PROFILES, bytes);
        proof {
            lemma_write_keeps_others(
                old(db)@,
                PROFILES@,
                old(db)@[PROFILES@].push(Profile::spec_encode(self@)),
            );
            if Profile::stored(old(db)@) {
                assert(Profile::all(db@) =~= Profile::all(old(db)@).push(self@));
            }
        }
    }
}

/// Stores the accounts of the list, in order, after those that are there.
pub fn initialize(db: &mut Db, list: &[Profile])
    requires
        old(db)@.dom().contains(PROFILES@),
    ensures
        final(db)@ == old(db)@.insert(PROFILES@, old(db)@[PROFILES@] + profile_docs(list@)),
        Profile::stored(old(db)@) ==> Profile::stored(final(db)@) && Profile::all(final(db)@)
            == Profile::all(old(db)@) + profile_views(list@),
        same_courses(old(db)@, final(db)@),
        same_topics(old(db)@, final(db)@),
{
    let mut i: usize = 0;
    proof {
        assert(old(db)@[PROFILES@] + profile_docs(list@).take(0) =~= old(db)@[PROFILES@]);
        assert(db@ =~= old(db)@.insert(PROFILES@, old(db)@[PROFILES@]));
        assert(Profile::all(old(db)@) + profile_views(list@).take(0) =~= Profile::all(old(db)@));
    }
    while i < list.len()
        invariant
            i <= list@.len(),
            db@ == old(db)@.insert(
                PROFILES@,
                old(db)@[PROFILES@] + profile_docs(list@).take(i as int),
            ),
            Profile::stored(old(db)@) ==> Profile::stored(db@) && Profile::all(db@) == Profile::all(
                old(db)@,
            ) + profile_views(list@).take(i as int),
            same_courses(old(db)@, db@),
            same_topics(old(db)@, db@),
        decreases list@.len() - i,
    {
        let ghost before = db@;
        list[i].append(db);
        proof {
            assert(profile_docs(list@).take(i as int + 1) =~= profile_docs(list@).take(
                i as int,
            ).push(Profile::spec_encode(list@[i as int]@)));
            assert(profile_views(list@).take(i as int + 1) =~= profile_views(list@).take(
                i as int,
            ).push(list@[i as int]@));
            assert(before[PROFILES@].push(Profile::spec_encode(list@[i as int]@)) =~= old(
                db,
            )@[PROFILES@] + profile_docs(list@).take(i as int + 1));
            assert(db@ =~= old(db)@.insert(
                PROFILES@,
                old(db)@[PROFILES@] + profile_docs(list@).take(i as int + 1),
            ));
            if Profile::stored(old(db)@) {
                assert(Profile::all(db@) =~= Profile::all(old(db)@) + profile_views(list@).take(
                    i as int + 1,
                ));
            }
        }
        i += 1;
    }
    proof {
        assert(profile_docs(list@).take(i as int) =~= profile_docs(list@));
        assert(profile_views(list@).take(i as int) =~= profile_views(list@));
    }
}

/// The place of the first account with the id, if there is one.
pub open spec fn spec_position_by_id(profiles: Seq<ProfileView>, id: u8) -> Option<int> {
    if exists|i: int| is_first_with_id(profiles, id, i) {
        Some(choose|i: int| is_first_with_id(profiles, id, i))
    } else {
        None
    }
}

/// Whether `i` is the place of the first account with the id.
pub open spec fn is_first_with_id(profiles: Seq<ProfileView>, id: u8, i: int) -> bool {
    &&& 0 <= i < profiles.len()
    &&& profiles[i].id == id
    &&& forall|j: int| 0 <= j < i ==> profiles[j].id != id
}

/// The place of the first account with the id, if there is one.
pub fn position_by_id(profiles: &Vec<Profile>, id: u8) -> (at: Option<usize>)
    ensures
        match at {
            Some(i) => spec_position_by_id(profile_views(profiles@), id) == Some(i as int),
            None => spec_position_by_id(profile_views(profiles@), id) is None,
        },
        at matches Some(i) ==> i < profiles@.len(),
{
    let mut i: usize = 0;
    while i < profiles.len()
        invariant
            i <= profiles@.len(),
            forall|j: int| 0 <= j < i ==> profile_views(profiles@)[j].id != id,
        decreases profiles@.len() - i,
    {
        if profiles[i].id == id {
            assert(is_first_with_id(profile_views(profiles@), id, i as int));
            return Some(i);
        }
        i += 1;
    }
    None
}

/// The role of the first account with the id in the store. The error, where
/// there is none, reads `invalid role`.
pub fn get_kind(db: &Db, id: u8) -> (kind: Result<Kind, String>)
    requires
        Profile::stored(db@),
    ensures
        match kind {
            Ok(role) => spec_position_by_id(Profile::all(db@), id) matches Some(i)
                && Profile::all(db@)[i].kind == role,
            Err(message) => spec_position_by_id(Profile::all(db@), id) is None && message@
                == "invalid role"@,
        },
{
    let profiles = Profile::load(db);
    match position_by_id(&profiles, id) {
        Some(i) => Ok(profiles[i].kind),
        None => Err(String::from_str("invalid role")),
    }
}

} // verus!
