//! User profiles: which environment, if any, each user is in.
use vstd::prelude::*;

use crate::environment::{get_environment_info_by_uid, EnvironmentStore};
use crate::interface_types::EnvironmentUID;
use crate::store_types::{EnvironmentInfo, EnvironmentModel};

verus! {

/// The principal bytes that `candid::Principal::from_text` parses out of a
/// text, or `None` where it refuses the text.
pub uninterp spec fn principal_bytes_of_text(text: Seq<char>) -> Option<Seq<u8>>;

/// The text that `candid::Principal::to_text` prints for the principal
/// made of these bytes.
pub uninterp spec fn principal_text_of_bytes(bytes: Seq<u8>) -> Seq<char>;

/// The text with its ASCII capitals turned into small letters, as
/// `str::to_ascii_lowercase` does.
pub open spec fn ascii_lowercase(text: Seq<char>) -> Seq<char> {
    Seq::new(
        text.len(),
        |i: int|
            if 'A' <= text[i] && text[i] <= 'Z' {
                ((text[i] as u32) + 32) as char
            } else {
                text[i]
            },
    )
}

/// Parses a principal with `candid::Principal::from_text` and returns its
/// significant bytes (`as_slice`). Trusted: the result is named
/// `principal_bytes_of_text` of the text; as `from_text` refuses a text
/// whose data part exceeds `Principal::MAX_LENGTH_IN_BYTES`, the bytes are
/// at most 29; and as it refuses a text unless the principal prints
/// (`to_text`) as the text in small letters, the parsed principal prints so.
#[verifier::external_body]
fn parse_principal(text: &str) -> (bytes: Option<Vec<u8>>)
    ensures
        match bytes {
            Some(b) => {
                &&& principal_bytes_of_text(text@) == Some(b@)
                &&& b@.len() <= 29
                &&& principal_text_of_bytes(b@) == ascii_lowercase(text@)
            },
            None => principal_bytes_of_text(text@) is None,
        },
{
    match candid::Principal::from_text(text) {
        Ok(principal) => Some(principal.as_slice().to_vec()),
        Err(_) => None,
    }
}

/// Prints the principal made of `bytes` with `candid::Principal::from_slice`
/// and `to_text`. Trusted: the result is named `principal_text_of_bytes` of
/// the bytes; `from_slice` panics beyond 29 bytes, hence the `requires`.
#[verifier::external_body]
fn principal_text(bytes: &[u8]) -> (text: String)
    requires
        bytes@.len() <= 29,
    ensures
        text@ == principal_text_of_bytes(bytes@),
{
    candid::Principal::from_slice(bytes).to_text()
}

/// A user's profile: the user's principal, as text, and the environment the
/// user is in, if any.
#[derive(Clone, Debug)]
pub struct UserProfile {
    pub user_principal_id: String,
    pub environment_uid: Option<EnvironmentUID>,
}

/// Mathematical model of a profile.
pub struct ProfileModel {
    pub principal_id: Seq<char>,
    pub environment_uid: Option<u32>,
}

impl View for UserProfile {
    type V = ProfileModel;

    open spec fn view(&self) -> ProfileModel {
        ProfileModel {
            principal_id: self.user_principal_id@,
            environment_uid: self.environment_uid,
        }
    }
}

impl UserProfile {
    /// A copy of the profile.
    pub fn copy(&self) -> (r: UserProfile)
        ensures
            r@ == self@,
    {
        UserProfile {
            user_principal_id: self.user_principal_id.clone(),
            environment_uid: self.environment_uid,
        }
    }
}

/// Why a profile request was refused.
#[derive(Debug, Clone, Copy, PartialEq, Eq, Structural)]
pub enum ProfileError {
    /// The text is not a principal.
    InvalidPrincipal,
    /// The user has no profile.
    ProfileNotFound,
    /// The environment is not in the store.
    EnvironmentNotFound,
    /// The user is in no environment.
    NotInEnvironment,
}

/// A profile and the principal it belongs to.
struct ProfileEntry {
    principal: Vec<u8>,
    profile: UserProfile,
}

/// The profiles of the database, keyed by principal bytes; no principal has
/// two. The entries are kept in a list and found by comparing principal
/// bytes; filing replaces the entry of the same principal or appends one.
///
/// A `BTreeMap` keyed by the principal's bytes was tried and gave no proof:
/// vstd specifies `BTreeMap` only for keys that obey its ordering laws,
/// which it establishes for integers and tuples of them but not for
/// `Vec<u8>`; there, not even the size after one `insert` is known.
pub struct ProfileStore {
    entries: Vec<ProfileEntry>,
}

/// Whether `k` is the principal of one of the entries.
spec fn has_principal(entries: Seq<ProfileEntry>, k: Seq<u8>) -> bool {
    exists|i: int| 0 <= i < entries.len() && #[trigger] entries[i].principal@ == k
}

/// The profiles that a list of entries holds, by principal.
spec fn entries_view(entries: Seq<ProfileEntry>) -> Map<Seq<u8>, ProfileModel> {
    Map::new(
        |k: Seq<u8>| has_principal(entries, k),
        |k: Seq<u8>|
            entries[choose|i: int| 0 <= i < entries.len() && #[trigger] entries[i].principal@ == k].profile@,
    )
}

/// No principal has two entries.
spec fn distinct_principals(entries: Seq<ProfileEntry>) -> bool {
    forall|i: int, j: int|
        0 <= i < entries.len() && 0 <= j < entries.len() && i != j ==> #[trigger] entries[i].principal@
            != #[trigger] entries[j].principal@
}

/// In a list without repeated principals, the view finds each entry's profile
/// under its principal.
proof fn lemma_entry_in_view(entries: Seq<ProfileEntry>, i: int)
    requires
        distinct_principals(entries),
        0 <= i < entries.len(),
    ensures
        entries_view(entries).contains_key(entries[i].principal@),
        entries_view(entries)[entries[i].principal@] == entries[i].profile@,
{
    let k = entries[i].principal@;
    assert(has_principal(entries, k));
    let j = choose|j: int| 0 <= j < entries.len() && #[trigger] entries[j].principal@ == k;
    assert(j == i);
}

/// Replacing the profile of entry `i` replaces it in the view.
proof fn lemma_view_update(entries: Seq<ProfileEntry>, i: int, e: ProfileEntry)
    requires
        distinct_principals(entries),
        0 <= i < entries.len(),
        e.principal@ == entries[i].principal@,
    ensures
        distinct_principals(entries.update(i, e)),
        entries_view(entries.update(i, e)) == entries_view(entries).insert(e.principal@, e.profile@),
{
    let new_entries = entries.update(i, e);
    assert forall|a: int, b: int|
        0 <= a < new_entries.len() && 0 <= b < new_entries.len() && a != b implies #[trigger] new_entries[a].principal@
        != #[trigger] new_entries[b].principal@ by {
        assert(entries[a].principal@ != entries[b].principal@);
    }
    let lhs = entries_view(new_entries);
    let rhs = entries_view(entries).insert(e.principal@, e.profile@);
    assert forall|k: Seq<u8>| lhs.contains_key(k) <==> rhs.contains_key(k) by {
        if has_principal(new_entries, k) {
            let j = choose|j: int| 0 <= j < new_entries.len() && #[trigger] new_entries[j].principal@ == k;
            if j != i {
                assert(entries[j].principal@ == k);
            }
        }
        if has_principal(entries, k) {
            let j = choose|j: int| 0 <= j < entries.len() && #[trigger] entries[j].principal@ == k;
            assert(new_entries[j].principal@ == k);
        }
        if k == e.principal@ {
            assert(new_entries[i].principal@ == k);
        }
    }
    assert forall|k: Seq<u8>| #[trigger] lhs.contains_key(k) implies lhs[k] == rhs[k] by {
        let j = choose|j: int| 0 <= j < new_entries.len() && #[trigger] new_entries[j].principal@ == k;
        lemma_entry_in_view(new_entries, j);
        if j != i {
            lemma_entry_in_view(entries, j);
        }
    }
    assert(lhs =~= rhs);
}

/// Appending an entry with a new principal adds it to the view.
proof fn lemma_view_push(entries: Seq<ProfileEntry>, e: ProfileEntry)
    requires
        distinct_principals(entries),
        !has_principal(entries, e.principal@),
    ensures
        distinct_principals(entries.push(e)),
        entries_view(entries.push(e)) == entries_view(entries).insert(e.principal@, e.profile@),
{
    let new_entries = entries.push(e);
    assert forall|a: int, b: int|
        0 <= a < new_entries.len() && 0 <= b < new_entries.len() && a != b implies #[trigger] new_entries[a].principal@
        != #[trigger] new_entries[b].principal@ by {
        if a < entries.len() && b < entries.len() {
            assert(entries[a].principal@ != entries[b].principal@);
        } else if a < entries.len() {
            assert(entries[a].principal@ == new_entries[a].principal@);
        } else {
            assert(entries[b].principal@ == new_entries[b].principal@);
        }
    }
    let lhs = entries_view(new_entries);
    let rhs = entries_view(entries).insert(e.principal@, e.profile@);
    assert forall|k: Seq<u8>| lhs.contains_key(k) <==> rhs.contains_key(k) by {
        if has_principal(new_entries, k) {
            let j = choose|j: int| 0 <= j < new_entries.len() && #[trigger] new_entries[j].principal@ == k;
            if j < entries.len() {
                assert(entries[j].principal@ == k);
            }
        }
        if has_principal(entries, k) {
            let j = choose|j: int| 0 <= j < entries.len() && #[trigger] entries[j].principal@ == k;
            assert(new_entries[j].principal@ == k);
        }
        if k == e.principal@ {
            assert(new_entries[entries.len() as int].principal@ == k);
        }
    }
    assert forall|k: Seq<u8>| #[trigger] lhs.contains_key(k) implies lhs[k] == rhs[k] by {
        let j = choose|j: int| 0 <= j < new_entries.len() && #[trigger] new_entries[j].principal@ == k;
        lemma_entry_in_view(new_entries, j);
        if j < entries.len() {
            lemma_entry_in_view(entries, j);
        }
    }
    assert(lhs =~= rhs);
}

/// Whether two byte strings are equal.
fn bytes_equal(a: &[u8], b: &[u8]) -> (r: bool)
    ensures
        r == (a@ == b@),
{
    if a.len() != b.len() {
        return false;
    }
    let mut i: usize = 0;
    while i < a.len()
        invariant
            a@.len() == b@.len(),
            i <= a@.len(),
            forall|j: int| 0 <= j < i ==> a@[j] == b@[j],
        decreases a@.len() - i,
    {
        if a[i] != b[i] {
            return false;
        }
        i = i + 1;
    }
    assert(a@ =~= b@);
    true
}

impl View for ProfileStore {
    type V = Map<Seq<u8>, ProfileModel>;

    closed spec fn view(&self) -> Map<Seq<u8>, ProfileModel> {
        entries_view(self.entries@)
    }
}

impl ProfileStore {
    #[verifier::type_invariant]
    spec fn no_repeated_principal(self) -> bool {
        distinct_principals(self.entries@)
    }

    /// An empty store.
    pub fn new() -> (store: ProfileStore)
        ensures
            store@ == Map::<Seq<u8>, ProfileModel>::empty(),
    {
        let store = ProfileStore { entries: Vec::new() };
        assert(store@ =~= Map::<Seq<u8>, ProfileModel>::empty());
        store
    }

    /// The position of the entry of `user_principal`, if there is one.
    fn find(&self, user_principal: &[u8]) -> (r: Option<usize>)
        ensures
            match r {
                Some(i) => i < self.entries@.len() && self.entries@[i as int].principal@
                    == user_principal@,
                None => !has_principal(self.entries@, user_principal@),
            },
    {
        let mut i: usize = 0;
        while i < self.entries.len()
            invariant
                i <= self.entries@.len(),
                forall|j: int| 0 <= j < i ==> #[trigger] self.entries@[j].principal@ != user_principal@,
            decreases self.entries@.len() - i,
        {
            if bytes_equal(self.entries[i].principal.as_slice(), user_principal) {
                return Some(i);
            }
            i = i + 1;
        }
        None
    }

    /// A copy of the profile of `user_principal`, or `None` when the user
    /// has none.
    pub fn get_user_profile_if_exists(&self, user_principal: &[u8]) -> (r: Option<UserProfile>)
        ensures
            match r {
                Some(p) => self@.contains_key(user_principal@) && p@ == self@[user_principal@],
                None => !self@.contains_key(user_principal@),
            },
    {
        proof {
            use_type_invariant(self);
        }
        match self.find(user_principal) {
            Some(i) => {
                proof {
                    lemma_entry_in_view(self.entries@, i as int);
                }
                Some(self.entries[i].profile.copy())
            },
            None => None,
        }
    }

    /// Files `profile` under `user_principal`, replacing the one filed there.
    pub fn insert(&mut self, user_principal: Vec<u8>, profile: UserProfile)
        ensures
            final(self)@ == old(self)@.insert(user_principal@, profile@),
    {
        proof {
            use_type_invariant(&*self);
        }
        let ghost old_entries = self.entries@;
        let found = self.find(user_principal.as_slice());
        let entry = ProfileEntry { principal: user_principal, profile };
        let mut entries = Vec::new();
        std::mem::swap(&mut entries, &mut self.entries);
        match found {
            Some(i) => {
                proof {
                    lemma_view_update(old_entries, i as int, entry);
                }
                entries.set(i, entry);
            },
            None => {
                proof {
                    lemma_view_push(old_entries, entry);
                }
                entries.push(entry);
            },
        }
        self.entries = entries;
    }
}

} // verus!

verus! {

/// What setting a user's environment owes: refused when the user has no
/// profile, then when the environment does not exist, with the profiles
/// unchanged; otherwise the environment is returned and the user's profile
/// now names it.
pub open spec fn set_user_effect(
    before: Map<Seq<u8>, ProfileModel>,
    environments: Map<u32, EnvironmentModel>,
    user: Seq<u8>,
    env_uid: u32,
    result: Result<EnvironmentInfo, ProfileError>,
    after: Map<Seq<u8>, ProfileModel>,
) -> bool {
    if !before.contains_key(user) {
        result == Err::<EnvironmentInfo, ProfileError>(ProfileError::ProfileNotFound) && after == before
    } else if !environments.contains_key(env_uid) {
        result == Err::<EnvironmentInfo, ProfileError>(ProfileError::EnvironmentNotFound) && after
            == before
    } else {
        &&& result matches Ok(info) && info@ == environments[env_uid]
        &&& after == before.insert(
            user,
            ProfileModel { environment_uid: Some(env_uid), ..before[user] },
        )
    }
}

/// What taking a user out of its environment owes: refused when the user
/// has no profile, then when the profile names no environment, then when
/// the environment it names does not exist, with the profiles unchanged;
/// otherwise that environment is returned and the profile names none.
pub open spec fn reset_user_effect(
    before: Map<Seq<u8>, ProfileModel>,
    environments: Map<u32, EnvironmentModel>,
    user: Seq<u8>,
    result: Result<EnvironmentInfo, ProfileError>,
    after: Map<Seq<u8>, ProfileModel>,
) -> bool {
    if !before.contains_key(user) {
        result == Err::<EnvironmentInfo, ProfileError>(ProfileError::ProfileNotFound) && after == before
    } else if before[user].environment_uid is None {
        result == Err::<EnvironmentInfo, ProfileError>(ProfileError::NotInEnvironment) && after
            == before
    } else if !environments.contains_key(before[user].environment_uid->0) {
        result == Err::<EnvironmentInfo, ProfileError>(ProfileError::EnvironmentNotFound) && after
            == before
    } else {
        &&& result matches Ok(info) && info@ == environments[before[user].environment_uid->0]
        &&& after == before.insert(user, ProfileModel { environment_uid: None, ..before[user] })
    }
}

/// What reading a user's profile owes: the profile the user has, the store
/// unchanged; or, for a user without one, a new profile in no environment,
/// named by the principal's text, which is filed.
pub open spec fn get_profile_effect(
    before: Map<Seq<u8>, ProfileModel>,
    user: Seq<u8>,
    result: ProfileModel,
    after: Map<Seq<u8>, ProfileModel>,
) -> bool {
    if before.contains_key(user) {
        result == before[user] && after == before
    } else {
        &&& result == ProfileModel {
            principal_id: principal_text_of_bytes(user),
            environment_uid: None,
        }
        &&& after == before.insert(user, result)
    }
}

/// The refusal owed to a request to put the user written `text` in the
/// environment `env_uid`, if any: the text is not a principal, the user has
/// no profile, or the environment does not exist.
pub open spec fn set_user_refusal(
    profiles: Map<Seq<u8>, ProfileModel>,
    environments: Map<u32, EnvironmentModel>,
    text: Seq<char>,
    env_uid: u32,
) -> Option<ProfileError> {
    match principal_bytes_of_text(text) {
        None => Some(ProfileError::InvalidPrincipal),
        Some(user) => if !profiles.contains_key(user) {
            Some(ProfileError::ProfileNotFound)
        } else if !environments.contains_key(env_uid) {
            Some(ProfileError::EnvironmentNotFound)
        } else {
            None
        },
    }
}

/// The refusal owed to a request to take the user written `text` out of its
/// environment, if any: the text is not a principal, the user has no
/// profile or is in no environment, or that environment does not exist.
pub open spec fn reset_user_refusal(
    profiles: Map<Seq<u8>, ProfileModel>,
    environments: Map<u32, EnvironmentModel>,
    text: Seq<char>,
) -> Option<ProfileError> {
    match principal_bytes_of_text(text) {
        None => Some(ProfileError::InvalidPrincipal),
        Some(user) => if !profiles.contains_key(user) {
            Some(ProfileError::ProfileNotFound)
        } else if profiles[user].environment_uid is None {
            Some(ProfileError::NotInEnvironment)
        } else if !environments.contains_key(profiles[user].environment_uid->0) {
            Some(ProfileError::EnvironmentNotFound)
        } else {
            None
        },
    }
}

/// Puts the user with principal bytes `user_principal`, who has a profile,
/// in the environment `env_uid`, which exists, and returns that environment.
pub fn set_profile_environment(
    profiles: &mut ProfileStore,
    environments: &EnvironmentStore,
    user_principal: Vec<u8>,
    env_uid: EnvironmentUID,
) -> (result: EnvironmentInfo)
    requires
        old(profiles)@.contains_key(user_principal@),
        environments@.contains_key(env_uid),
    ensures
        set_user_effect(old(profiles)@, environments@, user_principal@, env_uid, Ok(result), final(profiles)@),
{
    match profiles.get_user_profile_if_exists(user_principal.as_slice()) {
        Some(user_profile) => {
            match get_environment_info_by_uid(environments, &env_uid) {
                Some(environment_info) => {
                    let updated_user_profile = UserProfile {
                        environment_uid: Some(env_uid),
                        ..user_profile
                    };
                    profiles.insert(user_principal, updated_user_profile);
                    environment_info
                },
                None => unreached(),
            }
        },
        None => unreached(),
    }
}

/// Takes the user with principal bytes `user_principal`, who has a profile
/// naming an environment that exists, out of that environment and returns
/// the environment.
pub fn reset_profile_environment(
    profiles: &mut ProfileStore,
    environments: &EnvironmentStore,
    user_principal: Vec<u8>,
) -> (result: EnvironmentInfo)
    requires
        old(profiles)@.contains_key(user_principal@),
        old(profiles)@[user_principal@].environment_uid is Some,
        environments@.contains_key(old(profiles)@[user_principal@].environment_uid->0),
    ensures
        reset_user_effect(old(profiles)@, environments@, user_principal@, Ok(result), final(profiles)@),
{
    match profiles.get_user_profile_if_exists(user_principal.as_slice()) {
        Some(user_profile) => {
            match user_profile.environment_uid {
                Some(old_environment_uid) => {
                    match get_environment_info_by_uid(environments, &old_environment_uid) {
                        Some(environment_info) => {
                            let updated_user_profile = UserProfile {
                                environment_uid: None,
                                ..user_profile
                            };
                            profiles.insert(user_principal, updated_user_profile);
                            environment_info
                        },
                        None => unreached(),
                    }
                },
                None => unreached(),
            }
        },
        None => unreached(),
    }
}

/// Returns the profile of the user with principal bytes `user_principal`,
/// creating and filing one in no environment, named by the principal's
/// text, when the user has none.
pub fn get_or_create_profile(profiles: &mut ProfileStore, user_principal: Vec<u8>) -> (result: UserProfile)
    requires
        user_principal@.len() <= 29,
    ensures
        get_profile_effect(old(profiles)@, user_principal@, result@, final(profiles)@),
{
    match profiles.get_user_profile_if_exists(user_principal.as_slice()) {
        Some(user_profile) => user_profile,
        None => {
            let new_user_profile = UserProfile {
                user_principal_id: principal_text(user_principal.as_slice()),
                environment_uid: None,
            };
            profiles.insert(user_principal, new_user_profile.copy());
            new_user_profile
        },
    }
}

/// The principal bytes of the user written `user_principal_id`, or `None`
/// when the text is not a principal.
pub fn user_principal_bytes(user_principal_id: &str) -> (bytes: Option<Vec<u8>>)
    ensures
        match bytes {
            Some(b) => {
                &&& principal_bytes_of_text(user_principal_id@) == Some(b@)
                &&& b@.len() <= 29
                &&& principal_text_of_bytes(b@) == ascii_lowercase(user_principal_id@)
            },
            None => principal_bytes_of_text(user_principal_id@) is None,
        },
{
    parse_principal(user_principal_id)
}

/// Puts the user whose principal is written `user_principal_id` in the
/// environment `env_uid` and returns that environment. The text must be a
/// principal, the user must have a profile and the environment must exist.
pub fn set_user_in_environment(
    profiles: &mut ProfileStore,
    environments: &EnvironmentStore,
    user_principal_id: String,
    env_uid: EnvironmentUID,
) -> (result: EnvironmentInfo)
    requires
        set_user_refusal(old(profiles)@, environments@, user_principal_id@, env_uid) is None,
    ensures
        set_user_effect(
            old(profiles)@,
            environments@,
            principal_bytes_of_text(user_principal_id@)->0,
            env_uid,
            Ok(result),
            final(profiles)@,
        ),
{
    match parse_principal(user_principal_id.as_str()) {
        Some(user_principal) => set_profile_environment(profiles, environments, user_principal, env_uid),
        None => unreached(),
    }
}

/// Takes the user whose principal is written `user_principal_id` out of its
/// environment and returns that environment. The text must be a principal,
/// the user must have a profile naming an environment, and that
/// environment must exist.
pub fn reset_user_from_environment(
    profiles: &mut ProfileStore,
    environments: &EnvironmentStore,
    user_principal_id: String,
) -> (result: EnvironmentInfo)
    requires
        reset_user_refusal(old(profiles)@, environments@, user_principal_id@) is None,
    ensures
        reset_user_effect(
            old(profiles)@,
            environments@,
            principal_bytes_of_text(user_principal_id@)->0,
            Ok(result),
            final(profiles)@,
        ),
{
    match parse_principal(user_principal_id.as_str()) {
        Some(user_principal) => reset_profile_environment(profiles, environments, user_principal),
        None => unreached(),
    }
}

/// Returns the profile of the user whose principal is written
/// `user_principal_id`, which must be a principal, creating one in no
/// environment, named by the principal's text in small letters, when the
/// user has none.
pub fn get_user_profile(profiles: &mut ProfileStore, user_principal_id: String) -> (result: UserProfile)
    requires
        principal_bytes_of_text(user_principal_id@) is Some,
    ensures
        get_profile_effect(
            old(profiles)@,
            principal_bytes_of_text(user_principal_id@)->0,
            result@,
            final(profiles)@,
        ),
        principal_text_of_bytes(principal_bytes_of_text(user_principal_id@)->0) == ascii_lowercase(
            user_principal_id@,
        ),
{
    match parse_principal(user_principal_id.as_str()) {
        Some(user_principal) => get_or_create_profile(profiles, user_principal),
        None => unreached(),
    }
}

/// Puts the user written `user_principal_id` in the environment `env_uid`
/// where `set_user_in_environment` admits the request; otherwise refuses it
/// with the reason, the profiles unchanged.
pub fn try_set_user_in_environment(
    profiles: &mut ProfileStore,
    environments: &EnvironmentStore,
    user_principal_id: String,
    env_uid: EnvironmentUID,
) -> (result: Result<EnvironmentInfo, ProfileError>)
    ensures
        match set_user_refusal(old(profiles)@, environments@, user_principal_id@, env_uid) {
            Some(e) => result == Err::<EnvironmentInfo, ProfileError>(e) && final(profiles)@ == old(
                profiles,
            )@,
            None => set_user_effect(
                old(profiles)@,
                environments@,
                principal_bytes_of_text(user_principal_id@)->0,
                env_uid,
                result,
                final(profiles)@,
            ),
        },
{
    match parse_principal(user_principal_id.as_str()) {
        None => Err(ProfileError::InvalidPrincipal),
        Some(user_principal) => {
            if profiles.get_user_profile_if_exists(user_principal.as_slice()).is_none() {
                Err(ProfileError::ProfileNotFound)
            } else if get_environment_info_by_uid(environments, &env_uid).is_none() {
                Err(ProfileError::EnvironmentNotFound)
            } else {
                Ok(set_user_in_environment(profiles, environments, user_principal_id, env_uid))
            }
        },
    }
}

/// Takes the user written `user_principal_id` out of its environment where
/// `reset_user_from_environment` admits the request; otherwise refuses it
/// with the reason, the profiles unchanged.
pub fn try_reset_user_from_environment(
    profiles: &mut ProfileStore,
    environments: &EnvironmentStore,
    user_principal_id: String,
) -> (result: Result<EnvironmentInfo, ProfileError>)
    ensures
        match reset_user_refusal(old(profiles)@, environments@, user_principal_id@) {
            Some(e) => result == Err::<EnvironmentInfo, ProfileError>(e) && final(profiles)@ == old(
                profiles,
            )@,
            None => reset_user_effect(
                old(profiles)@,
                environments@,
                principal_bytes_of_text(user_principal_id@)->0,
                result,
                final(profiles)@,
            ),
        },
{
    match parse_principal(user_principal_id.as_str()) {
        None => Err(ProfileError::InvalidPrincipal),
        Some(user_principal) => match profiles.get_user_profile_if_exists(user_principal.as_slice()) {
            None => Err(ProfileError::ProfileNotFound),
            Some(user_profile) => match user_profile.environment_uid {
                None => Err(ProfileError::NotInEnvironment),
                Some(env_uid) => {
                    if get_environment_info_by_uid(environments, &env_uid).is_none() {
                        Err(ProfileError::EnvironmentNotFound)
                    } else {
                        Ok(reset_user_from_environment(profiles, environments, user_principal_id))
                    }
                },
            },
        },
    }
}

/// Returns the profile of the user written `user_principal_id`, as
/// `get_user_profile` does, or refuses a text that is not a principal, the
/// profiles unchanged.
pub fn try_get_user_profile(profiles: &mut ProfileStore, user_principal_id: String) -> (result: Result<
    UserProfile,
    ProfileError,
>)
    ensures
        match principal_bytes_of_text(user_principal_id@) {
            None => result == Err::<UserProfile, ProfileError>(ProfileError::InvalidPrincipal)
                && final(profiles)@ == old(profiles)@,
            Some(user) => result matches Ok(p) && get_profile_effect(
                old(profiles)@,
                user,
                p@,
                final(profiles)@,
            ) && principal_text_of_bytes(user) == ascii_lowercase(user_principal_id@),
        },
{
    match parse_principal(user_principal_id.as_str()) {
        None => Err(ProfileError::InvalidPrincipal),
        Some(_) => Ok(get_user_profile(profiles, user_principal_id)),
    }
}

} // verus!

verus! {

/// Reading a profile twice gives the same profile, and the second read
/// leaves the profiles as the first left them.
pub proof fn lemma_profile_read_is_stable(
    before: Map<Seq<u8>, ProfileModel>,
    user: Seq<u8>,
    first: ProfileModel,
    middle: Map<Seq<u8>, ProfileModel>,
    second: ProfileModel,
    after: Map<Seq<u8>, ProfileModel>,
)
    requires
        get_profile_effect(before, user, first, middle),
        get_profile_effect(middle, user, second, after),
    ensures
        second == first,
        after == middle,
        middle.contains_key(user),
{
}

/// Putting a user in an environment and then taking it out again gives back
/// that environment, and leaves the user's profile in no environment, the
/// rest as it was before.
pub proof fn lemma_set_then_reset(
    before: Map<Seq<u8>, ProfileModel>,
    environments: Map<u32, EnvironmentModel>,
    user: Seq<u8>,
    env_uid: u32,
    set_result: Result<EnvironmentInfo, ProfileError>,
    middle: Map<Seq<u8>, ProfileModel>,
    reset_result: Result<EnvironmentInfo, ProfileError>,
    after: Map<Seq<u8>, ProfileModel>,
)
    requires
        set_user_effect(before, environments, user, env_uid, set_result, middle),
        set_result is Ok,
        reset_user_effect(middle, environments, user, reset_result, after),
    ensures
        reset_result matches Ok(info) && info@ == environments[env_uid],
        after == before.insert(user, ProfileModel { environment_uid: None, ..before[user] }),
{
    assert(after =~= before.insert(user, ProfileModel { environment_uid: None, ..before[user] }));
}

/// Putting a user in an environment, or taking it out, changes no other
/// user's profile, and keeps the user's principal text.
pub proof fn lemma_environment_changes_touch_one_user(
    before: Map<Seq<u8>, ProfileModel>,
    environments: Map<u32, EnvironmentModel>,
    user: Seq<u8>,
    env_uid: u32,
    result: Result<EnvironmentInfo, ProfileError>,
    after: Map<Seq<u8>, ProfileModel>,
    other: Seq<u8>,
)
    requires
        set_user_effect(before, environments, user, env_uid, result, after) || reset_user_effect(
            before,
            environments,
            user,
            result,
            after,
        ),
        other != user,
    ensures
        after.contains_key(other) == before.contains_key(other),
        before.contains_key(other) ==> after[other] == before[other],
        after.contains_key(user) == before.contains_key(user),
        before.contains_key(user) ==> after[user].principal_id == before[user].principal_id,
{
}

} // verus!

verus! {

/// A profile store holds finitely many profiles.
pub proof fn lemma_profile_store_finite(store: &ProfileStore)
    ensures
        store@.dom().finite(),
{
    let keys = store.entries@.map_values(|e: ProfileEntry| e.principal@);
    assert(store@.dom() =~= keys.to_set()) by {
        assert forall|k: Seq<u8>| store@.dom().contains(k) implies keys.to_set().contains(k) by {
            let i = choose|i: int| 0 <= i < store.entries@.len() && #[trigger] store.entries@[i].principal@ == k;
            assert(keys[i] == k);
        }
        assert forall|k: Seq<u8>| keys.to_set().contains(k) implies store@.dom().contains(k) by {
            let i = choose|i: int| 0 <= i < keys.len() && keys[i] == k;
            assert(store.entries@[i].principal@ == k);
            assert(has_principal(store.entries@, k));
        }
    }
    vstd::seq_lib::seq_to_set_is_finite(keys);
}

} // verus!

verus! {

/// A set for a user with a profile, into an environment that exists,
/// succeeds and returns the environment filed under the requested uid,
/// whatever environment the profile named before; afterwards the profile
/// names that uid, keeps its principal text, and every other profile is
/// unchanged.
pub proof fn lemma_set_returns_requested_environment(
    before: Map<Seq<u8>, ProfileModel>,
    environments: Map<u32, EnvironmentModel>,
    user: Seq<u8>,
    env_uid: u32,
    result: Result<EnvironmentInfo, ProfileError>,
    after: Map<Seq<u8>, ProfileModel>,
)
    requires
        set_user_effect(before, environments, user, env_uid, result, after),
        before.contains_key(user),
        environments.contains_key(env_uid),
    ensures
        result matches Ok(info) && info@ == environments[env_uid],
        after.contains_key(user),
        after[user].environment_uid == Some(env_uid),
        after[user].principal_id == before[user].principal_id,
        after.dom() == before.dom(),
        forall|other: Seq<u8>|
            other != user && #[trigger] before.contains_key(other) ==> after[other] == before[other],
{
    assert(after.dom() =~= before.dom());
}

/// A reset for a user whose profile names an environment that exists
/// succeeds and returns that environment; afterwards the profile names no
/// environment, keeps its principal text, and every other profile is
/// unchanged.
pub proof fn lemma_reset_returns_previous_environment(
    before: Map<Seq<u8>, ProfileModel>,
    environments: Map<u32, EnvironmentModel>,
    user: Seq<u8>,
    result: Result<EnvironmentInfo, ProfileError>,
    after: Map<Seq<u8>, ProfileModel>,
)
    requires
        reset_user_effect(before, environments, user, result, after),
        before.contains_key(user),
        before[user].environment_uid is Some,
        environments.contains_key(before[user].environment_uid->0),
    ensures
        result matches Ok(info) && info@ == environments[before[user].environment_uid->0],
        after.contains_key(user),
        after[user].environment_uid is None,
        after[user].principal_id == before[user].principal_id,
        after.dom() == before.dom(),
        forall|other: Seq<u8>|
            other != user && #[trigger] before.contains_key(other) ==> after[other] == before[other],
{
    assert(after.dom() =~= before.dom());
}

/// A set is refused exactly when the text is not a principal, the user has
/// no profile, or the environment does not exist, and for that reason; it
/// is never refused as `NotInEnvironment`.
pub proof fn lemma_set_refusal_reasons(
    profiles: Map<Seq<u8>, ProfileModel>,
    environments: Map<u32, EnvironmentModel>,
    text: Seq<char>,
    env_uid: u32,
)
    ensures
        (set_user_refusal(profiles, environments, text, env_uid) is None) <==> (principal_bytes_of_text(text)
            matches Some(u) && profiles.contains_key(u) && environments.contains_key(env_uid)),
        (set_user_refusal(profiles, environments, text, env_uid) == Some(ProfileError::InvalidPrincipal))
            <==> principal_bytes_of_text(text) is None,
        (set_user_refusal(profiles, environments, text, env_uid) == Some(ProfileError::ProfileNotFound))
            <==> (principal_bytes_of_text(text) matches Some(u) && !profiles.contains_key(u)),
        set_user_refusal(profiles, environments, text, env_uid) != Some(ProfileError::NotInEnvironment),
{
}

/// A reset is refused exactly when the text is not a principal, the user
/// has no profile, the profile names no environment, or that environment
/// does not exist, and for that reason.
pub proof fn lemma_reset_refusal_reasons(
    profiles: Map<Seq<u8>, ProfileModel>,
    environments: Map<u32, EnvironmentModel>,
    text: Seq<char>,
)
    ensures
        (reset_user_refusal(profiles, environments, text) is None) <==> (principal_bytes_of_text(text)
            matches Some(u) && profiles.contains_key(u) && (profiles[u].environment_uid matches Some(e)
            && environments.contains_key(e))),
        (reset_user_refusal(profiles, environments, text) == Some(ProfileError::InvalidPrincipal))
            <==> principal_bytes_of_text(text) is None,
        (reset_user_refusal(profiles, environments, text) == Some(ProfileError::ProfileNotFound))
            <==> (principal_bytes_of_text(text) matches Some(u) && !profiles.contains_key(u)),
        (reset_user_refusal(profiles, environments, text) == Some(ProfileError::NotInEnvironment))
            <==> (principal_bytes_of_text(text) matches Some(u) && profiles.contains_key(u)
            && profiles[u].environment_uid is None),
{
}

} // verus!
