//! The user directory and its time-bounded cache.
//!
//! The directory maps a user id to the user's record. The cache holds one
//! directory together with the instant of its last refresh; it is replaced
//! as a whole, never in part. Instants are milliseconds on a clock that
//! does not run backwards.

use crate::types::{User, UserView};
use vstd::prelude::*;

verus! {

/// How long a refreshed cache stays fresh, in milliseconds.
pub const USER_CACHE_TTL_MS: u64 = 600_000;

/// The records of a list of users by id. Of two records with the same id
/// the later one counts.
pub open spec fn directory_map(users: Seq<User>) -> Map<Seq<char>, UserView>
    decreases users.len(),
{
    if users.len() == 0 {
        Map::empty()
    } else {
        directory_map(users.drop_last()).insert(users.last().id@, users.last()@)
    }
}

/// The name under which the user `id` is shown: the display name of the
/// user's record, and the bare id where the directory has no record.
pub open spec fn shown_name_in(directory: Map<Seq<char>, UserView>, id: Seq<char>) -> Seq<char> {
    if directory.contains_key(id) {
        directory[id].shown_name()
    } else {
        id
    }
}

/// The record at index `k` is the one that counts for `id` where no later
/// record has that id; where no record has it, the map has no entry.
pub proof fn lemma_directory_lookup(users: Seq<User>, id: Seq<char>, k: int)
    requires
        -1 <= k < users.len(),
        k >= 0 ==> users[k].id@ == id,
        forall|j: int| k < j < users.len() ==> users[j].id@ != id,
    ensures
        k >= 0 ==> directory_map(users).contains_key(id) && directory_map(users)[id] == users[k]@,
        k < 0 ==> !directory_map(users).contains_key(id),
    decreases users.len(),
{
    if users.len() > 0 {
        if k == users.len() - 1 {
        } else {
            let front = users.drop_last();
            assert forall|j: int| k < j < front.len() implies front[j].id@ != id by {
                assert(front[j] == users[j]);
            }
            lemma_directory_lookup(front, id, k);
        }
    }
}

/// A directory of users by id.
#[derive(Debug)]
pub struct UserDirectory {
    pub users: Vec<User>,
}

impl View for UserDirectory {
    type V = Map<Seq<char>, UserView>;

    open spec fn view(&self) -> Map<Seq<char>, UserView> {
        directory_map(self.users@)
    }
}

impl UserDirectory {
    /// The directory without any user.
    pub fn new() -> (r: UserDirectory)
        ensures
            r@ == Map::<Seq<char>, UserView>::empty(),
    {
        UserDirectory { users: Vec::new() }
    }

    /// The directory of the given users.
    pub fn from_users(users: Vec<User>) -> (r: UserDirectory)
        ensures
            r@ == directory_map(users@),
            r.users == users,
    {
        UserDirectory { users }
    }

    /// The record of the user `id`.
    pub fn get(&self, id: &str) -> (r: Option<&User>)
        ensures
            match r {
                Some(user) => self@.contains_key(id@) && self@[id@] == user@,
                None => !self@.contains_key(id@),
            },
    {
        let wanted = id.to_owned();
        let mut i: usize = self.users.len();
        while i > 0
            invariant
                i <= self.users.len(),
                wanted@ == id@,
                forall|j: int| i <= j < self.users.len() ==> self.users@[j].id@ != id@,
            decreases i,
        {
            i -= 1;
            if self.users[i].id == wanted {
                proof {
                    lemma_directory_lookup(self.users@, id@, i as int);
                }
                return Some(&self.users[i]);
            }
        }
        proof {
            lemma_directory_lookup(self.users@, id@, -1);
        }
        None
    }

    /// The name under which the user `id` is shown.
    pub fn resolve_username(&self, id: &str) -> (r: String)
        ensures
            r@ == shown_name_in(self@, id@),
    {
        match self.get(id) {
            Some(user) => user.display_name(),
            None => id.to_owned(),
        }
    }
}

/// What a reader of the cache does next.
#[derive(Clone, Copy, Debug, PartialEq, Eq)]
pub enum CachePlan {
    /// The cache is fresh: serve from it.
    Serve,
    /// The cache is stale or was never filled: refresh it first.
    Refresh,
}

/// What a reader that resolves one user id does next.
#[derive(Debug)]
pub enum ResolvePlan {
    /// The cache knows the user: this is the name to show.
    Known(String),
    /// The cache does not know the user and is due for a refresh.
    Refresh,
    /// The cache does not know the user and is fresh: show the bare id.
    Unknown,
}

/// The cached directory and the instant of its last refresh.
#[derive(Debug)]
pub struct UserCache {
    pub directory: UserDirectory,
    pub updated_at: Option<u64>,
}

impl UserCache {
    /// The cache was refreshed less than the time-to-live before `now`.
    pub open spec fn is_fresh(self, now: u64) -> bool {
        match self.updated_at {
            Some(at) => now < at + USER_CACHE_TTL_MS,
            None => false,
        }
    }

    /// The cache after a refresh at `now` that brought `users`.
    pub open spec fn refreshed(self, users: Vec<User>, now: u64) -> UserCache {
        UserCache { directory: UserDirectory { users }, updated_at: Some(now) }
    }

    /// The empty cache that was never filled.
    pub fn new() -> (r: UserCache)
        ensures
            r.updated_at is None,
            r.directory@ == Map::<Seq<char>, UserView>::empty(),
    {
        UserCache { directory: UserDirectory::new(), updated_at: None }
    }

    /// Whether a reader at `now` has to refresh the cache before it serves.
    pub fn should_refresh(&self, now: u64) -> (r: bool)
        ensures
            r == !self.is_fresh(now),
    {
        match self.updated_at {
            Some(at) => now >= at && now - at >= USER_CACHE_TTL_MS,
            None => true,
        }
    }

    /// What a reader at `now` does next. A reader that is told to refresh
    /// takes the write lock, asks again, and refreshes only if it is told
    /// so a second time.
    pub fn plan(&self, now: u64) -> (r: CachePlan)
        ensures
            r == if self.is_fresh(now) {
                CachePlan::Serve
            } else {
                CachePlan::Refresh
            },
    {
        if self.should_refresh(now) {
            CachePlan::Refresh
        } else {
            CachePlan::Serve
        }
    }

    /// What a reader at `now` that wants the name of user `id` does next.
    /// A user that the cache knows is served even from a stale cache.
    pub fn resolve_plan(&self, id: &str, now: u64) -> (r: ResolvePlan)
        ensures
            match r {
                ResolvePlan::Known(name) => self.directory@.contains_key(id@) && name@
                    == shown_name_in(self.directory@, id@),
                ResolvePlan::Refresh => !self.directory@.contains_key(id@) && !self.is_fresh(now),
                ResolvePlan::Unknown => !self.directory@.contains_key(id@) && self.is_fresh(now),
            },
    {
        match self.directory.get(id) {
            Some(user) => ResolvePlan::Known(user.display_name()),
            None => if self.should_refresh(now) {
                ResolvePlan::Refresh
            } else {
                ResolvePlan::Unknown
            },
        }
    }

    /// Ends a refresh that was started at `now`. A refresh that brought
    /// users replaces the whole directory and makes the cache fresh; one
    /// that failed leaves the cache as it was.
    pub fn refresh(&mut self, outcome: Option<Vec<User>>, now: u64)
        ensures
            match outcome {
                Some(users) => *final(self) == old(self).refreshed(users, now),
                None => *final(self) == *old(self),
            },
    {
        match outcome {
            Some(users) => {
                self.directory = UserDirectory::from_users(users);
                self.updated_at = Some(now);
            },
            None => {},
        }
    }

    /// Forgets when the cache was refreshed, so that the next reader
    /// refreshes it. The directory is kept for readers that fall back to it.
    pub fn invalidate(&mut self)
        ensures
            final(self).updated_at is None,
            final(self).directory == old(self).directory,
    {
        self.updated_at = None;
    }

    /// The record of the user `id` in the cached directory.
    pub fn get(&self, id: &str) -> (r: Option<&User>)
        ensures
            match r {
                Some(user) => self.directory@.contains_key(id@) && self.directory@[id@] == user@,
                None => !self.directory@.contains_key(id@),
            },
    {
        self.directory.get(id)
    }

    /// The name under which the user `id` is shown, from the cached
    /// directory.
    pub fn resolve_username(&self, id: &str) -> (r: String)
        ensures
            r@ == shown_name_in(self.directory@, id@),
    {
        self.directory.resolve_username(id)
    }
}

/// After a refresh that succeeded at `at`, every reader that asks within
/// the time-to-live is served from the cache: of two readers that find the
/// cache stale and take the write lock in turn, only the first refreshes.
pub proof fn lemma_single_refresh(cache: UserCache, users: Vec<User>, at: u64, now: u64)
    requires
        at <= now < at + USER_CACHE_TTL_MS,
    ensures
        cache.refreshed(users, at).is_fresh(now),
        cache.refreshed(users, at).directory@ == directory_map(users@),
{
}

/// A cache never becomes fresh by itself: once stale at `earlier` it is
/// stale at every later instant until it is refreshed.
pub proof fn lemma_stale_stays_stale(cache: UserCache, earlier: u64, later: u64)
    requires
        earlier <= later,
        !cache.is_fresh(earlier),
    ensures
        !cache.is_fresh(later),
{
}

/// How often the service is asked for the users when readers come to the
/// cache at the instants `times`, one after the other under the write
/// lock, and every refresh succeeds with `users`: a reader that finds the
/// cache stale refreshes it, a reader that finds it fresh does not.
pub open spec fn refresh_calls(cache: UserCache, times: Seq<u64>, users: Vec<User>) -> nat
    decreases times.len(),
{
    if times.len() == 0 {
        0
    } else if cache.is_fresh(times[0]) {
        refresh_calls(cache, times.skip(1), users)
    } else {
        1 + refresh_calls(cache.refreshed(users, times[0]), times.skip(1), users)
    }
}

/// Readers that all find the cache fresh never ask the service.
pub proof fn lemma_fresh_cache_serves(cache: UserCache, times: Seq<u64>, users: Vec<User>)
    requires
        forall|i: int| 0 <= i < times.len() ==> cache.is_fresh(#[trigger] times[i]),
    ensures
        refresh_calls(cache, times, users) == 0,
    decreases times.len(),
{
    if times.len() > 0 {
        assert(cache.is_fresh(times[0]));
        assert forall|i: int| 0 <= i < times.skip(1).len() implies cache.is_fresh(
            #[trigger] times.skip(1)[i],
        ) by {
            assert(times.skip(1)[i] == times[i + 1]);
        }
        lemma_fresh_cache_serves(cache, times.skip(1), users);
    }
}

/// Readers that come within one time-to-live of an instant `start`, and
/// not before it, ask the service at most once between them: the first
/// that finds the cache stale refreshes it, and every later one finds it
/// fresh.
pub proof fn lemma_at_most_one_refresh(
    cache: UserCache,
    times: Seq<u64>,
    users: Vec<User>,
    start: u64,
)
    requires
        forall|i: int|
            0 <= i < times.len() ==> start <= #[trigger] times[i] < start + USER_CACHE_TTL_MS,
    ensures
        refresh_calls(cache, times, users) <= 1,
    decreases times.len(),
{
    if times.len() > 0 {
        let rest = times.skip(1);
        assert(start <= times[0] < start + USER_CACHE_TTL_MS);
        assert forall|i: int| 0 <= i < rest.len() implies start <= #[trigger] rest[i] < start
            + USER_CACHE_TTL_MS by {
            assert(rest[i] == times[i + 1]);
        }
        if cache.is_fresh(times[0]) {
            lemma_at_most_one_refresh(cache, rest, users, start);
        } else {
            let fresh = cache.refreshed(users, times[0]);
            assert forall|i: int| 0 <= i < rest.len() implies fresh.is_fresh(
                #[trigger] rest[i],
            ) by {
                assert(start <= rest[i] < start + USER_CACHE_TTL_MS);
            }
            lemma_fresh_cache_serves(fresh, rest, users);
        }
    }
}

} // verus!
