//! The media-proxy paths that external activity images were registered
//! under, per application. Only registrations that succeeded are kept, so a
//! failed one is tried again next time.
use vstd::prelude::*;

use crate::text::str_eq;

verus! {

/// Registered image paths, by application id and image address.
pub struct ExternalAssetCache {
    entries: Vec<(String, String, String)>,
}

pub open spec fn entry_view(e: (String, String, String)) -> ((Seq<char>, Seq<char>), Seq<char>) {
    ((e.0@, e.1@), e.2@)
}

/// The path of the first entry for a key among the first `n`.
pub open spec fn first_path(entries: Seq<(String, String, String)>, key: (Seq<char>, Seq<char>), n: int) -> Option<
    Seq<char>,
>
    decreases n,
{
    if n <= 0 {
        None
    } else {
        match first_path(entries, key, n - 1) {
            Some(p) => Some(p),
            None => if (entries[n - 1].0@, entries[n - 1].1@) == key {
                Some(entries[n - 1].2@)
            } else {
                None
            },
        }
    }
}

impl ExternalAssetCache {
    /// The cache as a map from (application id, image address) to path.
    pub closed spec fn view(&self) -> Map<(Seq<char>, Seq<char>), Seq<char>> {
        Map::new(
            |k: (Seq<char>, Seq<char>)| first_path(self.entries@, k, self.entries@.len() as int) is Some,
            |k: (Seq<char>, Seq<char>)| first_path(self.entries@, k, self.entries@.len() as int).unwrap(),
        )
    }

    pub fn new() -> (r: Self)
        ensures
            r.view() == Map::<(Seq<char>, Seq<char>), Seq<char>>::empty(),
    {
        let r = ExternalAssetCache { entries: Vec::new() };
        proof {
            assert(r.view() =~= Map::<(Seq<char>, Seq<char>), Seq<char>>::empty());
        }
        r
    }

    fn find(&self, application_id: &str, url: &str) -> (r: Option<usize>)
        ensures
            match r {
                Some(i) => i < self.entries@.len() && self.entries@[i as int].0@ == application_id@
                    && self.entries@[i as int].1@ == url@ && first_path(
                    self.entries@,
                    (application_id@, url@),
                    i as int,
                ) is None && first_path(
                    self.entries@,
                    (application_id@, url@),
                    self.entries@.len() as int,
                ) == Some(self.entries@[i as int].2@),
                None => first_path(self.entries@, (application_id@, url@), self.entries@.len() as int) is None,
            },
    {
        let ghost key = (application_id@, url@);
        let n = self.entries.len();
        let mut i: usize = 0;
        while i < n
            invariant
                n == self.entries@.len(),
                i <= n,
                key == (application_id@, url@),
                first_path(self.entries@, key, i as int) is None,
            decreases n - i,
        {
            let same_app = str_eq(self.entries[i].0.as_str(), application_id);
            let same_url = str_eq(self.entries[i].1.as_str(), url);
            if same_app && same_url {
                proof {
                    assert((self.entries@[i as int].0@, self.entries@[i as int].1@) == key);
                    assert(first_path(self.entries@, key, i + 1) == Some(self.entries@[i as int].2@));
                    lemma_first_path_stable(self.entries@, key, i + 1, n as int);
                }
                return Some(i);
            }
            proof {
                assert((self.entries@[i as int].0@, self.entries@[i as int].1@) != key);
                assert(first_path(self.entries@, key, i + 1) is None);
            }
            i = i + 1;
        }
        None
    }

    /// The path an image was registered under for an application.
    pub fn get(&self, application_id: &str, url: &str) -> (r: Option<&String>)
        ensures
            match r {
                Some(p) => self.view().dom().contains((application_id@, url@)) && self.view()[(
                    application_id@,
                    url@,
                )] == p@,
                None => !self.view().dom().contains((application_id@, url@)),
            },
    {
        match self.find(application_id, url) {
            Some(i) => Some(&self.entries[i].2),
            None => None,
        }
    }

    /// Records the path an image was registered under; a later registration
    /// of the same image replaces it.
    pub fn insert(&mut self, application_id: &str, url: &str, path: String)
        ensures
            final(self).view() == old(self).view().insert((application_id@, url@), path@),
    {
        let ghost key = (application_id@, url@);
        match self.find(application_id, url) {
            Some(i) => {
                let ghost before = self.entries@;
                self.entries.set(i, (application_id.to_owned(), url.to_owned(), path));
                proof {
                    lemma_first_path_replace(before, self.entries@, i as int);
                    assert(self.view() =~= old(self).view().insert(key, path@));
                }
            },
            None => {
                let ghost before = self.entries@;
                self.entries.push((application_id.to_owned(), url.to_owned(), path));
                proof {
                    lemma_first_path_append(before, self.entries@);
                    assert(self.view() =~= old(self).view().insert(key, path@));
                }
            },
        }
    }
}

proof fn lemma_first_path_stable(entries: Seq<(String, String, String)>, key: (Seq<char>, Seq<char>), i: int, n: int)
    requires
        0 <= i <= n,
        first_path(entries, key, i) is Some,
    ensures
        first_path(entries, key, n) == first_path(entries, key, i),
    decreases n - i,
{
    if n > i {
        lemma_first_path_stable(entries, key, i, n - 1);
    }
}

/// Replacing the first entry of a key changes that key's path only; every
/// other key finds what it found before.
proof fn lemma_first_path_replace(before: Seq<(String, String, String)>, after: Seq<(String, String, String)>, i: int)
    requires
        0 <= i < before.len(),
        after == before.update(i, after[i]),
        after[i].0@ == before[i].0@,
        after[i].1@ == before[i].1@,
        first_path(before, (before[i].0@, before[i].1@), i) is None,
    ensures
        forall|k: (Seq<char>, Seq<char>)|
            #![trigger first_path(after, k, after.len() as int)]
            first_path(after, k, after.len() as int) == if k == (before[i].0@, before[i].1@) {
                Some(after[i].2@)
            } else {
                first_path(before, k, before.len() as int)
            },
{
    assert forall|k: (Seq<char>, Seq<char>)|
        #![trigger first_path(after, k, after.len() as int)]
        first_path(after, k, after.len() as int) == if k == (before[i].0@, before[i].1@) {
            Some(after[i].2@)
        } else {
            first_path(before, k, before.len() as int)
        } by {
        lemma_first_path_replace_at(before, after, i, k, before.len() as int);
    }
}

proof fn lemma_first_path_replace_at(
    before: Seq<(String, String, String)>,
    after: Seq<(String, String, String)>,
    i: int,
    k: (Seq<char>, Seq<char>),
    n: int,
)
    requires
        0 <= i < before.len(),
        0 <= n <= before.len(),
        after == before.update(i, after[i]),
        after[i].0@ == before[i].0@,
        after[i].1@ == before[i].1@,
        first_path(before, (before[i].0@, before[i].1@), i) is None,
    ensures
        n <= i ==> first_path(after, k, n) == first_path(before, k, n),
        k != (before[i].0@, before[i].1@) ==> first_path(after, k, n) == first_path(before, k, n),
        k == (before[i].0@, before[i].1@) && n > i ==> first_path(after, k, n) == Some(after[i].2@),
    decreases n,
{
    if n > 0 {
        lemma_first_path_replace_at(before, after, i, k, n - 1);
        if n - 1 != i {
            assert(after[n - 1] == before[n - 1]);
        }
    }
}

/// Appending an entry for a key that no entry has adds that key only.
proof fn lemma_first_path_append(before: Seq<(String, String, String)>, after: Seq<(String, String, String)>)
    requires
        after.len() == before.len() + 1,
        forall|j: int| 0 <= j < before.len() ==> after[j] == before[j],
        first_path(before, (after.last().0@, after.last().1@), before.len() as int) is None,
    ensures
        forall|k: (Seq<char>, Seq<char>)|
            #![trigger first_path(after, k, after.len() as int)]
            first_path(after, k, after.len() as int) == if k == (after.last().0@, after.last().1@) {
                Some(after.last().2@)
            } else {
                first_path(before, k, before.len() as int)
            },
{
    assert forall|k: (Seq<char>, Seq<char>)|
        #![trigger first_path(after, k, after.len() as int)]
        first_path(after, k, after.len() as int) == if k == (after.last().0@, after.last().1@) {
            Some(after.last().2@)
        } else {
            first_path(before, k, before.len() as int)
        } by {
        lemma_first_path_prefix(before, after, k, before.len() as int);
    }
}

proof fn lemma_first_path_prefix(
    before: Seq<(String, String, String)>,
    after: Seq<(String, String, String)>,
    k: (Seq<char>, Seq<char>),
    n: int,
)
    requires
        0 <= n <= before.len(),
        before.len() <= after.len(),
        forall|j: int| 0 <= j < before.len() ==> after[j] == before[j],
    ensures
        first_path(after, k, n) == first_path(before, k, n),
    decreases n,
{
    if n > 0 {
        lemma_first_path_prefix(before, after, k, n - 1);
    }
}

/// A registration reads back: once an image's path is recorded (`after` is
/// what `insert` leaves of `before`), the cache gives that path for it, and
/// every other image keeps what it had.
pub proof fn lemma_registered_path_reads_back(
    before: ExternalAssetCache,
    after: ExternalAssetCache,
    key: (Seq<char>, Seq<char>),
    path: Seq<char>,
    other: (Seq<char>, Seq<char>),
)
    requires
        after.view() == before.view().insert(key, path),
    ensures
        after.view().dom().contains(key),
        after.view()[key] == path,
        other != key ==> (after.view().dom().contains(other) == before.view().dom().contains(other) && after.view()[other]
            == before.view()[other]),
{
}

} // verus!
