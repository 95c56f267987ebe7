//! Write registry: the process-wide record of which log filenames have
//! already been truncated during this run.
//!
//! The registry implements truncate-once semantics: the first writer of a
//! filename is told to truncate the file, every later writer is told to
//! append. The shell that performs the filesystem calls keeps one registry
//! per process behind a mutual-exclusion lock and consults it inside the
//! critical section, so the check-and-record step below is all the logic
//! that section needs.

use vstd::prelude::*;

verus! {

/// The set of filenames marked as already truncated this run. It starts
/// empty and only ever grows: a name, once recorded, is never removed.
pub struct WriteRegistry {
    files: Vec<String>,
}

impl WriteRegistry {
    /// Whether `name` has already been recorded as truncated this run.
    pub closed spec fn initialized(&self, name: Seq<char>) -> bool {
        exists|i: int| 0 <= i < self.files@.len() && self.files@[i]@ == name
    }

    /// The set of filenames recorded so far.
    pub open spec fn names(&self) -> Set<Seq<char>> {
        Set::new(|n: Seq<char>| self.initialized(n))
    }

    /// A fresh registry, as each process starts with: no filename recorded.
    pub fn new() -> (r: WriteRegistry)
        ensures
            forall|n: Seq<char>| !r.initialized(n),
            r.names() == Set::<Seq<char>>::empty(),
    {
        let r = WriteRegistry { files: Vec::new() };
        proof {
            assert(r.names() =~= Set::<Seq<char>>::empty());
        }
        r
    }

    /// Whether `filename` is already recorded.
    fn lookup(&self, filename: &str) -> (r: bool)
        ensures
            r == self.initialized(filename@),
    {
        let owned: String = filename.to_owned();
        let mut i: usize = 0;
        while i < self.files.len()
            invariant
                i <= self.files@.len(),
                owned@ == filename@,
                forall|j: int| 0 <= j < i ==> self.files@[j]@ != filename@,
            decreases self.files@.len() - i,
        {
            if self.files[i] == owned {
                return true;
            }
            i += 1;
        }
        false
    }

    /// The check-and-record step a writer performs before opening its file:
    /// returns true exactly when `filename` had not been seen before this
    /// call, in which case the caller must truncate the file before
    /// appending. Either way `filename` is recorded afterwards, so no later
    /// call for the same name is told to truncate again.
    pub fn should_truncate(&mut self, filename: &str) -> (r: bool)
        ensures
            r == !old(self).initialized(filename@),
            r == truncates(old(self).names(), filename@),
            final(self).initialized(filename@),
            forall|n: Seq<char>|
                #[trigger] final(self).initialized(n) <==> (old(self).initialized(n)
                    || n == filename@),
            final(self).names() == after_write(old(self).names(), filename@),
    {
        if self.lookup(filename) {
            proof {
                assert(final(self).names() =~= after_write(old(self).names(), filename@));
            }
            false
        } else {
            let owned: String = filename.to_owned();
            self.files.push(owned);
            proof {
                let pre = old(self).files@;
                let post = self.files@;
                assert forall|n: Seq<char>| #[trigger]
                    final(self).initialized(n) implies (old(self).initialized(n)
                    || n == filename@) by {
                    let i = choose|i: int| 0 <= i < post.len() && post[i]@ == n;
                    if i < pre.len() {
                        assert(pre[i]@ == n);
                    }
                }
                assert forall|n: Seq<char>|
                    (old(self).initialized(n) || n == filename@) implies #[trigger]
                    final(self).initialized(n) by {
                    if old(self).initialized(n) {
                        let i = choose|i: int| 0 <= i < pre.len() && pre[i]@ == n;
                        assert(post[i]@ == n);
                    } else {
                        assert(post[pre.len() as int]@ == filename@);
                    }
                }
                assert(final(self).names() =~= after_write(old(self).names(), filename@));
            }
            true
        }
    }
}

/// The decision a writer of `name` receives when `files` is the set of
/// filenames already initialized: truncate exactly when the name is fresh.
pub open spec fn truncates(files: Set<Seq<char>>, name: Seq<char>) -> bool {
    !files.contains(name)
}

/// The set of initialized filenames after one write to `name`.
pub open spec fn after_write(files: Set<Seq<char>>, name: Seq<char>) -> Set<Seq<char>> {
    files.insert(name)
}

/// How many of `k` writers of the same `name`, checking in one after the
/// other as the registry's lock admits them, receive the truncation
/// decision.
pub open spec fn truncation_count(files: Set<Seq<char>>, name: Seq<char>, k: nat) -> nat
    decreases k,
{
    if k == 0 {
        0
    } else {
        (if truncates(files, name) {
            1 as nat
        } else {
            0 as nat
        }) + truncation_count(after_write(files, name), name, (k - 1) as nat)
    }
}

/// Law: once `name` is initialized, no later writer is told to truncate it
/// again, however many more writers arrive.
pub proof fn lemma_no_second_truncation(files: Set<Seq<char>>, name: Seq<char>, k: nat)
    requires
        files.contains(name),
    ensures
        truncation_count(files, name, k) == 0,
    decreases k,
{
    if k > 0 {
        lemma_no_second_truncation(after_write(files, name), name, (k - 1) as nat);
    }
}

/// Law: among any `k >= 1` writers that check in for the same fresh `name`,
/// exactly one receives the truncation decision — the first — so a file's
/// pre-existing content is discarded exactly once per process run.
pub proof fn lemma_exactly_one_truncation(files: Set<Seq<char>>, name: Seq<char>, k: nat)
    requires
        k >= 1,
        !files.contains(name),
    ensures
        truncation_count(files, name, k) == 1,
{
    lemma_no_second_truncation(after_write(files, name), name, (k - 1) as nat);
}

} // verus!
