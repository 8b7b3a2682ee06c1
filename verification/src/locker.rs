use vstd::prelude::*;

verus! {

/// The OS half of the file lock: creates the lock file at a fixed path
/// and takes or releases the exclusive lock on it. Implementations do
/// the filesystem work outside the library; the `Locker` drives them and
/// tracks what it holds.
pub trait LockBackend {
    /// Attempts to take the exclusive OS lock for the file at `path`.
    fn acquire(&mut self, path: &str) -> bool;

    /// Releases the lock taken by the last successful `acquire`.
    fn release(&mut self) -> bool;
}

/// OS-wide mutual exclusion via an exclusive lock on a file at a fixed
/// path, used to keep two instances of the tool from updating
/// concurrently. A locker that already holds its lock refuses to take it
/// again; only a successful release gives it up.
pub struct Locker<B> {
    path: String,
    backend: B,
    locked: bool,
}

impl<B: LockBackend> Locker<B> {
    /// The path of the backing lock file.
    pub closed spec fn spec_path(self) -> Seq<char> {
        self.path@
    }

    /// Whether this locker holds its lock.
    pub closed spec fn spec_locked(self) -> bool {
        self.locked
    }

    /// A locker for the lock file at `path`, not yet holding the lock.
    pub fn new(path: String, backend: B) -> (r: Self)
        ensures
            r.spec_path() == path@,
            !r.spec_locked(),
    {
        Locker { path, backend, locked: false }
    }

    /// Attempts to take the lock. A second attempt while the first is
    /// held fails; otherwise the attempt succeeds exactly when the OS
    /// grants the lock.
    pub fn lock(&mut self) -> (r: bool)
        ensures
            final(self).spec_path() == old(self).spec_path(),
            old(self).spec_locked() ==> !r && final(self).spec_locked(),
            !old(self).spec_locked() ==> final(self).spec_locked() == r,
    {
        if self.locked {
            return false;
        }
        if self.backend.acquire(self.path.as_str()) {
            self.locked = true;
            return true;
        }
        false
    }

    /// Releases the lock. Succeeds exactly when the lock was held and
    /// the OS released it; a locker that holds nothing has nothing to
    /// release.
    pub fn unlock(&mut self) -> (r: bool)
        ensures
            final(self).spec_path() == old(self).spec_path(),
            !old(self).spec_locked() ==> !r && !final(self).spec_locked(),
            old(self).spec_locked() ==> final(self).spec_locked() == !r,
    {
        if self.locked && self.backend.release() {
            self.locked = false;
            return true;
        }
        false
    }

    /// Whether the lock is currently held.
    pub fn is_locked(&self) -> (r: bool)
        ensures
            r == self.spec_locked(),
    {
        self.locked
    }
}

} // verus!
