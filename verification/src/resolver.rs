//! The remote path resolver: makes a remote directory and all its
//! ancestors exist, creating missing ones ancestor-first.
//!
//! The resolver climbs from the requested directory towards the root,
//! probing each level, until it finds one that exists (or that it already
//! knows to exist), then creates the missing chain shallowest-first.  A
//! per-session memo of paths known to exist makes a repeated request a
//! provable no-op; it changes nothing observable but the number of probes.

use vstd::prelude::*;
use crate::errors::TransferError;
use crate::paths::parent_of;

verus! {

/// Relies on ssh2::Sftp::stat, used purely as an existence probe: it
/// succeeds exactly when the remote path can be stat-ed.
#[verifier::external_body]
pub(crate) fn sftp_stat_exists(sftp: &ssh2::Sftp, path: &str) -> (r: bool) {
    sftp.stat(std::path::Path::new(path)).is_ok()
}

/// Relies on ssh2::Sftp::mkdir: creates one remote directory with the
/// given permission bits.
#[verifier::external_body]
pub(crate) fn sftp_mkdir(sftp: &ssh2::Sftp, path: &str, mode: i32) -> (r: Result<
    (),
    ssh2::Error,
>) {
    sftp.mkdir(std::path::Path::new(path), mode)
}

/// The per-session memo of remote directories known to exist.
pub struct RemoteDirResolver {
    pub known: Vec<String>,
}

impl RemoteDirResolver {
    /// Whether `p` is recorded as existing on the remote side.
    pub open spec fn knows(self, p: Seq<char>) -> bool {
        exists|i: int| 0 <= i < self.known@.len() && self.known@[i]@ == p
    }

    /// A fresh resolver for a fresh session: nothing is known yet.
    pub fn new() -> (r: Self)
        ensures
            forall|p: Seq<char>| !r.knows(p),
    {
        RemoteDirResolver { known: Vec::new() }
    }

    /// Whether `dir` is recorded as existing.
    pub fn lookup(&self, dir: &str) -> (b: bool)
        ensures
            b == self.knows(dir@),
    {
        let mut j: usize = 0;
        let key: String = dir.to_owned();
        while j < self.known.len()
            invariant
                j <= self.known@.len(),
                key@ == dir@,
                forall|l: int| 0 <= l < j ==> (#[trigger] self.known@[l])@ != dir@,
            decreases self.known@.len() - j,
        {
            if self.known[j] == key {
                proof {
                    assert(self.knows(dir@));
                }
                return true;
            }
            j = j + 1;
        }
        false
    }

    /// Guarantees that `dir` and every ancestor exist on the remote side,
    /// creating missing directories ancestor-first with mode 0755.
    /// Idempotent: asking again for a directory this resolver has already
    /// ensured succeeds without touching the session or the memo at all,
    /// so the second call performs no creation.  The memo only grows, and
    /// a failure is always a directory-creation failure.
    pub fn ensure(&mut self, sftp: &ssh2::Sftp, dir: &str) -> (r: Result<(), TransferError>)
        ensures
            r is Ok ==> final(self).knows(dir@),
            old(self).knows(dir@) ==> r is Ok && *final(self) == *old(self),
            forall|p: Seq<char>| #[trigger] old(self).knows(p) ==> final(self).knows(p),
            r is Err ==> r->Err_0 is RemoteDirError,
    {
        if self.lookup(dir) {
            return Ok(());
        }
        let mut pending: Vec<String> = Vec::new();
        let mut cur: String = dir.to_owned();
        loop
            invariant
                *self == *old(self),
                !old(self).knows(dir@),
                pending@.len() > 0 ==> pending@[0]@ == dir@,
                pending@.len() == 0 ==> cur@ == dir@,
            ensures
                *self == *old(self),
                !old(self).knows(dir@),
                pending@.len() > 0 ==> pending@[0]@ == dir@,
                pending@.len() == 0 ==> self.knows(dir@),
            decreases cur@.len(),
        {
            if self.lookup(cur.as_str()) {
                if pending.len() == 0 {
                    proof {
                        assert(self.knows(dir@));
                    }
                }
                break;
            }
            if sftp_stat_exists(sftp, cur.as_str()) {
                if pending.len() == 0 {
                    let ghost before = *self;
                    self.known.push(cur.clone());
                    proof {
                        assert(self.known@[self.known@.len() - 1]@ == dir@);
                        assert(self.knows(dir@));
                        assert forall|p: Seq<char>| #[trigger] before.knows(p) implies self.knows(
                            p,
                        ) by {
                            let w = choose|i: int|
                                0 <= i < before.known@.len() && before.known@[i]@ == p;
                            assert(self.known@[w]@ == p);
                        }
                    }
                    return Ok(());
                }
                break;
            }
            pending.push(cur.clone());
            match parent_of(cur.as_str()) {
                Some(p) => {
                    cur = p;
                },
                None => {
                    break;
                },
            }
        }
        let mut idx: usize = pending.len();
        while idx > 0
            invariant
                idx <= pending@.len(),
                !old(self).knows(dir@),
                pending@.len() > 0 ==> pending@[0]@ == dir@,
                pending@.len() == 0 ==> self.knows(dir@),
                forall|p: Seq<char>| #[trigger] old(self).knows(p) ==> self.knows(p),
                forall|j: int| idx <= j < pending@.len() ==> self.knows((#[trigger] pending@[j])@),
            decreases idx,
        {
            idx = idx - 1;
            let d = pending[idx].clone();
            match sftp_mkdir(sftp, d.as_str(), 0o755) {
                Ok(()) => {
                    let ghost before = *self;
                    self.known.push(d);
                    proof {
                        assert(self.known@[self.known@.len() - 1]@ == pending@[idx as int]@);
                        assert forall|p: Seq<char>| #[trigger] before.knows(p) implies self.knows(
                            p,
                        ) by {
                            let w = choose|i: int|
                                0 <= i < before.known@.len() && before.known@[i]@ == p;
                            assert(self.known@[w]@ == p);
                        }
                    }
                },
                Err(_) => {
                    return Err(TransferError::RemoteDirError(d));
                },
            }
        }
        Ok(())
    }
}

} // verus!
