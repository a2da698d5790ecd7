//! The transfer orchestrator: per-destination sequencing and the
//! multi-destination collection point.
//!
//! One destination's transfer runs strictly sequentially: authenticate,
//! plan, then for each task ensure the remote parent directory and stream
//! the file, accumulating exact byte counts.  Across destinations, the
//! caller runs one transfer per destination in its own unit of work and
//! hands every outcome to the collection point, which never drops an
//! outcome and signals success exactly when nothing failed.

use vstd::prelude::*;
use crate::config::Credential;
use crate::config::Destination;
use crate::errors::TransferError;
use crate::resolver::RemoteDirResolver;
use crate::session::session_authenticated_state;
use crate::session::session_handshake;
use crate::session::session_is_authenticated;
use crate::session::session_open_sftp;
use crate::session::session_userauth_password;
use crate::session::session_userauth_pubkey_file;
use crate::session::ssh_error_message;
use crate::streamer::FileUpload;
use crate::streamer::remote_file_bytes;
use crate::streamer::upload_wf;
use crate::walker::TransferTask;
use crate::walker::dest_root_spec;
use crate::walker::fs_path_exists;
use crate::walker::fs_path_is_file;
use crate::walker::lemma_planned_tasks_consistent;
use crate::walker::plan_single;
use crate::walker::plan_tree;
use crate::walker::single_task_spec;
use crate::walker::tree_task_spec;
use crate::walker::walk_local_entries;
use crate::paths::base_name_spec;
use crate::paths::parent_of;
use crate::paths::parent_spec;

verus! {

#[verifier::external_type_specification]
#[verifier::external_body]
pub struct ExInstant(std::time::Instant);

/// Relies on std::time::Instant::now: a reading of the monotonic clock.
#[verifier::external_body]
pub(crate) fn monotonic_now() -> (r: std::time::Instant) {
    std::time::Instant::now()
}

/// Relies on std::time::Instant::elapsed: the wall-clock time since the
/// reading was taken, in whole milliseconds (saturating).
#[verifier::external_body]
pub(crate) fn elapsed_millis_since(start: &std::time::Instant) -> (r: u64) {
    u64::try_from(start.elapsed().as_millis()).unwrap_or(u64::MAX)
}

/// The result record of one destination's completed transfer: total bytes
/// moved and elapsed wall-clock milliseconds.
#[derive(Clone, Copy)]
pub struct TransferStats {
    pub bytes_transferred: u64,
    pub duration_millis: u64,
}

/// What a destination's transfer will move: the planned tasks, and whether
/// the root was a single file.
pub struct TransferPlan {
    pub tasks: Vec<TransferTask>,
    pub single_file: bool,
}

/// A plan is consistent with its root and base when a single-file plan
/// holds exactly the root's task, and a directory plan's every task is
/// determined by its own local path under the nested destination root.
pub open spec fn plan_consistent(p: TransferPlan, root: Seq<char>, base: Seq<char>) -> bool {
    if p.single_file {
        p.tasks@.len() == 1 && p.tasks@[0]@ == single_task_spec(root, base)
    } else {
        forall|i: int|
            0 <= i < p.tasks@.len() ==> #[trigger] p.tasks@[i]@ == tree_task_spec(
                root,
                dest_root_spec(root, base),
                p.tasks@[i]@.local,
            )
    }
}

/// Law: a consistent plan's every remote path is rooted under the
/// destination's remote base path — the base is a literal prefix of each
/// task's remote path, so no task escapes the destination's namespace.
pub proof fn lemma_plan_rooted(p: TransferPlan, root: Seq<char>, base: Seq<char>)
    requires
        plan_consistent(p, root, base),
    ensures
        forall|i: int|
            0 <= i < p.tasks@.len() ==> (#[trigger] p.tasks@[i]@).remote.len() >= base.len()
                && p.tasks@[i]@.remote.subrange(0, base.len() as int) == base,
{
    assert forall|i: int| 0 <= i < p.tasks@.len() implies (#[trigger] p.tasks@[i]@).remote.len()
        >= base.len() && p.tasks@[i]@.remote.subrange(0, base.len() as int) == base by {
        let remote = p.tasks@[i]@.remote;
        if p.single_file {
            crate::paths::lemma_join_keeps_base_prefix(base, base_name_spec(root));
        } else {
            let droot = dest_root_spec(root, base);
            let rel = p.tasks@[i]@.rel;
            crate::paths::lemma_join_keeps_base_prefix(droot, rel);
            crate::paths::lemma_join_keeps_base_prefix(base, base_name_spec(root));
            assert(remote.subrange(0, droot.len() as int) == droot);
            assert(remote.subrange(0, base.len() as int) =~= remote.subrange(
                0,
                droot.len() as int,
            ).subrange(0, base.len() as int));
        }
    }
}

/// The transfer engine for one destination.
pub struct Transferer {
    pub destination: Destination,
    pub verbose: bool,
}

impl Transferer {
    pub fn new(destination: Destination, verbose: bool) -> (r: Self)
        ensures
            r.destination == destination,
            r.verbose == verbose,
    {
        Transferer { destination, verbose }
    }

    /// Authenticates an established session for this destination: protocol
    /// handshake, then exactly the authentication method the credential
    /// selects (no fallback to the other method), then a check that the
    /// session really reports an authenticated state.  On success the
    /// session reports authenticated; a failure is a handshake failure or
    /// an authentication failure.
    pub fn connect(&self, session: &mut ssh2::Session, ssh_key_path: &str) -> (r: Result<
        (),
        TransferError,
    >)
        ensures
            r is Ok ==> session_authenticated_state(*final(session)),
            r is Err ==> r->Err_0 is HandshakeError || r->Err_0 is AuthError,
    {
        match session_handshake(session) {
            Ok(()) => {},
            Err(e) => {
                return Err(TransferError::HandshakeError(ssh_error_message(&e)));
            },
        }
        let auth_result = match &self.destination.credential {
            Credential::Password(pw) => session_userauth_password(
                session,
                self.destination.username.as_str(),
                pw.as_str(),
            ),
            Credential::PrivateKey => session_userauth_pubkey_file(
                session,
                self.destination.username.as_str(),
                ssh_key_path,
            ),
        };
        match auth_result {
            Ok(()) => {},
            Err(e) => {
                return Err(TransferError::AuthError(ssh_error_message(&e)));
            },
        }
        if !session_is_authenticated(session) {
            return Err(TransferError::AuthError(
                "session did not report an authenticated state".to_owned(),
            ));
        }
        Ok(())
    }

    /// Opens the file-transfer channel of an authenticated session.
    pub fn open_sftp(&self, session: &ssh2::Session) -> (r: Result<ssh2::Sftp, TransferError>)
        ensures
            r is Err ==> r->Err_0 is HandshakeError,
    {
        match session_open_sftp(session) {
            Ok(s) => Ok(s),
            Err(e) => Err(TransferError::HandshakeError(ssh_error_message(&e))),
        }
    }

    /// Plans this destination's transfer from the local upload root,
    /// touching only the local filesystem: a missing root fails with a
    /// path error naming the root — before any connection exists — and a
    /// successful plan is consistent with the root and this destination's
    /// remote base path.
    pub fn plan(&self, local_path: &str) -> (r: Result<TransferPlan, TransferError>)
        requires
            base_name_spec(local_path@).len() > 0,
        ensures
            r is Ok ==> plan_consistent(r->Ok_0, local_path@, self.destination.remote_path@),
            r is Err ==> r->Err_0 is PathError && r->Err_0.detail_spec() == local_path@,
    {
        if !fs_path_exists(local_path) {
            return Err(TransferError::PathError(local_path.to_owned()));
        }
        if fs_path_is_file(local_path) {
            let t = plan_single(local_path, self.destination.remote_path.as_str());
            let tasks = vec![t];
            Ok(TransferPlan { tasks, single_file: true })
        } else {
            let entries = walk_local_entries(local_path);
            let tasks = plan_tree(local_path, self.destination.remote_path.as_str(), &entries);
            proof {
                lemma_planned_tasks_consistent(
                    local_path@,
                    dest_root_spec(local_path@, self.destination.remote_path@),
                    entries@,
                );
            }
            Ok(TransferPlan { tasks, single_file: false })
        }
    }
}

/// One destination's transfer in flight: the planned tasks, the position
/// of the next task, the exact bytes moved so far, the per-session
/// directory memo, and the start instant.
pub struct TransferRun {
    pub tasks: Vec<TransferTask>,
    pub next: usize,
    pub total_bytes: u64,
    pub resolver: RemoteDirResolver,
    pub started: std::time::Instant,
    pub single_file: bool,
}

impl TransferRun {
    /// Starts the run: position and byte counter at zero, clock running.
    pub fn start(plan: TransferPlan) -> (r: Self)
        ensures
            r.tasks@ == plan.tasks@,
            r.next == 0,
            r.total_bytes == 0,
            r.single_file == plan.single_file,
            forall|p: Seq<char>| !r.resolver.knows(p),
    {
        TransferRun {
            tasks: plan.tasks,
            next: 0,
            total_bytes: 0,
            resolver: RemoteDirResolver::new(),
            started: monotonic_now(),
            single_file: plan.single_file,
        }
    }

    /// Whether a task is left to transfer.
    pub fn has_next(&self) -> (b: bool)
        ensures
            b == (self.next < self.tasks@.len()),
    {
        self.next < self.tasks.len()
    }

    /// The task the run will transfer next.
    pub fn current(&self) -> (t: &TransferTask)
        requires
            self.next < self.tasks@.len(),
        ensures
            *t == self.tasks@[self.next as int],
    {
        &self.tasks[self.next]
    }

    /// Prepares the current task's remote file: first guarantees the
    /// remote parent directory chain exists, then creates the remote file.
    /// The position and counters are untouched; a failure is a directory
    /// or remote-file failure.
    pub fn begin_current(&mut self, sftp: &ssh2::Sftp) -> (r: Result<FileUpload, TransferError>)
        requires
            old(self).next < old(self).tasks@.len(),
        ensures
            final(self).tasks@ == old(self).tasks@,
            final(self).next == old(self).next,
            final(self).total_bytes == old(self).total_bytes,
            final(self).single_file == old(self).single_file,
            final(self).started == old(self).started,
            r is Ok ==> upload_wf(r->Ok_0) && r->Ok_0.total == 0 && (parent_spec(
                old(self).tasks@[old(self).next as int]@.remote,
            ) is Some ==> final(self).resolver.knows(
                parent_spec(old(self).tasks@[old(self).next as int]@.remote)->0,
            )),
            r is Err ==> r->Err_0 is RemoteDirError || r->Err_0 is RemoteIOError,
    {
        let remote = self.tasks[self.next].remote_path.clone();
        match parent_of(remote.as_str()) {
            Some(dir) => {
                match self.resolver.ensure(sftp, dir.as_str()) {
                    Ok(()) => {},
                    Err(e) => {
                        return Err(e);
                    },
                }
            },
            None => {},
        }
        FileUpload::begin(sftp, remote.as_str())
    }

    /// Records a finished file: the byte counter grows by exactly the
    /// bytes that upload moved, and the run advances to the next task.
    pub fn complete_current(&mut self, upload: FileUpload) -> (bytes: u64)
        requires
            old(self).next < old(self).tasks@.len(),
            old(self).total_bytes + upload.total <= u64::MAX,
        ensures
            final(self).tasks@ == old(self).tasks@,
            final(self).next == old(self).next + 1,
            final(self).total_bytes == old(self).total_bytes + upload.total,
            final(self).single_file == old(self).single_file,
            final(self).started == old(self).started,
            bytes == upload.total,
            upload_wf(upload) ==> bytes == remote_file_bytes(upload.file).len(),
    {
        let len = self.tasks.len();
        let n = upload.finish();
        self.total_bytes = self.total_bytes + n;
        assert(self.next < len);
        self.next = self.next + 1;
        n
    }

    /// Finishes the run: the stats report exactly the accumulated bytes,
    /// and the elapsed wall-clock time read from the monotonic clock.
    pub fn finish(self) -> (r: TransferStats)
        ensures
            r.bytes_transferred == self.total_bytes,
    {
        let elapsed = elapsed_millis_since(&self.started);
        TransferStats { bytes_transferred: self.total_bytes, duration_millis: elapsed }
    }
}

/// The outcome of one destination's unit of work: the destination's name
/// with its stats, or the destination's name with its error.
pub type DestinationOutcome = Result<(String, TransferStats), (String, TransferError)>;

/// The combined report of a multi-destination run.
pub struct RunReport {
    pub stats: Vec<(String, TransferStats)>,
    pub errors: Vec<(String, TransferError)>,
    pub success: bool,
}

/// The successes among the outcomes, in order.
pub open spec fn oks_of(results: Seq<DestinationOutcome>) -> Seq<(String, TransferStats)>
    decreases results.len(),
{
    if results.len() == 0 {
        Seq::empty()
    } else {
        oks_of(results.drop_last()) + match results.last() {
            Ok(s) => seq![s],
            Err(_) => Seq::empty(),
        }
    }
}

/// The failures among the outcomes, in order.
pub open spec fn errs_of(results: Seq<DestinationOutcome>) -> Seq<(String, TransferError)>
    decreases results.len(),
{
    if results.len() == 0 {
        Seq::empty()
    } else {
        errs_of(results.drop_last()) + match results.last() {
            Ok(_) => Seq::empty(),
            Err(e) => seq![e],
        }
    }
}

/// The collection point of a multi-destination run.  Every outcome is
/// kept: the successes and the failures each in arrival order, and the
/// run counts as a success exactly when no destination failed — a partial
/// success is an overall failure, though the successful destinations'
/// stats are still reported.
pub fn collect_outcomes(results: Vec<DestinationOutcome>) -> (r: RunReport)
    ensures
        r.stats@ == oks_of(results@),
        r.errors@ == errs_of(results@),
        r.success == (errs_of(results@).len() == 0),
{
    let ghost all = results@;
    let mut rem = results;
    let mut stats: Vec<(String, TransferStats)> = Vec::new();
    let mut errors: Vec<(String, TransferError)> = Vec::new();
    proof {
        assert(all.skip(0) =~= all);
    }
    while rem.len() > 0
        invariant
            rem@.len() <= all.len(),
            rem@ == all.skip(all.len() - rem@.len()),
            stats@ == oks_of(all.take(all.len() - rem@.len())),
            errors@ == errs_of(all.take(all.len() - rem@.len())),
        decreases rem@.len(),
    {
        let ghost k = all.len() - rem@.len();
        let item = rem.remove(0);
        proof {
            assert(item == all[k]);
            assert(rem@ =~= all.skip(k + 1));
            assert(all.take(k + 1).drop_last() =~= all.take(k));
            assert(all.take(k + 1).last() == all[k]);
        }
        match item {
            Ok(p) => {
                stats.push(p);
            },
            Err(p) => {
                errors.push(p);
            },
        }
    }
    proof {
        assert(all.take(all.len() as int) =~= all);
    }
    let success = errors.len() == 0;
    RunReport { stats, errors, success }
}

/// Law: outcome collection isolates failures.  In any outcome list holding
/// a failed destination and a succeeded one, the failure's record is among
/// the collected errors, the success's stats are among the collected
/// stats, and — since at least one error was collected — the run as a
/// whole counts as failed.
pub proof fn lemma_failure_isolation(results: Seq<DestinationOutcome>, i: int, j: int)
    requires
        0 <= i < results.len(),
        0 <= j < results.len(),
        results[i] is Err,
        results[j] is Ok,
    ensures
        errs_of(results).contains(results[i]->Err_0),
        oks_of(results).contains(results[j]->Ok_0),
        errs_of(results).len() > 0,
{
    lemma_errs_of_contains(results, i);
    lemma_oks_of_contains(results, j);
}

/// Every failed outcome's record appears among the collected errors.
pub proof fn lemma_errs_of_contains(results: Seq<DestinationOutcome>, i: int)
    requires
        0 <= i < results.len(),
        results[i] is Err,
    ensures
        errs_of(results).contains(results[i]->Err_0),
    decreases results.len(),
{
    if i == results.len() - 1 {
        assert(errs_of(results).last() == results[i]->Err_0);
    } else {
        lemma_errs_of_contains(results.drop_last(), i);
        let w = choose|w: int|
            0 <= w < errs_of(results.drop_last()).len() && errs_of(results.drop_last())[w]
                == results[i]->Err_0;
        assert(errs_of(results)[w] == results[i]->Err_0);
    }
}

/// Every succeeded outcome's stats appear among the collected stats.
pub proof fn lemma_oks_of_contains(results: Seq<DestinationOutcome>, j: int)
    requires
        0 <= j < results.len(),
        results[j] is Ok,
    ensures
        oks_of(results).contains(results[j]->Ok_0),
    decreases results.len(),
{
    if j == results.len() - 1 {
        assert(oks_of(results).last() == results[j]->Ok_0);
    } else {
        lemma_oks_of_contains(results.drop_last(), j);
        let w = choose|w: int|
            0 <= w < oks_of(results.drop_last()).len() && oks_of(results.drop_last())[w]
                == results[j]->Ok_0;
        assert(oks_of(results)[w] == results[j]->Ok_0);
    }
}

} // verus!
