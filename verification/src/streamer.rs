//! The file streamer: byte-accurate copying into a remote file.
//!
//! A remote file handle is written strictly sequentially, so the bytes it
//! holds are exactly the bytes fed through it since it was created (the
//! create call truncates).  The streamer keeps its byte counter equal to
//! the length of what it has written, which makes the returned count exact.

use vstd::prelude::*;
use vstd::slice::slice_subrange;
use crate::errors::TransferError;

verus! {

/// The chunk size of the copy loop.
pub const BUFFER_SIZE: usize = 262144;

/// The bytes a remote file handle has received since it was created.
/// Meaningful because the engine owns each handle exclusively and writes
/// it strictly sequentially.
pub uninterp spec fn remote_file_bytes(f: ssh2::File) -> Seq<u8>;

/// Relies on ssh2::Sftp::create: opens the remote file write-only with
/// truncation, so it starts empty.
#[verifier::external_body]
pub(crate) fn sftp_create(sftp: &ssh2::Sftp, path: &str) -> (r: Result<ssh2::File, ssh2::Error>)
    ensures
        r is Ok ==> remote_file_bytes(r->Ok_0) == Seq::<u8>::empty(),
{
    sftp.create(std::path::Path::new(path))
}

/// Relies on std::io::Write::write_all on ssh2::File: on success the whole
/// buffer was written at the handle's sequential offset; on failure (a
/// short write is reported as an error) nothing is assumed about what
/// reached the remote side.
#[verifier::external_body]
pub(crate) fn sftp_write_all(f: &mut ssh2::File, chunk: &[u8]) -> (r: Result<(), String>)
    ensures
        r is Ok ==> remote_file_bytes(*final(f)) == remote_file_bytes(*old(f)) + chunk@,
{
    match std::io::Write::write_all(f, chunk) {
        Ok(()) => Ok(()),
        Err(e) => Err(e.to_string()),
    }
}

/// A well-formed upload: the counter equals the length of what has been
/// written through the handle.
pub open spec fn upload_wf(u: FileUpload) -> bool {
    u.total == remote_file_bytes(u.file).len()
}

/// One remote file being written: the handle and the exact count of bytes
/// moved so far.
pub struct FileUpload {
    pub file: ssh2::File,
    pub total: u64,
}

impl FileUpload {
    /// Creates (truncating) the remote file and starts an empty upload.
    /// A failure carries the remote path, and leaves nothing open.
    pub fn begin(sftp: &ssh2::Sftp, remote_path: &str) -> (r: Result<FileUpload, TransferError>)
        ensures
            r is Ok ==> upload_wf(r->Ok_0) && r->Ok_0.total == 0,
            r is Err ==> r->Err_0 is RemoteIOError && r->Err_0.detail_spec() == remote_path@,
    {
        match sftp_create(sftp, remote_path) {
            Ok(f) => Ok(FileUpload { file: f, total: 0 }),
            Err(_) => Err(TransferError::RemoteIOError(remote_path.to_owned())),
        }
    }

    /// Writes one chunk.  On success the remote file holds exactly the old
    /// bytes followed by the chunk, and the counter has grown by the
    /// chunk's length.
    pub fn feed(&mut self, chunk: &[u8]) -> (r: Result<(), TransferError>)
        requires
            upload_wf(*old(self)),
            old(self).total + chunk@.len() <= u64::MAX,
        ensures
            r is Ok ==> upload_wf(*final(self)) && final(self).total == old(self).total
                + chunk@.len() && remote_file_bytes(final(self).file) == remote_file_bytes(
                old(self).file,
            ) + chunk@,
            r is Err ==> r->Err_0 is RemoteIOError,
    {
        match sftp_write_all(&mut self.file, chunk) {
            Ok(()) => {
                self.total = self.total + chunk.len() as u64;
                Ok(())
            },
            Err(m) => Err(TransferError::RemoteIOError(m)),
        }
    }

    /// Copies a whole byte buffer through the fixed-size chunk loop.  On
    /// success the remote file holds exactly the old bytes followed by the
    /// buffer, and the counter has grown by the buffer's length.
    pub fn upload_bytes(&mut self, data: &[u8]) -> (r: Result<(), TransferError>)
        requires
            upload_wf(*old(self)),
            old(self).total + data@.len() <= u64::MAX,
        ensures
            r is Ok ==> upload_wf(*final(self)) && final(self).total == old(self).total
                + data@.len() && remote_file_bytes(final(self).file) == remote_file_bytes(
                old(self).file,
            ) + data@,
            r is Err ==> r->Err_0 is RemoteIOError,
    {
        let ghost t0 = self.total;
        let ghost b0 = remote_file_bytes(self.file);
        let mut i: usize = 0;
        proof {
            assert(b0 + data@.take(0) =~= b0);
        }
        while i < data.len()
            invariant
                i <= data@.len(),
                upload_wf(*self),
                t0 + data@.len() <= u64::MAX,
                self.total == t0 + i,
                remote_file_bytes(self.file) == b0 + data@.take(i as int),
            decreases data@.len() - i,
        {
            let end = if data.len() - i < BUFFER_SIZE {
                data.len()
            } else {
                i + BUFFER_SIZE
            };
            let chunk = slice_subrange(data, i, end);
            self.feed(chunk)?;
            proof {
                assert(b0 + data@.take(i as int) + data@.subrange(i as int, end as int) =~= b0
                    + data@.take(end as int));
            }
            i = end;
        }
        proof {
            assert(b0 + data@.take(data@.len() as int) =~= b0 + data@);
        }
        Ok(())
    }

    /// Finishes the upload, closing the remote handle, and returns the
    /// exact number of bytes moved: the length of what was written.
    pub fn finish(self) -> (r: u64)
        ensures
            r == self.total,
    {
        self.total
    }
}

} // verus!
