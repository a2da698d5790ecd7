//! The connection layer: declarations of the backing SSH library's types
//! and the trusted wrappers around the session calls the engine makes.
//!
//! The engine owns each session exclusively for exactly one destination
//! transfer; no session is shared or reused, so a session value stands for
//! its own connection state.

use vstd::prelude::*;

verus! {

#[verifier::external_type_specification]
#[verifier::external_body]
pub struct ExSession(ssh2::Session);

#[verifier::external_type_specification]
#[verifier::external_body]
pub struct ExSftp(ssh2::Sftp);

#[verifier::external_type_specification]
#[verifier::external_body]
pub struct ExSftpFile(ssh2::File);

#[verifier::external_type_specification]
#[verifier::external_body]
pub struct ExSshError(ssh2::Error);

/// Whether the session reports an authenticated state, as the backing
/// library's `authenticated` query returns it.  Meaningful because the
/// engine owns each session exclusively: the state changes only through
/// the calls made on this one handle.
pub uninterp spec fn session_authenticated_state(s: ssh2::Session) -> bool;

/// Relies on ssh2::Session::handshake: performs the protocol handshake
/// over the session's transport stream.
#[verifier::external_body]
pub(crate) fn session_handshake(s: &mut ssh2::Session) -> (r: Result<(), ssh2::Error>) {
    s.handshake()
}

/// Relies on ssh2::Session::userauth_password: attempts password
/// authentication for the given user.
#[verifier::external_body]
pub(crate) fn session_userauth_password(
    s: &mut ssh2::Session,
    username: &str,
    password: &str,
) -> (r: Result<(), ssh2::Error>) {
    s.userauth_password(username, password)
}

/// Relies on ssh2::Session::userauth_pubkey_file: attempts public-key
/// authentication for the given user with the private-key file at the
/// given path.
#[verifier::external_body]
pub(crate) fn session_userauth_pubkey_file(
    s: &mut ssh2::Session,
    username: &str,
    key_path: &str,
) -> (r: Result<(), ssh2::Error>) {
    s.userauth_pubkey_file(username, None, std::path::Path::new(key_path), None)
}

/// Relies on ssh2::Session::authenticated: reports whether the session has
/// reached an authenticated state.
#[verifier::external_body]
pub(crate) fn session_is_authenticated(s: &ssh2::Session) -> (b: bool)
    ensures
        b == session_authenticated_state(*s),
{
    s.authenticated()
}

/// Relies on ssh2::Session::sftp: opens the file-transfer channel of an
/// established session.
#[verifier::external_body]
pub(crate) fn session_open_sftp(s: &ssh2::Session) -> (r: Result<ssh2::Sftp, ssh2::Error>) {
    s.sftp()
}

/// Relies on ssh2::Error::message: the human-readable text of a failure
/// reported by the backing library.
#[verifier::external_body]
pub(crate) fn ssh_error_message(e: &ssh2::Error) -> (r: String) {
    e.message().to_string()
}

} // verus!
