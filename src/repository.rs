use vstd::prelude::*;

use crate::error::{complete, is_failure, Error, ErrorRecord};
use crate::text::{bytes_of, chars_of, text_of, text_view};

verus! {

/// The identifier of an object in a repository: a fixed-size binary digest.
/// A plain value, copied freely.
#[derive(Clone, Copy, Debug)]
pub struct Oid {
    pub raw: [u8; 20],
}

/// An open repository. It owns `H`, the engine's repository handle, and is
/// the only value that does: dropping it drops the handle, once.
pub struct Repository<H> {
    raw: H,
}

impl<H> Repository<H> {
    /// The handle this repository owns.
    pub closed spec fn handle(&self) -> H {
        self.raw
    }

    /// Finishes the engine's open call that returned `code`: on success
    /// `read` takes the handle from the out-parameter and the repository owns
    /// it; on failure the engine's record is read right away.
    pub fn opened<R, F>(code: i32, read: R, last_error: F) -> (r: Result<Repository<H>, Error>) where
        R: FnOnce() -> H,
        F: FnOnce() -> ErrorRecord,

        requires
            !is_failure(code) ==> read.requires(()),
            is_failure(code) ==> last_error.requires(()),
        ensures
            !is_failure(code) ==> (r matches Ok(repo) && read.ensures((), repo.handle())),
            is_failure(code) ==> (r matches Err(e) && exists|rec: ErrorRecord|
                #[trigger] last_error.ensures((), rec) && e.is_native(code, rec)),
    {
        match complete(code, read, last_error) {
            Ok(raw) => Ok(Repository { raw }),
            Err(e) => Err(e),
        }
    }

    /// The handle, for a call into the engine.
    pub fn raw(&self) -> (r: &H)
        ensures
            *r == self.handle(),
    {
        &self.raw
    }

    /// Finishes the engine's call that resolved a reference name and returned
    /// `code`: on success `read` takes the identifier from the out-parameter,
    /// which is not touched otherwise.
    pub fn resolved<R, F>(&self, code: i32, read: R, last_error: F) -> (r: Result<Oid, Error>) where
        R: FnOnce() -> [u8; 20],
        F: FnOnce() -> ErrorRecord,

        requires
            !is_failure(code) ==> read.requires(()),
            is_failure(code) ==> last_error.requires(()),
        ensures
            !is_failure(code) ==> (r matches Ok(id) && read.ensures((), id.raw)),
            is_failure(code) ==> (r matches Err(e) && exists|rec: ErrorRecord|
                #[trigger] last_error.ensures((), rec) && e.is_native(code, rec)),
    {
        match complete(code, read, last_error) {
            Ok(raw) => Ok(Oid { raw }),
            Err(e) => Err(e),
        }
    }

    /// Finishes the engine's commit lookup in this repository that returned
    /// `code`: on success the commit owns the handle that `read` takes, and
    /// borrows this repository, which it cannot outlive.
    pub fn found<'repo, C, R, F>(&'repo self, code: i32, read: R, last_error: F) -> (r: Result<
        Commit<'repo, H, C>,
        Error,
    >) where
        R: FnOnce() -> C,
        F: FnOnce() -> ErrorRecord,

        requires
            !is_failure(code) ==> read.requires(()),
            is_failure(code) ==> last_error.requires(()),
        ensures
            !is_failure(code) ==> (r matches Ok(c) && read.ensures((), c.handle())
                && c.repository() == self),
            is_failure(code) ==> (r matches Err(e) && exists|rec: ErrorRecord|
                #[trigger] last_error.ensures((), rec) && e.is_native(code, rec)),
    {
        match complete(code, read, last_error) {
            Ok(raw) => Ok(Commit { raw, repo: self }),
            Err(e) => Err(e),
        }
    }
}

/// A commit looked up in a repository. It owns `C`, the engine's commit
/// handle, and borrows the repository, since the engine invalidates commit
/// handles when the repository is closed.
pub struct Commit<'repo, H, C> {
    raw: C,
    repo: &'repo Repository<H>,
}

impl<'repo, H, C> Commit<'repo, H, C> {
    /// The handle this commit owns.
    pub closed spec fn handle(&self) -> C {
        self.raw
    }

    /// The repository this commit was looked up in.
    pub closed spec fn repository(&self) -> &'repo Repository<H> {
        self.repo
    }

    /// The handle, for a call into the engine.
    pub fn raw(&self) -> (r: &C)
        ensures
            *r == self.handle(),
    {
        &self.raw
    }

    /// The repository this commit was looked up in.
    pub fn repo(&self) -> (r: &'repo Repository<H>)
        ensures
            r == self.repository(),
    {
        self.repo
    }

    /// The author of this commit, given the name and email strings that the
    /// engine's author accessor points to; the view cannot outlive the commit.
    pub fn author<'c>(&'c self, name: Option<&'c [u8]>, email: Option<&'c [u8]>) -> (r: Signature<'c>)
        ensures
            r.name_bytes() == bytes_of(name),
            r.email_bytes() == bytes_of(email),
    {
        Signature::new(name, email)
    }

    /// The message of this commit, given the string that the engine's message
    /// accessor points to: absent if that is absent or not valid UTF-8.
    pub fn message<'c>(&'c self, text: Option<&'c [u8]>) -> (r: Option<&'c str>)
        ensures
            chars_of(r) == text_of(bytes_of(text)),
    {
        text_view(text)
    }
}

/// An author or committer identity: a read-only view into memory that a
/// commit owns, which it cannot outlive. It releases nothing.
pub struct Signature<'c> {
    name: Option<&'c [u8]>,
    email: Option<&'c [u8]>,
}

impl<'c> Signature<'c> {
    /// The bytes of the name, if the engine gave one.
    pub closed spec fn name_bytes(&self) -> Option<Seq<u8>> {
        bytes_of(self.name)
    }

    /// The bytes of the email, if the engine gave one.
    pub closed spec fn email_bytes(&self) -> Option<Seq<u8>> {
        bytes_of(self.email)
    }

    /// A view over the engine's name and email strings.
    pub fn new(name: Option<&'c [u8]>, email: Option<&'c [u8]>) -> (r: Signature<'c>)
        ensures
            r.name_bytes() == bytes_of(name),
            r.email_bytes() == bytes_of(email),
    {
        Signature { name, email }
    }

    /// The name, if present and valid UTF-8.
    pub fn name(&self) -> (r: Option<&'c str>)
        ensures
            chars_of(r) == text_of(self.name_bytes()),
    {
        text_view(self.name)
    }

    /// The email, if present and valid UTF-8.
    pub fn email(&self) -> (r: Option<&'c str>)
        ensures
            chars_of(r) == text_of(self.email_bytes()),
    {
        text_view(self.email)
    }
}

} // verus!
