use vstd::prelude::*;

verus! {

/// Code carried by an error that arose in this library rather than in the engine.
pub const LOCAL_CODE: i32 = -1;

/// Class carried by an error that arose in this library rather than in the engine.
pub const LOCAL_CLASS: i32 = 0;

/// A failure, either reported by the engine or found locally before any call.
#[derive(Debug)]
pub struct Error {
    /// The engine's result code, or `LOCAL_CODE`.
    pub code: i32,
    /// A human-readable description.
    pub message: String,
    /// The engine's error class, or `LOCAL_CLASS`.
    pub class: i32,
}

/// The engine's last-error record, as read right after a failing call:
/// the raw bytes of its message and its class.
pub struct ErrorRecord {
    pub message: Vec<u8>,
    pub class: i32,
}

/// What `String::from_utf8_lossy` makes of a byte sequence.
pub uninterp spec fn lossy_utf8(b: Seq<u8>) -> Seq<char>;

/// Relies on `String::from_utf8_lossy`: the result depends on the bytes alone,
/// valid UTF-8 is decoded unchanged, and each byte yields at least one character.
#[verifier::external_body]
fn lossy_text(b: &[u8]) -> (r: String)
    ensures
        r@ == lossy_utf8(b@),
        vstd::utf8::valid_utf8(b@) ==> r@ == vstd::utf8::decode_utf8(b@),
        b@.len() > 0 ==> r@.len() > 0,
{
    String::from_utf8_lossy(b).into_owned()
}

impl Error {
    /// The error that the engine's failing call with `code` stands for, given
    /// the last-error record read right after it. A record with a message
    /// gives a non-empty one.
    pub open spec fn is_native(&self, code: i32, record: ErrorRecord) -> bool {
        &&& self.code == code
        &&& self.class == record.class
        &&& self.message@ == lossy_utf8(record.message@)
        &&& record.message@.len() > 0 ==> self.message@.len() > 0
    }

    /// Whether this is a locally raised error with the given message.
    pub open spec fn is_local_with(&self, message: Seq<char>) -> bool {
        &&& self.code == LOCAL_CODE
        &&& self.class == LOCAL_CLASS
        &&& self.message@ == message
    }

    /// Whether this error was raised locally rather than by the engine.
    pub fn is_local(&self) -> (r: bool)
        ensures
            r == (self.code == LOCAL_CODE && self.class == LOCAL_CLASS),
    {
        self.code == LOCAL_CODE && self.class == LOCAL_CLASS
    }

    /// The text shown for this error: its message alone.
    pub fn to_string(&self) -> (r: String)
        ensures
            r@ == self.message@,
    {
        self.message.clone()
    }
}

impl From<String> for Error {
    /// A local error carrying `message`.
    fn from(message: String) -> (r: Error)
        ensures
            r.is_local_with(message@),
    {
        Error { code: LOCAL_CODE, message, class: LOCAL_CLASS }
    }
}

impl vstd::std_specs::convert::FromSpecImpl<String> for Error {
    open spec fn obeys_from_spec() -> bool {
        true
    }

    open spec fn from_spec(message: String) -> Error {
        Error { code: LOCAL_CODE, message, class: LOCAL_CLASS }
    }
}

/// Whether an engine result code reports failure.
pub open spec fn is_failure(code: i32) -> bool {
    code < 0
}

/// Tells a failing engine result code from a successful one.
pub fn failed(code: i32) -> (r: bool)
    ensures
        r == is_failure(code),
{
    code < 0
}

/// Turns an engine result code into a result. On failure, and only then,
/// `last_error` is called, and nothing else runs between the two, so the
/// record it reads belongs to this failure.
pub fn check<F>(code: i32, last_error: F) -> (r: Result<i32, Error>) where
    F: FnOnce() -> ErrorRecord,

    requires
        is_failure(code) ==> last_error.requires(()),
    ensures
        !is_failure(code) ==> r == Ok::<i32, Error>(code),
        is_failure(code) ==> (r matches Err(e) && exists|rec: ErrorRecord|
            #[trigger] last_error.ensures((), rec) && e.is_native(code, rec)),
{
    if code >= 0 {
        return Ok(code);
    }
    let record = last_error();
    let message = lossy_text(record.message.as_slice());
    let e = Error { code, message, class: record.class };
    assert(e.is_native(code, record));
    Err(e)
}

/// Finishes an engine call that fills an out-parameter. On success only,
/// `read` takes the out-parameter's value; on failure only, `last_error`
/// reads the engine's record, right away.
pub fn complete<T, R, F>(code: i32, read: R, last_error: F) -> (r: Result<T, Error>) where
    R: FnOnce() -> T,
    F: FnOnce() -> ErrorRecord,

    requires
        !is_failure(code) ==> read.requires(()),
        is_failure(code) ==> last_error.requires(()),
    ensures
        !is_failure(code) ==> (r matches Ok(v) && read.ensures((), v)),
        is_failure(code) ==> (r matches Err(e) && exists|rec: ErrorRecord|
            #[trigger] last_error.ensures((), rec) && e.is_native(code, rec)),
{
    match check(code, last_error) {
        Ok(_) => Ok(read()),
        Err(e) => Err(e),
    }
}

} // verus!
