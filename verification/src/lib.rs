//! Reading the contents of a file whose path arrives through an environment
//! variable.
//!
//! Applications often keep secrets, such as API keys, out of version control
//! by storing each one in a file and handing the file's path to the process
//! through an environment variable. A single code path then works across
//! environments — tests, development, production — by varying only the
//! variable's value.
//!
//! One read is a pipeline of two fallible steps: look the variable up, then
//! open and read the file it names. The process-environment and filesystem
//! calls themselves stand outside this library and hand in plain values; the
//! decisions — which step's failure ends the read, with which error variant,
//! wrapping which cause, and that a successful read returns the text exactly
//! as the file held it — are made here and verified.

use vstd::prelude::*;
use vstd::string::StringExecFns;

verus! {

/// The underlying cause of a failed environment lookup, carried as the
/// message that the environment subsystem reported: the variable is not set,
/// or its value is not valid text.
#[derive(Debug, PartialEq, Eq)]
pub struct EnvVarCause {
    /// The cause's own human-readable message.
    pub message: String,
}

impl View for EnvVarCause {
    type V = Seq<char>;

    open spec fn view(&self) -> Seq<char> {
        self.message@
    }
}

/// The underlying cause of a failed file open or read, carried as the message
/// that the filesystem subsystem reported: not found, permission denied,
/// is a directory, a failure mid-read, and the like.
#[derive(Debug, PartialEq, Eq)]
pub struct IoCause {
    /// The cause's own human-readable message.
    pub message: String,
}

impl View for IoCause {
    type V = Seq<char>;

    open spec fn view(&self) -> Seq<char> {
        self.message@
    }
}

/// Main error type for this crate: exactly one variant per failing step, each
/// wrapping its underlying cause.
#[derive(Debug, PartialEq, Eq)]
pub enum EnvFileError {
    /// The environment lookup failed.
    EnvVarError(EnvVarCause),
    /// Opening or reading the file failed.
    Io(IoCause),
}

/// Spec-level picture of an error: which step failed, with the underlying
/// cause's message.
pub enum ErrorImage {
    EnvVar(Seq<char>),
    Io(Seq<char>),
}

impl View for EnvFileError {
    type V = ErrorImage;

    open spec fn view(&self) -> ErrorImage {
        match self {
            EnvFileError::EnvVarError(c) => ErrorImage::EnvVar(c.message@),
            EnvFileError::Io(c) => ErrorImage::Io(c.message@),
        }
    }
}

impl ErrorImage {
    /// The prefix that names the failure category in the human-readable
    /// rendering.
    pub open spec fn prefix(self) -> Seq<char> {
        match self {
            ErrorImage::EnvVar(_) => "environment variable error: "@,
            ErrorImage::Io(_) => "i/o error: "@,
        }
    }

    /// The wrapped cause's own message.
    pub open spec fn cause_message(self) -> Seq<char> {
        match self {
            ErrorImage::EnvVar(m) => m,
            ErrorImage::Io(m) => m,
        }
    }

    /// The full human-readable rendering: the category prefix, then the
    /// cause's own message.
    pub open spec fn rendered(self) -> Seq<char> {
        self.prefix() + self.cause_message()
    }
}

impl EnvFileError {
    /// Human-readable rendering of the error: a prefix naming the failure
    /// category, followed by the underlying cause's own message, so a caller
    /// can log the result without further formatting.
    pub fn message(&self) -> (r: String)
        ensures
            r@ == self@.rendered(),
    {
        match self {
            EnvFileError::EnvVarError(c) => String::from_str("environment variable error: ")
                .concat(c.message.as_str()),
            EnvFileError::Io(c) => String::from_str("i/o error: ").concat(c.message.as_str()),
        }
    }

    /// The underlying cause's own message, without the category prefix.
    pub fn description(&self) -> (r: &str)
        ensures
            r@ == self@.cause_message(),
    {
        match self {
            EnvFileError::EnvVarError(c) => c.message.as_str(),
            EnvFileError::Io(c) => c.message.as_str(),
        }
    }

    /// The wrapped underlying cause, for programmatic unwrapping; every error
    /// of this crate carries one.
    pub fn cause(&self) -> (r: Option<&String>)
        ensures
            r matches Some(m) && m@ == self@.cause_message(),
    {
        match self {
            EnvFileError::EnvVarError(c) => Some(&c.message),
            EnvFileError::Io(c) => Some(&c.message),
        }
    }
}

impl From<EnvVarCause> for EnvFileError {
    /// Wraps a failed environment lookup's cause in the matching variant.
    fn from(err: EnvVarCause) -> (r: EnvFileError) {
        EnvFileError::EnvVarError(err)
    }
}

impl vstd::std_specs::convert::FromSpecImpl<EnvVarCause> for EnvFileError {
    open spec fn obeys_from_spec() -> bool {
        true
    }

    open spec fn from_spec(err: EnvVarCause) -> EnvFileError {
        EnvFileError::EnvVarError(err)
    }
}

impl From<IoCause> for EnvFileError {
    /// Wraps a failed file open or read's cause in the matching variant.
    fn from(err: IoCause) -> (r: EnvFileError) {
        EnvFileError::Io(err)
    }
}

impl vstd::std_specs::convert::FromSpecImpl<IoCause> for EnvFileError {
    open spec fn obeys_from_spec() -> bool {
        true
    }

    open spec fn from_spec(err: IoCause) -> EnvFileError {
        EnvFileError::Io(err)
    }
}

/// What the environment step decides: a successful lookup hands the
/// variable's value on as the path to open; a failed one ends the read with
/// an environment-variable error wrapping the cause.
pub open spec fn env_step(lookup: Result<Seq<char>, Seq<char>>) -> Result<Seq<char>, ErrorImage> {
    match lookup {
        Ok(path) => Ok(path),
        Err(cause) => Err(ErrorImage::EnvVar(cause)),
    }
}

/// What the file step decides: a successful read hands the text back exactly
/// as read; a failed open or read ends the read with an i/o error wrapping
/// the cause.
pub open spec fn file_step(outcome: Result<Seq<char>, Seq<char>>) -> Result<Seq<char>, ErrorImage> {
    match outcome {
        Ok(text) => Ok(text),
        Err(cause) => Err(ErrorImage::Io(cause)),
    }
}

/// One whole read, as a function of what the two fallible steps reported:
/// the environment lookup decides first, and only when it succeeds does the
/// file step's report count.
pub open spec fn read_pipeline(
    lookup: Result<Seq<char>, Seq<char>>,
    file: Result<Seq<char>, Seq<char>>,
) -> Result<Seq<char>, ErrorImage> {
    match env_step(lookup) {
        Ok(_) => file_step(file),
        Err(e) => Err(e),
    }
}

/// The environment lookup's outcome at the level of character sequences: the
/// variable's value on success, the cause's message on failure.
pub open spec fn lookup_view(lookup: Result<String, EnvVarCause>) -> Result<Seq<char>, Seq<char>> {
    match lookup {
        Ok(path) => Ok(path@),
        Err(c) => Err(c@),
    }
}

/// The file open and read's outcome at the level of character sequences: the
/// file's text on success, the cause's message on failure.
pub open spec fn outcome_view(outcome: Result<String, IoCause>) -> Result<Seq<char>, Seq<char>> {
    match outcome {
        Ok(text) => Ok(text@),
        Err(c) => Err(c@),
    }
}

/// A finished read at the level of character sequences.
pub open spec fn result_view(r: Result<String, EnvFileError>) -> Result<Seq<char>, ErrorImage> {
    match r {
        Ok(text) => Ok(text@),
        Err(e) => Err(e@),
    }
}

/// The first step of a read: interpret the environment lookup. A successful
/// lookup hands its value on unchanged as the path to open; a failed one ends
/// the read at once with the environment-variable error variant, the cause
/// wrapped unchanged.
pub fn resolve_path(lookup: Result<String, EnvVarCause>) -> (r: Result<String, EnvFileError>)
    ensures
        result_view(r) == env_step(lookup_view(lookup)),
{
    match lookup {
        Ok(path) => Ok(path),
        Err(cause) => Err(EnvFileError::from(cause)),
    }
}

/// The second step of a read: interpret the file open and read. Success hands
/// the text back exactly as it was read — nothing trimmed, trailing and
/// embedded whitespace kept; failure ends the read with the i/o error
/// variant, the cause wrapped unchanged.
pub fn finish_read(outcome: Result<String, IoCause>) -> (r: Result<String, EnvFileError>)
    ensures
        result_view(r) == file_step(outcome_view(outcome)),
{
    match outcome {
        Ok(text) => Ok(text),
        Err(cause) => Err(EnvFileError::from(cause)),
    }
}

/// A read whose environment lookup failed fails with the environment-variable
/// error wrapping that cause, whatever the file step would have reported: the
/// lookup's failure short-circuits the pipeline.
pub proof fn lemma_unset_variable_fails(cause: Seq<char>, file: Result<Seq<char>, Seq<char>>)
    ensures
        read_pipeline(Err(cause), file) == Err::<Seq<char>, ErrorImage>(
            ErrorImage::EnvVar(cause),
        ),
{
}

/// A read whose environment lookup succeeded but whose file step failed —
/// the path does not exist, or cannot be opened or read — fails with the i/o
/// error wrapping that cause.
pub proof fn lemma_unopenable_path_fails(path: Seq<char>, cause: Seq<char>)
    ensures
        read_pipeline(Ok(path), Err(cause)) == Err::<Seq<char>, ErrorImage>(
            ErrorImage::Io(cause),
        ),
{
}

/// A read whose two steps both succeeded returns the file's text exactly as
/// the file step reported it, character for character, unmodified.
pub proof fn lemma_success_returns_text_verbatim(path: Seq<char>, text: Seq<char>)
    ensures
        read_pipeline(Ok(path), Ok(text)) == Ok::<Seq<char>, ErrorImage>(text),
{
}

/// The pipeline decides by the step outcomes alone: two reads that observe
/// the same environment lookup and the same file outcome decide alike.
pub proof fn lemma_read_idempotent(
    first_lookup: Result<Seq<char>, Seq<char>>,
    first_file: Result<Seq<char>, Seq<char>>,
    second_lookup: Result<Seq<char>, Seq<char>>,
    second_file: Result<Seq<char>, Seq<char>>,
)
    requires
        first_lookup == second_lookup,
        first_file == second_file,
    ensures
        read_pipeline(first_lookup, first_file) == read_pipeline(second_lookup, second_file),
{
}

} // verus!
