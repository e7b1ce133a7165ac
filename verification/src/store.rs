//! Read-or-create file access: a missing file is an initialization
//! trigger, not an error. The file system itself is driven by the
//! caller; this module decides, from the outcome of each step, whether
//! the access is finished, what it returns, and what is done next.

use vstd::prelude::*;
use vstd::string::*;

verus! {

/// Why a read-or-create access failed.
#[derive(Clone, Debug, PartialEq, Eq)]
pub enum StoreError {
    /// A missing ancestor directory could not be created.
    DirectoryCreateFailed(String),
    /// The initial content could not be written.
    WriteFailed(String),
    /// The file exists but could not be read.
    ReadFailed(String),
}

/// The outcome of attempting to read the file as text.
#[derive(Clone, Debug, PartialEq, Eq)]
pub enum ReadOutcome {
    /// The file exists; its text is attached.
    Content(String),
    /// The file does not exist.
    Missing,
    /// The read failed for any other reason, with its description.
    Failed(String),
}

/// What a read-or-create access does after the read attempt.
#[derive(Debug, PartialEq, Eq)]
pub enum StorePlan {
    /// The access is finished with this result.
    Finished(Result<String, StoreError>),
    /// The file is missing: its ancestor directories are to be created
    /// and this initial content written.
    CreateThenWrite(String),
}

/// What a read-or-create access does after directory creation.
#[derive(Clone, Debug, PartialEq, Eq)]
pub enum WritePlan {
    /// The access is finished with this error; nothing is written.
    Fail(StoreError),
    /// This initial content is to be written to the file.
    Write(String),
}

pub open spec fn spec_plan_after_read(outcome: ReadOutcome, initial: String) -> StorePlan {
    match outcome {
        ReadOutcome::Content(data) => StorePlan::Finished(Ok(data)),
        ReadOutcome::Missing => StorePlan::CreateThenWrite(initial),
        ReadOutcome::Failed(detail) => StorePlan::Finished(Err(StoreError::ReadFailed(detail))),
    }
}

pub open spec fn spec_plan_after_create(create_error: Option<String>, initial: String) -> WritePlan {
    match create_error {
        Some(detail) => WritePlan::Fail(StoreError::DirectoryCreateFailed(detail)),
        None => WritePlan::Write(initial),
    }
}

pub open spec fn spec_finish_after_write(write_error: Option<String>, initial: String) -> Result<
    String,
    StoreError,
> {
    match write_error {
        Some(detail) => Err(StoreError::WriteFailed(detail)),
        None => Ok(initial),
    }
}

/// The result of a whole read-or-create access, given the outcome of
/// each file-system step its caller performs: the read attempt, then —
/// only when the file was missing — directory creation and the write
/// of the initial content.
pub open spec fn spec_read_or_create(
    outcome: ReadOutcome,
    create_error: Option<String>,
    write_error: Option<String>,
    initial: String,
) -> Result<String, StoreError> {
    match spec_plan_after_read(outcome, initial) {
        StorePlan::Finished(r) => r,
        StorePlan::CreateThenWrite(content) => match spec_plan_after_create(
            create_error,
            content,
        ) {
            WritePlan::Fail(e) => Err(e),
            WritePlan::Write(content2) => spec_finish_after_write(write_error, content2),
        },
    }
}

/// The content a missing file is initialized with: the supplied default,
/// or the empty string when none was supplied.
pub fn initial_content(default_content: Option<String>) -> (r: String)
    ensures
        (match default_content {
            Some(content) => r == content,
            None => r@ == Seq::<char>::empty(),
        }),
{
    match default_content {
        Some(content) => content,
        None => String::new(),
    }
}

/// Decides what follows the read attempt: existing content is returned
/// verbatim, a missing file leads to creating its ancestor directories
/// and writing the initial content, and any other read failure is
/// surfaced as a read error with nothing created or written.
pub fn plan_after_read(outcome: ReadOutcome, initial: String) -> (p: StorePlan)
    ensures
        p == spec_plan_after_read(outcome, initial),
{
    match outcome {
        ReadOutcome::Content(data) => StorePlan::Finished(Ok(data)),
        ReadOutcome::Missing => StorePlan::CreateThenWrite(initial),
        ReadOutcome::Failed(detail) => StorePlan::Finished(Err(StoreError::ReadFailed(detail))),
    }
}

/// Decides what follows directory creation for a missing file: a
/// failure is surfaced as a directory-creation error and nothing is
/// written; otherwise the initial content is to be written.
pub fn plan_after_create(create_error: Option<String>, initial: String) -> (p: WritePlan)
    ensures
        p == spec_plan_after_create(create_error, initial),
{
    match create_error {
        Some(detail) => WritePlan::Fail(StoreError::DirectoryCreateFailed(detail)),
        None => WritePlan::Write(initial),
    }
}

/// Decides the final result once the write of the initial content was
/// attempted: success returns exactly the content written; a failure is
/// surfaced as a write error.
pub fn finish_after_write(write_error: Option<String>, initial: String) -> (r: Result<
    String,
    StoreError,
>)
    ensures
        r == spec_finish_after_write(write_error, initial),
{
    match write_error {
        Some(detail) => Err(StoreError::WriteFailed(detail)),
        None => Ok(initial),
    }
}

/// Law: when the file is missing and both directory creation and the
/// write succeed, the access returns exactly the initial content — and
/// a second access that then reads that content back returns it
/// unchanged, whatever default it is given.
pub proof fn lemma_create_then_reread(
    initial: String,
    create_error2: Option<String>,
    write_error2: Option<String>,
    initial2: String,
)
    ensures
        spec_read_or_create(ReadOutcome::Missing, None, None, initial) == Ok::<
            String,
            StoreError,
        >(initial),
        spec_read_or_create(
            ReadOutcome::Content(initial),
            create_error2,
            write_error2,
            initial2,
        ) == Ok::<String, StoreError>(initial),
{
}

/// Law: when the file exists, the access returns its content verbatim,
/// whatever the default is and whatever the other steps would report;
/// no directory creation and no write is even planned.
pub proof fn lemma_existing_content_verbatim(
    content: String,
    create_error: Option<String>,
    write_error: Option<String>,
    initial: String,
)
    ensures
        spec_read_or_create(ReadOutcome::Content(content), create_error, write_error, initial)
            == Ok::<String, StoreError>(content),
        spec_plan_after_read(ReadOutcome::Content(content), initial) == StorePlan::Finished(
            Ok::<String, StoreError>(content),
        ),
{
}

/// Law: when an ancestor directory cannot be created, the access fails
/// with a directory-creation error carrying the failure's description,
/// and no write is planned, so no partial file is left behind.
pub proof fn lemma_create_failure_writes_nothing(
    detail: String,
    write_error: Option<String>,
    initial: String,
)
    ensures
        spec_read_or_create(ReadOutcome::Missing, Some(detail), write_error, initial) == Err::<
            String,
            StoreError,
        >(StoreError::DirectoryCreateFailed(detail)),
        spec_plan_after_create(Some(detail), initial) == WritePlan::Fail(
            StoreError::DirectoryCreateFailed(detail),
        ),
{
}

/// The rendering of a directory-creation failure.
pub open spec fn dir_create_failed_text(detail: Seq<char>) -> Seq<char> {
    "failed to create directory: "@ + detail
}

/// The rendering of a write failure.
pub open spec fn write_failed_text(detail: Seq<char>) -> Seq<char> {
    "failed to write file: "@ + detail
}

/// The rendering of a read failure.
pub open spec fn read_failed_text(detail: Seq<char>) -> Seq<char> {
    "failed to read file: "@ + detail
}

impl StoreError {
    /// A human-readable description of the error, naming the step that
    /// failed and the underlying description.
    pub fn message(&self) -> (r: String)
        ensures
            (match self {
                StoreError::DirectoryCreateFailed(detail) => r@ == dir_create_failed_text(detail@),
                StoreError::WriteFailed(detail) => r@ == write_failed_text(detail@),
                StoreError::ReadFailed(detail) => r@ == read_failed_text(detail@),
            }),
    {
        match self {
            StoreError::DirectoryCreateFailed(detail) => {
                let mut out = String::from_str("failed to create directory: ");
                out.append(detail.as_str());
                out
            },
            StoreError::WriteFailed(detail) => {
                let mut out = String::from_str("failed to write file: ");
                out.append(detail.as_str());
                out
            },
            StoreError::ReadFailed(detail) => {
                let mut out = String::from_str("failed to read file: ");
                out.append(detail.as_str());
                out
            },
        }
    }
}

} // verus!
