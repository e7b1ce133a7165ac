//! Resolution of OS-defined folder locations. The native lookup hands
//! back either a failure status or a fixed-size zero-terminated wide
//! buffer; this module turns such outcomes into validated path text or
//! into an error naming the lookup that failed.

use vstd::prelude::*;
use vstd::string::*;
use crate::codec::{decodable_wide, decode_wide_units, utf16_of};
use crate::text::{int_text, push_i32};

verus! {

/// The OS-defined start-menu folders this library resolves.
#[derive(Clone, Copy, Debug, PartialEq, Eq, Structural)]
pub enum FolderKind {
    /// The system-wide start-menu programs directory.
    CommonStartMenu,
    /// The per-user start-menu programs directory.
    UserStartMenu,
}

/// Why a folder location could not be resolved.
#[derive(Clone, Debug, PartialEq, Eq)]
pub enum FolderError {
    /// The OS lookup itself reported a failure status.
    ResolutionFailed { folder: FolderKind, status: i32 },
    /// The lookup succeeded but its buffer was not well-formed wide text.
    ConversionFailed { folder: FolderKind },
}

/// The position of the first zero unit, or the length when none occurs.
pub open spec fn nul_index(units: Seq<u16>) -> int
    decreases units.len(),
{
    if units.len() == 0 {
        0
    } else if units[0] == 0 {
        0
    } else {
        1 + nul_index(units.skip(1))
    }
}

/// The part of a zero-terminated buffer before its first zero unit.
pub open spec fn wide_contents(units: Seq<u16>) -> Seq<u16> {
    units.take(nul_index(units))
}

proof fn lemma_nul_index_is_first(units: Seq<u16>, i: int)
    requires
        0 <= i <= units.len(),
        forall|j: int| 0 <= j < i ==> units[j] != 0,
        i < units.len() ==> units[i] == 0,
    ensures
        nul_index(units) == i,
    decreases i,
{
    if units.len() == 0 {
    } else if i == 0 {
    } else {
        assert(units[0] != 0);
        lemma_nul_index_is_first(units.skip(1), i - 1);
    }
}

/// Cuts a zero-terminated wide buffer at its first zero unit.
pub fn wide_prefix_to_nul(buffer: &[u16]) -> (r: Vec<u16>)
    ensures
        r@ == wide_contents(buffer@),
{
    let n = buffer.len();
    let mut out: Vec<u16> = Vec::new();
    let mut i: usize = 0;
    while i < n
        invariant
            n == buffer@.len(),
            0 <= i <= n,
            out@ == buffer@.take(i as int),
            forall|j: int| 0 <= j < i ==> buffer@[j] != 0,
        decreases n - i,
    {
        let unit = buffer[i];
        if unit == 0 {
            proof {
                lemma_nul_index_is_first(buffer@, i as int);
            }
            return out;
        }
        out.push(unit);
        proof {
            assert(out@ =~= buffer@.take(i + 1));
        }
        i = i + 1;
    }
    proof {
        lemma_nul_index_is_first(buffer@, n as int);
        assert(out@ =~= buffer@.take(nul_index(buffer@)));
    }
    out
}

/// Turns one OS folder lookup outcome into the folder's text. A failure
/// status becomes an error naming the folder and the status; a
/// successful lookup has its buffer cut at the first zero unit and
/// decoded from wide characters. The decoding fails, blaming this
/// folder's buffer, exactly when those contents are not the wide
/// encoding of any text.
pub fn folder_text_from_lookup(folder: FolderKind, lookup: Result<Vec<u16>, i32>) -> (r: Result<
    String,
    FolderError,
>)
    ensures
        (match lookup {
            Ok(buffer) => {
                &&& (r matches Ok(text) ==> utf16_of(text@) == wide_contents(buffer@))
                &&& (r matches Err(e) ==> e == (FolderError::ConversionFailed { folder })
                    && !decodable_wide(wide_contents(buffer@)))
                &&& (decodable_wide(wide_contents(buffer@)) ==> r is Ok)
            },
            Err(status) => r == Err::<String, FolderError>(
                FolderError::ResolutionFailed { folder, status },
            ),
        }),
{
    match lookup {
        Ok(buffer) => {
            let contents = wide_prefix_to_nul(buffer.as_slice());
            match decode_wide_units(contents.as_slice()) {
                Some(text) => Ok(text),
                None => Err(FolderError::ConversionFailed { folder }),
            }
        },
        Err(status) => Err(FolderError::ResolutionFailed { folder, status }),
    }
}

/// The error for a folder lookup whose OS call reported a failure
/// status; for callers that stop at the first failed lookup and skip
/// the remaining OS calls.
pub fn lookup_failure(folder: FolderKind, status: i32) -> (e: FolderError)
    ensures
        e == (FolderError::ResolutionFailed { folder, status }),
{
    FolderError::ResolutionFailed { folder, status }
}

/// Resolves the two start-menu folders from the outcome of one OS
/// lookup each. Both lookup statuses are examined first, the
/// system-wide one before the per-user one, and a failure status is
/// returned as an error naming that lookup; only then are the buffers
/// converted, the system-wide one first, a conversion failure blaming
/// exactly the buffer that is not valid wide text. Both must succeed
/// for the pair of paths to be returned.
pub fn start_menu_paths_from_lookups(
    common: Result<Vec<u16>, i32>,
    user: Result<Vec<u16>, i32>,
) -> (r: Result<(String, String), FolderError>)
    ensures
        (common matches Err(status) ==> r == Err::<(String, String), FolderError>(
            FolderError::ResolutionFailed { folder: FolderKind::CommonStartMenu, status },
        )),
        (common is Ok ==> (user matches Err(status) ==> r == Err::<(String, String), FolderError>(
            FolderError::ResolutionFailed { folder: FolderKind::UserStartMenu, status },
        ))),
        (match r {
            Ok(texts) => {
                &&& common matches Ok(cb) && utf16_of(texts.0@) == wide_contents(cb@)
                &&& user matches Ok(ub) && utf16_of(texts.1@) == wide_contents(ub@)
            },
            Err(FolderError::ResolutionFailed { folder, status }) => {
                &&& (folder == FolderKind::CommonStartMenu ==> common == Err::<Vec<u16>, i32>(
                    status,
                ))
                &&& (folder == FolderKind::UserStartMenu ==> common is Ok && user == Err::<
                    Vec<u16>,
                    i32,
                >(status))
            },
            Err(FolderError::ConversionFailed { folder }) => {
                &&& (folder == FolderKind::CommonStartMenu ==> user is Ok && (common matches Ok(cb)
                    && !decodable_wide(wide_contents(cb@))))
                &&& (folder == FolderKind::UserStartMenu ==> (common matches Ok(cb)
                    && decodable_wide(wide_contents(cb@))) && (user matches Ok(ub)
                    && !decodable_wide(wide_contents(ub@))))
            },
        }),
        (common matches Ok(cb) && user matches Ok(ub) && decodable_wide(wide_contents(cb@))
            && decodable_wide(wide_contents(ub@)) ==> r is Ok),
{
    let common_buffer = match common {
        Ok(buffer) => buffer,
        Err(status) => {
            return Err(lookup_failure(FolderKind::CommonStartMenu, status));
        },
    };
    let user_buffer = match user {
        Ok(buffer) => buffer,
        Err(status) => {
            return Err(lookup_failure(FolderKind::UserStartMenu, status));
        },
    };
    let common_text = match folder_text_from_lookup(FolderKind::CommonStartMenu, Ok(common_buffer)) {
        Ok(text) => text,
        Err(e) => {
            return Err(e);
        },
    };
    proof {
        assert(decodable_wide(utf16_of(common_text@)));
    }
    let user_text = match folder_text_from_lookup(FolderKind::UserStartMenu, Ok(user_buffer)) {
        Ok(text) => text,
        Err(e) => {
            return Err(e);
        },
    };
    Ok((common_text, user_text))
}

/// The name of the application's own directory under the roaming
/// application-data folder.
pub open spec fn app_dir_name() -> Seq<char> {
    "ZeroLaunch-rs"@
}

pub open spec fn is_path_separator(c: char) -> bool {
    c == '\\' || c == '/'
}

/// A base path with one more segment: a backslash separator is inserted
/// unless the base is empty or already ends in a separator.
pub open spec fn joined_path(base: Seq<char>, segment: Seq<char>) -> Seq<char> {
    if base.len() == 0 {
        segment
    } else if is_path_separator(base[base.len() - 1]) {
        base + segment
    } else {
        base + seq!['\\'] + segment
    }
}

/// The application's data directory under the given roaming
/// application-data folder.
pub fn data_dir_from_appdata(app_data: &str) -> (r: String)
    ensures
        r@ == joined_path(app_data@, app_dir_name()),
{
    let n = app_data.unicode_len();
    let mut out = String::from_str(app_data);
    if n > 0 {
        let last = app_data.get_char(n - 1);
        if !(last == '\\' || last == '/') {
            out.append("\\");
            proof {
                reveal_strlit("\\");
                assert("\\"@ =~= seq!['\\']);
            }
        }
    }
    out.append("ZeroLaunch-rs");
    proof {
        assert(out@ =~= joined_path(app_data@, app_dir_name()));
    }
    out
}

/// The display name of an OS-defined folder.
pub open spec fn folder_kind_text(folder: FolderKind) -> Seq<char> {
    match folder {
        FolderKind::CommonStartMenu => "system-wide start menu"@,
        FolderKind::UserStartMenu => "per-user start menu"@,
    }
}

/// The rendering of a resolution failure: the folder's name and the
/// status code the OS reported.
pub open spec fn resolution_failed_text(folder: FolderKind, status: int) -> Seq<char> {
    "failed to resolve the "@ + folder_kind_text(folder) + " folder, status "@ + int_text(status)
}

/// The rendering of a conversion failure: the folder whose buffer was
/// not valid wide text.
pub open spec fn conversion_failed_text(folder: FolderKind) -> Seq<char> {
    "the "@ + folder_kind_text(folder) + " folder path is not valid wide text"@
}

fn folder_kind_name(folder: FolderKind) -> (r: &'static str)
    ensures
        r@ == folder_kind_text(folder),
{
    match folder {
        FolderKind::CommonStartMenu => "system-wide start menu",
        FolderKind::UserStartMenu => "per-user start menu",
    }
}

impl FolderError {
    /// A human-readable description of the error, naming the folder
    /// lookup that failed and, for a resolution failure, the status
    /// code the OS reported.
    pub fn message(&self) -> (r: String)
        ensures
            (match self {
                FolderError::ResolutionFailed { folder, status } => r@ == resolution_failed_text(
                    *folder,
                    *status as int,
                ),
                FolderError::ConversionFailed { folder } => r@ == conversion_failed_text(*folder),
            }),
    {
        match self {
            FolderError::ResolutionFailed { folder, status } => {
                let mut out = String::from_str("failed to resolve the ");
                out.append(folder_kind_name(*folder));
                out.append(" folder, status ");
                push_i32(&mut out, *status);
                proof {
                    assert(out@ =~= resolution_failed_text(*folder, *status as int));
                }
                out
            },
            FolderError::ConversionFailed { folder } => {
                let mut out = String::from_str("the ");
                out.append(folder_kind_name(*folder));
                out.append(" folder path is not valid wide text");
                proof {
                    assert(out@ =~= conversion_failed_text(*folder));
                }
                out
            },
        }
    }
}

} // verus!
