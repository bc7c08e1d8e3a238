//! Shell-open a file or folder: first in the extended-length path form
//! (long UNC / beyond MAX_PATH), then as given.

use vstd::prelude::*;

use crate::text::{push_str, string_of};

verus! {

/// What one `ShellExecuteExW("open", ...)` attempt is handed.
pub struct ShellRequest {
    pub file: String,
    /// The working directory, only when there is one.
    pub directory: Option<String>,
}

pub open spec fn directory_spec(workdir: Option<Seq<char>>) -> Option<Seq<char>> {
    match workdir {
        Some(d) => if d.len() > 0 {
            Some(d)
        } else {
            None
        },
        None => None,
    }
}

pub open spec fn opt_str_view(o: Option<&str>) -> Option<Seq<char>> {
    match o {
        Some(s) => Some(s@),
        None => None,
    }
}

pub open spec fn opt_string_view(o: Option<String>) -> Option<Seq<char>> {
    match o {
        Some(s) => Some(s@),
        None => None,
    }
}

/// The request for one attempt, from the file and folder in the attempt's
/// path form: none (the attempt fails without a call) when the file text is
/// empty; an empty folder is left out.
pub fn shell_request(file: &str, workdir: Option<&str>) -> (r: Option<ShellRequest>)
    ensures
        r is Some <==> file@.len() > 0,
        r matches Some(q) ==> q.file@ == file@ && opt_string_view(q.directory) == directory_spec(
            opt_str_view(workdir),
        ),
{
    if file.is_empty() {
        return None;
    }
    let directory = match workdir {
        Some(d) => if d.is_empty() {
            None
        } else {
            Some(string_of(d))
        },
        None => None,
    };
    Some(ShellRequest { file: string_of(file), directory })
}

/// `"ShellExecute failed for <file>"`.
pub open spec fn shell_error_spec(file: Seq<char>) -> Seq<char> {
    "ShellExecute failed for "@ + file
}

/// Result of opening `file`: success when the extended-form attempt or, after
/// it failed, the plain attempt succeeded; otherwise the error text.
pub fn shell_open(file_display: &str, extended_ok: bool, plain_ok: bool) -> (r: Result<(), String>)
    ensures
        r is Ok <==> (extended_ok || plain_ok),
        r matches Err(m) ==> m@ == shell_error_spec(file_display@),
{
    if extended_ok || plain_ok {
        return Ok(());
    }
    let mut m = String::new();
    push_str(&mut m, "ShellExecute failed for ");
    push_str(&mut m, file_display);
    Err(m)
}

} // verus!
