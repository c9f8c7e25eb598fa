//! The terminal surface for builds without a terminal backend.
//!
//! Input is still validated before the absent capability is reported,
//! so callers see the same refusals in the same order as on a full
//! build.

use vstd::prelude::*;
use vstd::string::StrSliceExecFns;

verus! {

/// What opening a terminal would answer on a full build.
#[derive(Debug)]
pub struct TerminalSessionInfo {
    /// The id of the opened terminal.
    pub id: String,
}

/// The constant reason every terminal operation reports here.
pub open spec fn terminal_unsupported_message() -> Seq<char> {
    "Terminal is not available on mobile builds."@
}

/// The refusal for a terminal id that is empty or all whitespace.
pub open spec fn terminal_id_required_message() -> Seq<char> {
    "Terminal id is required"@
}

/// The whitespace characters an identifier may not consist of.
pub open spec fn is_space_char(c: char) -> bool {
    c == ' ' || c == '\t' || c == '\n' || c == '\r' || c == '\u{b}' || c == '\u{c}'
}

/// Whether a string holds nothing but whitespace.
pub open spec fn blank(s: Seq<char>) -> bool {
    forall|i: int| 0 <= i < s.len() ==> is_space_char(#[trigger] s[i])
}

/// Whether a string holds nothing but whitespace.
fn is_blank(s: &str) -> (r: bool)
    ensures
        r == blank(s@),
{
    let n = s.unicode_len();
    let mut i: usize = 0;
    while i < n
        invariant
            n == s@.len(),
            i <= n,
            forall|j: int| 0 <= j < i ==> is_space_char(#[trigger] s@[j]),
        decreases n - i,
    {
        let c = s.get_char(i);
        let space = c == ' ' || c == '\t' || c == '\n' || c == '\r' || c == '\u{b}' || c == '\u{c}';
        if !space {
            return false;
        }
        i += 1;
    }
    true
}

/// Open a terminal: a blank terminal id is refused outright, and any
/// other request reports the absent backend.
pub fn terminal_open(workspace_id: String, terminal_id: String, cols: u16, rows: u16) -> (r: Result<
    TerminalSessionInfo,
    String,
>)
    ensures
        blank(terminal_id@) ==> (r matches Err(m) && m@ == terminal_id_required_message()),
        !blank(terminal_id@) ==> (r matches Err(m) && m@ == terminal_unsupported_message()),
{
    let _ = (workspace_id, cols, rows);
    if is_blank(terminal_id.as_str()) {
        return Err(String::from_str("Terminal id is required"));
    }
    Err(String::from_str("Terminal is not available on mobile builds."))
}

/// Write to a terminal: the backend is absent.
pub fn terminal_write(workspace_id: String, terminal_id: String, data: String) -> (r: Result<
    (),
    String,
>)
    ensures
        r matches Err(m) && m@ == terminal_unsupported_message(),
{
    let _ = (workspace_id, terminal_id, data);
    Err(String::from_str("Terminal is not available on mobile builds."))
}

/// Resize a terminal: the backend is absent.
pub fn terminal_resize(workspace_id: String, terminal_id: String, cols: u16, rows: u16) -> (r:
    Result<(), String>)
    ensures
        r matches Err(m) && m@ == terminal_unsupported_message(),
{
    let _ = (workspace_id, terminal_id, cols, rows);
    Err(String::from_str("Terminal is not available on mobile builds."))
}

/// Close a terminal: the backend is absent.
pub fn terminal_close(workspace_id: String, terminal_id: String) -> (r: Result<(), String>)
    ensures
        r matches Err(m) && m@ == terminal_unsupported_message(),
{
    let _ = (workspace_id, terminal_id);
    Err(String::from_str("Terminal is not available on mobile builds."))
}

} // verus!
