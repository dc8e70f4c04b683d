//! The name of the host the process runs on.

use vstd::prelude::*;

verus! {

/// The text used when the host name cannot be read.
pub open spec fn unknown_host() -> Seq<char> {
    "<UNKNOWN_HOST>"@
}

/// The system's host name in its `Debug` rendering, or `None` when it
/// cannot be read.
///
/// Calls `hostname::get()` (hostname 0.3) and renders a successful result
/// with `format!("{:?}", ..)`. Which name comes back depends on the
/// machine, so only its form is claimed: the `Debug` rendering of an
/// `OsString` is the name quoted, so it starts and ends with `"`.
#[verifier::external_body]
fn system_hostname() -> (r: Option<String>)
    ensures
        r matches Some(s) ==> s@.len() >= 2 && s@[0] == '"' && s@.last() == '"',
{
    match ::hostname::get() {
        Ok(name) => Some(format!("{:?}", name)),
        Err(_) => None,
    }
}

/// The host name to report given the outcome of reading it: the name that
/// was read, or `<UNKNOWN_HOST>` when reading failed.
pub fn hostname_or_unknown(lookup: Option<String>) -> (name: String)
    ensures
        name@ == match lookup {
            Some(found) => found@,
            None => unknown_host(),
        },
        lookup is None ==> name@ == "<UNKNOWN_HOST>"@,
{
    match lookup {
        Some(found) => found,
        None => String::from_str("<UNKNOWN_HOST>"),
    }
}

/// The host name of this machine, read afresh, in its `Debug` rendering
/// (quoted), or `<UNKNOWN_HOST>` when it cannot be read: the result of
/// [`hostname_or_unknown`] on what the system reports. Which name the
/// system reports depends on the machine, so only the result's form is
/// stated: `<UNKNOWN_HOST>`, or a quoted name. Each call reads the name
/// again; keeping one value for the life of a process is left to the
/// caller.
pub fn hostname() -> (name: String)
    ensures
        name@ == unknown_host() || (name@.len() >= 2 && name@[0] == '"' && name@.last() == '"'),
{
    hostname_or_unknown(system_hostname())
}

} // verus!
