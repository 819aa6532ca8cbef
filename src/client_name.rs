//! The name under which the client registers with the server.

use vstd::prelude::*;

verus! {

/// The client name used when the program's own file name is not known.
pub open spec fn default_name() -> Seq<char> {
    "jack_notification_rs"@
}

/// The client name: the program's own file name when it is known, else a
/// fixed default.
pub fn get_name(exe_name: Option<String>) -> (r: String)
    ensures
        r@ == match exe_name {
            Some(name) => name@,
            None => default_name(),
        },
{
    match exe_name {
        Some(name) => name,
        None => String::from_str("jack_notification_rs"),
    }
}

} // verus!
