//! The last in-process wait receipt.

use vstd::prelude::*;
use vstd::string::*;

verus! {

/// File that holds the last receipt.
pub const LAST_RECEIPT_FILE: &'static str = "last-wait.txt";

/// Renders the last stored receipt, or unknown where none is stored.
pub fn render_check_from(stored: Option<&str>) -> (text: String)
    ensures
        text@ == match stored {
            Some(stored) => if stored@.len() > 0 {
                "gearwit self check\n"@ + stored@
            } else {
                "gearwit self check\nlast_receipt: unknown\n"@
            },
            None => "gearwit self check\nlast_receipt: unknown\n"@,
        },
{
    match stored {
        Some(stored) => if stored.is_empty() {
            "gearwit self check\nlast_receipt: unknown\n".to_owned()
        } else {
            let mut text = "gearwit self check\n".to_owned();
            text.append(stored);
            text
        },
        None => "gearwit self check\nlast_receipt: unknown\n".to_owned(),
    }
}

/// Where the last receipt is kept, given the override and the home directory.
pub open spec fn state_path(explicit: Option<Seq<char>>, home: Option<Seq<char>>) -> Option<
    Seq<char>,
> {
    if explicit matches Some(dir) && dir.len() > 0 {
        explicit
    } else {
        match home {
            Some(home) => Some(home + "/.local/state/gearwit"@),
            None => None,
        }
    }
}

/// Directory for local last-wait state: the override where it is not empty,
/// else a place under the home directory.
pub fn state_dir(explicit: Option<&str>, home: Option<&str>) -> (dir: Option<String>)
    ensures
        match dir {
            Some(dir) => state_path(
                match explicit {
                    Some(text) => Some(text@),
                    None => None,
                },
                match home {
                    Some(text) => Some(text@),
                    None => None,
                },
            ) == Some(dir@),
            None => state_path(
                match explicit {
                    Some(text) => Some(text@),
                    None => None,
                },
                match home {
                    Some(text) => Some(text@),
                    None => None,
                },
            ) is None,
        },
{
    if let Some(dir) = explicit {
        if !dir.is_empty() {
            return Some(dir.to_owned());
        }
    }
    match home {
        Some(home) => {
            let mut dir = home.to_owned();
            dir.append("/.local/state/gearwit");
            Some(dir)
        },
        None => None,
    }
}

} // verus!
