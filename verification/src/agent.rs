//! How a client names itself to a registry: by its `User-Agent` header,
//! which carries the application's name and the contact address.

use vstd::prelude::*;
use vstd::string::StringExecFns;

verus! {

/// `mailto:`, the token that opens a contact address.
pub open spec fn mailto_token() -> Seq<char> {
    "mailto:"@
}

/// The `User-Agent` value for an application name and a contact address:
/// `<agent> mailto:<address>`, or the one of the two that is there.
pub open spec fn user_agent_of(agent: Option<Seq<char>>, mailto: Option<Seq<char>>) -> Option<
    Seq<char>,
> {
    match (agent, mailto) {
        (Some(a), Some(m)) => Some(a + " "@ + mailto_token() + m),
        (Some(a), None) => Some(a),
        (None, Some(m)) => Some(mailto_token() + m),
        (None, None) => None,
    }
}

/// The view of an optional string slice.
pub open spec fn view_of(text: Option<&str>) -> Option<Seq<char>> {
    match text {
        Some(t) => Some(t@),
        None => None,
    }
}

/// The view of an optional string.
pub open spec fn text_of(text: Option<String>) -> Option<Seq<char>> {
    match text {
        Some(t) => Some(t@),
        None => None,
    }
}

/// Builds the `User-Agent` value, as [`user_agent_of`] defines it.
pub fn user_agent(agent: Option<&str>, mailto: Option<&str>) -> (header: Option<String>)
    ensures
        text_of(header) == user_agent_of(view_of(agent), view_of(mailto)),
{
    match (agent, mailto) {
        (Some(a), Some(m)) => {
            let mut header = String::from_str(a);
            header.append(" ");
            header.append("mailto:");
            header.append(m);
            Some(header)
        },
        (Some(a), None) => Some(String::from_str(a)),
        (None, Some(m)) => {
            let mut header = String::from_str("mailto:");
            header.append(m);
            Some(header)
        },
        (None, None) => None,
    }
}

} // verus!
