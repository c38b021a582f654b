//! The status endpoint: where it is, and how it is asked.

use vstd::prelude::*;
use vstd::string::*;

verus! {

/// The seconds between two polls, unless the user asks for another interval.
pub const DEFAULT_INTERVAL: u64 = 90;

/// The name under which the endpoint is asked.
pub const USER_AGENT: &'static str = "dclone-tracker/0.1.0 https://github.com/tronje/dclone-tracker";

/// How a switch is written in the query: `1` when it is on, `2` when it is off.
pub open spec fn flag_code(flag: bool) -> Seq<char> {
    if flag {
        "1"@
    } else {
        "2"@
    }
}

/// The address that answers for a realm.
pub open spec fn url_spec(ladder: bool, hardcore: bool) -> Seq<char> {
    "https://diablo2.io/dclone_api.php?ladder="@ + flag_code(ladder) + "&hc="@ + flag_code(hardcore)
}

/// Builds the address to ask for the ladder or non-ladder, hardcore or
/// softcore realm.
pub fn build_url(ladder: bool, hardcore: bool) -> (url: String)
    ensures
        url@ == url_spec(ladder, hardcore),
{
    let mut url = String::from_str("https://diablo2.io/dclone_api.php?ladder=");
    url.append(if ladder { "1" } else { "2" });
    url.append("&hc=");
    url.append(if hardcore { "1" } else { "2" });
    url
}

} // verus!
