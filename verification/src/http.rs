//! Checks and formatting used at the web-facing edge of the installer. The
//! transfers themselves are performed by the host around the library.

use vstd::prelude::*;

use crate::strutil::spec_starts_with;
use crate::strutil::str_starts_with;

verus! {

/// Asserts that a URL is valid HTTPS, else returns an error.
pub fn assert_ssl(url: &str) -> (r: Result<(), String>)
    ensures
        r is Ok <==> spec_starts_with(url@, "https://"@),
        r matches Err(e) ==> e@ == "Specified URL was not https"@,
{
    if str_starts_with(url, "https://") {
        Ok(())
    } else {
        Err(String::from_str("Specified URL was not https"))
    }
}

/// Encapsulates JSON as an injectable Javascript script.
pub fn encapsulate_json(field_name: &str, json: &str) -> (r: String)
    ensures
        r@ == "var "@ + field_name@ + " = "@ + json@ + ";"@,
{
    let mut out = String::from_str("var ");
    out.append(field_name);
    out.append(" = ");
    out.append(json);
    out.append(";");
    out
}

} // verus!
