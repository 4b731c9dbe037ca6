//! Port discovery in launch-settings documents: the JSON walk goes through
//! the trusted JSON surface, and the port is then read, verified, out of
//! the application URL string.

use vstd::prelude::*;

use crate::jsonio::{json_as_str, json_from_str, json_get};
use crate::strutil::{
    all_digits, digits_val, find_char, first_occ, last_occ, parse_u16, rfind_char, to_chars,
};
use crate::types::prefixed;

verus! {

/// The first of the semicolon-separated addresses of an application URL.
pub open spec fn https_part(s: Seq<char>) -> Seq<char> {
    s.take(first_occ(s, ';'))
}

/// What follows the last colon of the first address: its port digits.
pub open spec fn port_digits(s: Seq<char>) -> Seq<char> {
    https_part(s).skip(last_occ(https_part(s), ':') + 1)
}

/// The port of an application URL, when its first address ends in one.
pub open spec fn extract_port_spec(s: Seq<char>) -> Option<u16> {
    let d = port_digits(s);
    if d.len() > 0 && all_digits(d) && digits_val(d) <= 65535 {
        Some(digits_val(d) as u16)
    } else {
        None
    }
}

/// Reads the port out of an application URL such as
/// `https://localhost:7096;http://localhost:5260`: the digits after the
/// last colon of the part before the first semicolon.
pub fn extract_https_port(app_url: &str) -> (r: Option<u16>)
    ensures
        r == extract_port_spec(app_url@),
{
    let chars = to_chars(app_url);
    let prefix_len = match find_char(&chars, ';') {
        Some(i) => i,
        None => chars.len(),
    };
    let mut prefix: Vec<char> = Vec::new();
    let mut i: usize = 0;
    while i < prefix_len
        invariant
            prefix_len <= chars@.len(),
            i <= prefix_len,
            prefix@ == chars@.take(prefix_len as int).take(i as int),
        decreases prefix_len - i,
    {
        prefix.push(chars[i]);
        proof {
            assert(prefix@ =~= chars@.take(prefix_len as int).take(i + 1));
        }
        i += 1;
    }
    proof {
        assert(chars@.take(prefix_len as int).take(prefix_len as int) =~= chars@.take(
            prefix_len as int,
        ));
        assert(prefix@ == https_part(app_url@));
    }
    let start = match rfind_char(&prefix, ':') {
        Some(i) => i + 1,
        None => 0,
    };
    let mut digits: Vec<char> = Vec::new();
    let mut j: usize = start;
    while j < prefix.len()
        invariant
            start <= prefix@.len(),
            start <= j <= prefix@.len(),
            digits@ == prefix@.skip(start as int).take(j - start),
        decreases prefix@.len() - j,
    {
        digits.push(prefix[j]);
        proof {
            assert(digits@ =~= prefix@.skip(start as int).take(j + 1 - start));
        }
        j += 1;
    }
    proof {
        assert(prefix@.skip(start as int).take(prefix@.len() - start) =~= prefix@.skip(
            start as int,
        ));
        assert(digits@ == port_digits(app_url@));
    }
    parse_u16(&digits)
}

/// Reads the configured port of a service out of the text of its
/// launch-settings document: the `applicationUrl` of the `https` profile
/// carries it. The JSON walk is outside work; which port a given URL
/// denotes is fixed by `extract_port_spec`.
pub fn port_from_launch_settings(content: &str) -> (r: Result<u16, String>) {
    let parsed = match json_from_str(content) {
        Ok(v) => v,
        Err(e) => {
            let owned_err = e;
            return Err(prefixed("Failed to parse launchSettings.json: ", &owned_err));
        },
    };
    if let Some(profiles) = json_get(&parsed, "profiles") {
        if let Some(https_profile) = json_get(profiles, "https") {
            if let Some(app_url) = json_get(https_profile, "applicationUrl") {
                if let Some(url_text) = json_as_str(app_url) {
                    if let Some(port) = extract_https_port(url_text) {
                        return Ok(port);
                    }
                }
            }
        }
    }
    Err("Could not find port in launchSettings.json".to_owned())
}

} // verus!
