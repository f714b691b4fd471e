//! Validation of what the user enters for profiles and actions.

use vstd::prelude::*;
use vstd::string::*;
use vstd::utf8::encode_utf8;
use crate::error::Error;
use crate::text::{
    bounds_within, char_is_ascii_alphanumeric, char_is_hex_digit, chars_of, decimal_string,
    decimal_text, find_char, has_char, is_ascii_alphanumeric, is_hex_digit, lowercase,
    parse_decimal, parse_u64, pieces_of, split, split_bounds, to_lowercase, to_uppercase, trim,
    trim_bounds, uppercase,
};

verus! {

/// The number of bytes that `s` takes in UTF-8.
pub open spec fn utf8_len(s: Seq<char>) -> nat {
    encode_utf8(s).len()
}

/// `s` with a colon in place of each hyphen.
pub open spec fn hyphens_to_colons(s: Seq<char>) -> Seq<char> {
    s.map_values(
        |c: char|
            if c == '-' {
                ':'
            } else {
                c
            },
    )
}

/// The form in which a MAC address is kept: colons for hyphens, upper case.
pub open spec fn mac_normal_form(s: Seq<char>) -> Seq<char> {
    uppercase(hyphens_to_colons(s))
}

/// `s` is six pairs of hexadecimal digits with a colon between each two.
pub open spec fn is_mac_text(s: Seq<char>) -> bool {
    &&& s.len() == 17
    &&& forall|i: int|
        0 <= i < 17 ==> if i % 3 == 2 {
            #[trigger] s[i] == ':'
        } else {
            is_hex_digit(s[i])
        }
}

/// Tells whether `s` is six pairs of hexadecimal digits with a colon between each two.
pub fn check_mac_text(s: &str) -> (r: bool)
    ensures
        r == is_mac_text(s@),
{
    let chars: Vec<char> = chars_of(s);
    if chars.len() != 17 {
        return false;
    }
    let mut i: usize = 0;
    while i < 17
        invariant
            i <= 17,
            chars@ == s@,
            chars@.len() == 17,
            forall|j: int|
                0 <= j < i ==> if j % 3 == 2 {
                    #[trigger] chars@[j] == ':'
                } else {
                    is_hex_digit(chars@[j])
                },
        decreases 17 - i,
    {
        let c: char = chars[i];
        let good: bool = if i % 3 == 2 {
            c == ':'
        } else {
            char_is_hex_digit(c)
        };
        if !good {
            assert(!is_mac_text(s@)) by {
                if is_mac_text(s@) {
                    assert(if i % 3 == 2 {
                        s@[i as int] == ':'
                    } else {
                        is_hex_digit(s@[i as int])
                    });
                }
            }
            return false;
        }
        i += 1;
    }
    true
}

/// `s` with a colon in place of each hyphen.
pub fn replace_hyphens(s: &str) -> (r: String)
    ensures
        r@ == hyphens_to_colons(s@),
{
    let n: usize = s.unicode_len();
    let mut out: String = String::new();
    let mut i: usize = 0;
    proof {
        reveal_strlit(":");
    }
    while i < n
        invariant
            n == s@.len(),
            i <= n,
            ":"@ == seq![':'],
            out@ == hyphens_to_colons(s@.subrange(0, i as int)),
        decreases n - i,
    {
        if s.get_char(i) == '-' {
            out.append(":");
        } else {
            let piece: &str = s.substring_char(i, i + 1);
            assert(piece@ =~= seq![s@[i as int]]);
            out.append(piece);
        }
        assert(out@ =~= hyphens_to_colons(s@.subrange(0, i + 1)));
        i += 1;
    }
    assert(s@.subrange(0, n as int) =~= s@);
    out
}

/// Checks a MAC address, written with colons or hyphens in either letter
/// case, and returns it in normal form.
pub fn validate_mac_address(s: &str) -> (r: Result<String, Error>)
    ensures
        match r {
            Ok(mac) => mac@ == mac_normal_form(s@) && is_mac_text(mac@),
            Err(e) => !is_mac_text(mac_normal_form(s@)) && (e matches Error::InvalidMacAddress(t)
                && t@ == s@),
        },
{
    let replaced: String = replace_hyphens(s);
    let normalized: String = to_uppercase(replaced.as_str());
    if check_mac_text(normalized.as_str()) {
        Ok(normalized)
    } else {
        Err(Error::InvalidMacAddress(String::from_str(s)))
    }
}

/// Every character of `label` is an ASCII letter, a digit or a hyphen.
pub open spec fn label_chars_ok(label: Seq<char>) -> bool {
    forall|i: int|
        0 <= i < label.len() ==> is_ascii_alphanumeric(#[trigger] label[i]) || label[i] == '-'
}

/// What is wrong with one label of a host name, as the message says it;
/// `None` for a good label.
pub open spec fn label_fault(label: Seq<char>) -> Option<Seq<char>> {
    if label.len() == 0 || utf8_len(label) > 63 {
        Some("Label must be 1-63 characters: "@ + label)
    } else if !label_chars_ok(label) {
        Some("Invalid characters in label: "@ + label)
    } else if label[0] == '-' || label.last() == '-' {
        Some("Label cannot start or end with hyphen: "@ + label)
    } else {
        None
    }
}

/// The fault of the first label that has one.
pub open spec fn first_label_fault(labels: Seq<Seq<char>>) -> Option<Seq<char>>
    decreases labels.len(),
{
    if labels.len() == 0 {
        None
    } else {
        match label_fault(labels[0]) {
            Some(message) => Some(message),
            None => first_label_fault(labels.skip(1)),
        }
    }
}

/// What is wrong with a host name, as the message says it; `None` for a
/// good one: 1 to 253 bytes, cut by dots into labels of 1 to 63 letters,
/// digits and hyphens that neither start nor end with a hyphen.
pub open spec fn hostname_fault(s: Seq<char>) -> Option<Seq<char>> {
    if s.len() == 0 || utf8_len(s) > 253 {
        Some("Hostname must be 1-253 characters: "@ + s)
    } else {
        first_label_fault(split(s, '.'))
    }
}

fn check_label(label: &str) -> (r: Option<String>)
    ensures
        opt_message(r) == label_fault(label@),
{
    if label.is_empty() || label.as_bytes().len() > 63 {
        return Some(String::from_str("Label must be 1-63 characters: ").concat(label));
    }
    let chars: Vec<char> = chars_of(label);
    let mut i: usize = 0;
    while i < chars.len()
        invariant
            i <= chars@.len(),
            chars@ == label@,
            label@.len() > 0,
            utf8_len(label@) <= 63,
            forall|j: int|
                0 <= j < i ==> is_ascii_alphanumeric(#[trigger] chars@[j]) || chars@[j] == '-',
        decreases chars@.len() - i,
    {
        if !(char_is_ascii_alphanumeric(chars[i]) || chars[i] == '-') {
            assert(!label_chars_ok(label@)) by {
                if label_chars_ok(label@) {
                    assert(is_ascii_alphanumeric(label@[i as int]) || label@[i as int] == '-');
                }
            }
            return Some(String::from_str("Invalid characters in label: ").concat(label));
        }
        i += 1;
    }
    if chars[0] == '-' || chars[chars.len() - 1] == '-' {
        return Some(String::from_str("Label cannot start or end with hyphen: ").concat(label));
    }
    None
}

/// The text of an optional message.
pub open spec fn opt_message(m: Option<String>) -> Option<Seq<char>> {
    match m {
        Some(t) => Some(t@),
        None => None,
    }
}

/// Checks a host name and returns it in lower case.
pub fn validate_hostname(s: &str) -> (r: Result<String, Error>)
    ensures
        match r {
            Ok(name) => hostname_fault(s@) is None && name@ == lowercase(s@),
            Err(e) => e matches Error::InvalidHostname(m) && hostname_fault(s@) == Some(m@),
        },
{
    if s.is_empty() || s.as_bytes().len() > 253 {
        return Err(
            Error::InvalidHostname(String::from_str("Hostname must be 1-253 characters: ").concat(s)),
        );
    }
    let chars: Vec<char> = chars_of(s);
    let bounds: Vec<(usize, usize)> = split_bounds(&chars, '.');
    let ghost labels = split(s@, '.');
    let mut k: usize = 0;
    assert(labels.skip(0) =~= labels);
    while k < bounds.len()
        invariant
            k <= bounds@.len(),
            chars@ == s@,
            s@.len() > 0,
            utf8_len(s@) <= 253,
            labels == split(s@, '.'),
            bounds_within(bounds@, chars@.len()),
            pieces_of(chars@, bounds@) == labels,
            first_label_fault(labels) == first_label_fault(labels.skip(k as int)),
        decreases bounds@.len() - k,
    {
        let (a, b) = bounds[k];
        let label: &str = s.substring_char(a, b);
        assert(label@ == labels[k as int]) by {
            assert(pieces_of(chars@, bounds@)[k as int] == labels[k as int]);
        }
        assert(labels.skip(k as int)[0] == labels[k as int]);
        assert(labels.skip(k as int).skip(1) =~= labels.skip(k + 1));
        match check_label(label) {
            Some(message) => {
                return Err(Error::InvalidHostname(message));
            },
            None => {},
        }
        k += 1;
    }
    Ok(to_lowercase(s))
}

/// Checks a DNS search domain: it must be a host name.
pub fn validate_search_domain(s: &str) -> (r: Result<String, Error>)
    ensures
        match r {
            Ok(name) => hostname_fault(s@) is None && name@ == lowercase(s@),
            Err(e) => e matches Error::InvalidHostname(m) && hostname_fault(s@) == Some(m@),
        },
{
    validate_hostname(s)
}

/// Checks an MTU: it must lie between 68 and 65535.
pub fn validate_mtu(mtu: u32) -> (r: Result<u32, Error>)
    ensures
        match r {
            Ok(v) => v == mtu && 68 <= mtu <= 65535,
            Err(e) => !(68 <= mtu <= 65535) && (e matches Error::ValidationFailed(m) && m@
                == "MTU must be between 68 and 65535: "@ + decimal_text(mtu as nat)),
        },
{
    if mtu < 68 || mtu > 65535 {
        let number: String = decimal_string(mtu as u64);
        return Err(
            Error::ValidationFailed(
                String::from_str("MTU must be between 68 and 65535: ").concat(number.as_str()),
            ),
        );
    }
    Ok(mtu)
}

/// Checks a VLAN id: it must lie between 1 and 4094.
pub fn validate_vlan_id(id: u16) -> (r: Result<u16, Error>)
    ensures
        match r {
            Ok(v) => v == id && 1 <= id <= 4094,
            Err(e) => !(1 <= id <= 4094) && (e matches Error::ValidationFailed(m) && m@
                == "VLAN ID must be 1-4094: "@ + decimal_text(id as nat)),
        },
{
    if id == 0 || id > 4094 {
        let number: String = decimal_string(id as u64);
        return Err(
            Error::ValidationFailed(
                String::from_str("VLAN ID must be 1-4094: ").concat(number.as_str()),
            ),
        );
    }
    Ok(id)
}

/// Checks a profile name and returns it without the white space around it:
/// what is left must not be empty and must not take more than 100 bytes.
pub fn validate_profile_name(s: &str) -> (r: Result<String, Error>)
    ensures
        match r {
            Ok(name) => name@ == trim(s@) && name@.len() > 0 && utf8_len(name@) <= 100,
            Err(e) => e matches Error::ValidationFailed(m) && if trim(s@).len() == 0 {
                m@ == "Profile name cannot be empty"@
            } else {
                utf8_len(trim(s@)) > 100 && m@ == "Profile name must be 100 characters or less"@
            },
        },
{
    let chars: Vec<char> = chars_of(s);
    assert(chars@.subrange(0, chars@.len() as int) =~= s@);
    let (a, b) = trim_bounds(&chars, 0, chars.len());
    let trimmed: &str = s.substring_char(a, b);
    if trimmed.is_empty() {
        return Err(Error::ValidationFailed(String::from_str("Profile name cannot be empty")));
    }
    if trimmed.as_bytes().len() > 100 {
        return Err(
            Error::ValidationFailed(String::from_str("Profile name must be 100 characters or less")),
        );
    }
    Ok(String::from_str(trimmed))
}

/// Checks the form of a time zone name: not empty, with a slash in it.
pub fn validate_timezone(s: &str) -> (r: Result<String, Error>)
    ensures
        match r {
            Ok(zone) => zone@ == s@ && has_char(s@, '/'),
            Err(e) => !has_char(s@, '/') && (e matches Error::ValidationFailed(m) && m@
                == "Invalid timezone format: "@ + s@),
        },
{
    let chars: Vec<char> = chars_of(s);
    assert(chars@.subrange(0, chars@.len() as int) =~= s@);
    if find_char(&chars, 0, chars.len(), '/').is_none() {
        return Err(
            Error::ValidationFailed(String::from_str("Invalid timezone format: ").concat(s)),
        );
    }
    Ok(String::from_str(s))
}

/// The two parts of an address with prefix length, such as
/// `192.168.1.0/24`: what stands before and after its one slash.
pub open spec fn cidr_parts_of(s: Seq<char>) -> Option<(Seq<char>, Seq<char>)> {
    let parts = split(s, '/');
    if parts.len() == 2 {
        Some((parts[0], parts[1]))
    } else {
        None
    }
}

/// Cuts an address with prefix length at its slash. There must be exactly one.
pub fn cidr_parts(s: &str) -> (r: Result<(String, String), Error>)
    ensures
        match r {
            Ok(parts) => cidr_parts_of(s@) == Some((parts.0@, parts.1@)),
            Err(e) => cidr_parts_of(s@) is None && (e matches Error::InvalidIpAddress(m) && m@
                == "Invalid CIDR notation: "@ + s@),
        },
{
    let chars: Vec<char> = chars_of(s);
    let bounds: Vec<(usize, usize)> = split_bounds(&chars, '/');
    if bounds.len() != 2 {
        return Err(
            Error::InvalidIpAddress(String::from_str("Invalid CIDR notation: ").concat(s)),
        );
    }
    let (a, b) = bounds[0];
    let (c, d) = bounds[1];
    assert(pieces_of(chars@, bounds@)[0] == split(s@, '/')[0]);
    assert(pieces_of(chars@, bounds@)[1] == split(s@, '/')[1]);
    Ok((String::from_str(s.substring_char(a, b)), String::from_str(s.substring_char(c, d))))
}

/// The longest prefix that an address of the kind can have.
pub open spec fn max_prefix(is_ipv4: bool) -> nat {
    if is_ipv4 {
        32
    } else {
        128
    }
}

/// What is wrong with the prefix length written as `text`, as the message
/// says it; `None` where it is a number that the kind of address allows.
pub open spec fn prefix_fault(text: Seq<char>, is_ipv4: bool) -> Option<Seq<char>> {
    match parse_decimal(text, 255) {
        None => Some("Invalid prefix: "@ + text),
        Some(n) => if n > max_prefix(is_ipv4) {
            Some(
                "Prefix "@ + decimal_text(n) + " exceeds maximum "@ + decimal_text(
                    max_prefix(is_ipv4),
                ) + " for address type"@,
            )
        } else {
            None
        },
    }
}

/// Reads the prefix length of an address of the given kind: a number up
/// to 32 for IPv4 and up to 128 for IPv6.
pub fn cidr_prefix(text: &str, is_ipv4: bool) -> (r: Result<u8, Error>)
    ensures
        match r {
            Ok(prefix) => prefix_fault(text@, is_ipv4) is None && parse_decimal(text@, 255)
                == Some(prefix as nat),
            Err(e) => e matches Error::InvalidIpAddress(m) && prefix_fault(text@, is_ipv4)
                == Some(m@),
        },
{
    let chars: Vec<char> = chars_of(text);
    assert(chars@.subrange(0, chars@.len() as int) =~= text@);
    let prefix: u8 = match parse_u64(&chars, 0, chars.len()) {
        Some(n) => {
            if n > 255 {
                return Err(
                    Error::InvalidIpAddress(String::from_str("Invalid prefix: ").concat(text)),
                );
            }
            n as u8
        },
        None => {
            return Err(Error::InvalidIpAddress(String::from_str("Invalid prefix: ").concat(text)));
        },
    };
    let max: u8 = if is_ipv4 {
        32
    } else {
        128
    };
    if prefix > max {
        let p: String = decimal_string(prefix as u64);
        let m: String = decimal_string(max as u64);
        return Err(
            Error::InvalidIpAddress(
                String::from_str("Prefix ").concat(p.as_str()).concat(" exceeds maximum ").concat(
                    m.as_str(),
                ).concat(" for address type"),
            ),
        );
    }
    Ok(prefix)
}

} // verus!
