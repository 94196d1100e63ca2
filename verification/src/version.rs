//! Protocol version negotiation: which A2A protocol version a request speaks.

use crate::text::{chars_of, leading_ws, lemma_trim_end_keeps, lemma_trim_end_prefix, str_eq, trim, trim_end};
use axum::http::HeaderMap;
use axum::http::HeaderValue;
use vstd::prelude::*;

verus! {

#[verifier::external_type_specification]
#[verifier::external_body]
#[verifier::reject_recursive_types(T)]
pub struct ExHeaderMap<T>(HeaderMap<T>);

#[verifier::external_type_specification]
#[verifier::external_body]
pub struct ExHeaderValue(HeaderValue);

/// For each header name held by the map (in its lowercase form), the bytes of
/// the first value stored under that name.
pub uninterp spec fn header_first_values(headers: HeaderMap) -> Map<Seq<char>, Seq<u8>>;

/// A header name made of lowercase ASCII letters, digits and `-`.
pub open spec fn is_lowercase_header_name(name: Seq<char>) -> bool {
    &&& name.len() > 0
    &&& forall|i: int|
        0 <= i < name.len() ==> {
            let c = #[trigger] name[i];
            ('a' <= c && c <= 'z') || ('0' <= c && c <= '9') || c == '-'
        }
}

/// Calls `HeaderMap::get` and hands out the bytes of the value found
/// (`HeaderValue::as_bytes`). For a name that is already lowercase, `get`
/// returns the first value stored under that name, or `None` when the name is
/// absent.
#[verifier::external_body]
fn header_value_bytes(headers: &HeaderMap, name: &str) -> (r: Option<Vec<u8>>)
    requires
        is_lowercase_header_name(name@),
    ensures
        r is Some <==> header_first_values(*headers).contains_key(name@),
        r matches Some(b) ==> b@ == header_first_values(*headers)[name@],
{
    headers.get(name).map(|v: &HeaderValue| v.as_bytes().to_vec())
}

/// The name of the header that selects the protocol version explicitly.
pub open spec fn version_header_name() -> Seq<char> {
    seq!['a', '2', 'a', '-', 'p', 'r', 'o', 't', 'o', 'c', 'o', 'l', '-', 'v', 'e', 'r', 's', 'i', 'o', 'n']
}

/// A header value byte that `HeaderValue::to_str` accepts: visible ASCII or tab.
pub open spec fn is_visible_ascii(b: u8) -> bool {
    (32 <= b && b < 127) || b == 9
}

/// The text of a header value, as `HeaderValue::to_str` gives it: `None` unless
/// every byte is visible ASCII or a tab.
pub open spec fn header_text(bytes: Seq<u8>) -> Option<Seq<char>> {
    if forall|i: int| 0 <= i < bytes.len() ==> is_visible_ascii(#[trigger] bytes[i]) {
        Some(bytes.map_values(|b: u8| b as char))
    } else {
        None
    }
}

/// Detected A2A protocol version.
#[derive(Debug, Clone, Copy, PartialEq, Eq, Structural)]
pub enum A2AVersion {
    /// Draft / 0.2.x
    V0,
    /// v1.0.0-rc
    V1,
}

/// Version named by a version string: `V0` when the trimmed text starts with
/// `0.`, else `V1`.
pub open spec fn version_of_text(s: Seq<char>) -> A2AVersion {
    let t = trim(s);
    if t.len() >= 2 && t[0] == '0' && t[1] == '.' {
        A2AVersion::V0
    } else {
        A2AVersion::V1
    }
}

/// Version implied by a JSON-RPC method name: the slash-separated v0 names
/// give `V0`; every other name, known v1 names included, gives `V1`.
pub open spec fn version_of_method(m: Seq<char>) -> A2AVersion {
    if m == "message/send"@ || m == "tasks/get"@ || m == "tasks/cancel"@ {
        A2AVersion::V0
    } else {
        A2AVersion::V1
    }
}

/// Version chosen from the version header's bytes (if present) and the
/// method name (if any): a readable header wins, then the method, then `V1`.
pub open spec fn detect_version(header: Option<Seq<u8>>, method: Option<Seq<char>>) -> A2AVersion {
    match header {
        Some(b) if header_text(b) is Some => version_of_text(header_text(b)->0),
        _ => match method {
            Some(m) => version_of_method(m),
            None => A2AVersion::V1,
        },
    }
}

/// A readable version header decides alone, whatever the method; without a
/// header or method the version is v1.0.0-rc.
pub proof fn law_header_takes_priority(
    bytes: Seq<u8>,
    method: Option<Seq<char>>,
    other: Option<Seq<char>>,
)
    ensures
        header_text(bytes) is Some ==> detect_version(Some(bytes), method) == detect_version(
            Some(bytes),
            other,
        ),
        detect_version(None, None) == A2AVersion::V1,
        detect_version(None, method) == match method {
            Some(m) => version_of_method(m),
            None => A2AVersion::V1,
        },
{
}

/// Version chosen from a character sequence, as `version_of_text`.
fn version_of_chars(s: &Vec<char>) -> (r: A2AVersion)
    ensures
        r == version_of_text(s@),
{
    let n = leading_ws(s);
    let ghost t = s@.skip(n as int);
    proof {
        lemma_trim_end_prefix(t);
    }
    if n < s.len() && 1 < s.len() - n && s[n] == '0' && s[n + 1] == '.' {
        proof {
            assert(t[1] == s@[n + 1]);
            lemma_trim_end_keeps(t, 1);
            let k = trim_end(t).len() as int;
            assert(trim_end(t)[0] == t.take(k)[0]);
            assert(trim_end(t)[1] == t.take(k)[1]);
        }
        A2AVersion::V0
    } else {
        proof {
            let k = trim_end(t).len() as int;
            if k >= 2 {
                assert(trim_end(t)[0] == t.take(k)[0]);
                assert(trim_end(t)[1] == t.take(k)[1]);
                assert(t[0] == s@[n as int]);
                assert(t[1] == s@[n + 1]);
            }
        }
        A2AVersion::V1
    }
}

impl A2AVersion {
    /// Detect the version from request headers and/or the JSON-RPC method.
    ///
    /// Priority: the `A2A-Protocol-Version` header when its value is readable
    /// text; then the method name; then v1.0.0-rc.
    pub fn detect(headers: &HeaderMap, method: Option<&str>) -> (r: A2AVersion)
        ensures
            r == detect_version(
                header_first_values(*headers).get(version_header_name()),
                match method {
                    Some(m) => Some(m@),
                    None => None,
                },
            ),
    {
        let name = "a2a-protocol-version";
        proof {
            reveal_strlit("a2a-protocol-version");
            assert(name@ =~= version_header_name());
        }
        if let Some(bytes) = header_value_bytes(headers, name) {
            if let Some(text) = ascii_text(&bytes) {
                return version_of_chars(&text);
            }
        }
        match method {
            Some(m) => Self::from_method_name(m),
            None => A2AVersion::V1,
        }
    }

    /// Parse a version string (e.g. "0.2.1", "1.0.0-rc", "1.0.0"): `V0` when
    /// it starts with `0.` once trimmed, otherwise `V1`.
    pub fn from_version_string(version: &str) -> (r: A2AVersion)
        ensures
            r == version_of_text(version@),
    {
        let chars = chars_of(version);
        version_of_chars(&chars)
    }

    /// Infer the version from a JSON-RPC method name.
    ///
    /// v0 methods: `message/send`, `tasks/get`, `tasks/cancel`;
    /// v1 methods (`SendMessage`, `GetTask`, `CancelTask`, `ListTasks`) and
    /// unknown methods give v1.
    pub fn from_method_name(method: &str) -> (r: A2AVersion)
        ensures
            r == version_of_method(method@),
    {
        if str_eq(method, "message/send") || str_eq(method, "tasks/get") || str_eq(
            method,
            "tasks/cancel",
        ) {
            A2AVersion::V0
        } else {
            A2AVersion::V1
        }
    }
}

/// The text of header value bytes, as `header_text`.
fn ascii_text(bytes: &Vec<u8>) -> (r: Option<Vec<char>>)
    ensures
        match r {
            Some(t) => header_text(bytes@) == Some(t@),
            None => header_text(bytes@) is None,
        },
{
    let mut out: Vec<char> = Vec::new();
    let mut i: usize = 0;
    while i < bytes.len()
        invariant
            i <= bytes@.len(),
            out@ == bytes@.take(i as int).map_values(|b: u8| b as char),
            forall|j: int| 0 <= j < i ==> is_visible_ascii(#[trigger] bytes@[j]),
        decreases bytes@.len() - i,
    {
        let b = bytes[i];
        if !((32 <= b && b < 127) || b == 9) {
            return None;
        }
        out.push(b as char);
        assert(bytes@.take(i + 1).map_values(|b: u8| b as char) =~= out@);
        i += 1;
    }
    assert(bytes@.take(bytes@.len() as int) =~= bytes@);
    Some(out)
}

} // verus!
