//! HTTP headers as lists of names and values: reading them, and setting
//! them with the checks that the `http` crate makes.

use crate::json::{opt_json, parse_json, parsed_json, Json};
use crate::text::{chars_of, decimal_u64, joined, parse_u64};
use axum::http::{HeaderName, HeaderValue};
use vstd::prelude::*;

verus! {

/// A character that a header name may hold: a letter or digit of ASCII, or
/// one of ``! # $ % & ' * + - . ^ _ ` | ~``.
pub open spec fn is_name_char(c: char) -> bool {
    let n = c as u32;
    n == 33 || (35 <= n <= 39) || n == 42 || n == 43 || n == 45 || n == 46 || (48 <= n <= 57) || (65
        <= n <= 90) || (94 <= n <= 122) || n == 124 || n == 126
}

/// The character in lower case, where it is a capital letter of ASCII.
pub open spec fn lower_char(c: char) -> char {
    if 65 <= c as u32 <= 90 {
        ((c as u8 + 32) as u8) as char
    } else {
        c
    }
}

/// The header name of a text: the text in lower case, where it is between
/// one and 65535 characters long and every one of them may stand in a name.
pub open spec fn header_name(name: Seq<char>) -> Option<Seq<char>> {
    if 1 <= name.len() <= 65535 && (forall|i: int|
        0 <= i < name.len() ==> is_name_char(#[trigger] name[i])) {
        Some(Seq::new(name.len(), |i: int| lower_char(name[i])))
    } else {
        None
    }
}

/// `HeaderName::from_bytes`: the header name of a text, as the text that
/// `HeaderName::as_str` gives for it. A text is taken for a name where it is
/// 1 to 65535 bytes long and every byte is a name character; the name is the
/// text with the capital letters in lower case. A character beyond ASCII has
/// no byte that is a name character.
#[verifier::external_body]
fn parse_header_name(name: &str) -> (r: Option<String>)
    ensures
        r is Some <==> header_name(name@) is Some,
        r matches Some(n) ==> header_name(name@) == Some(n@),
{
    HeaderName::from_bytes(name.as_bytes()).ok().map(|n| n.as_str().to_string())
}

/// The four headers of the transport are header names.
pub proof fn lemma_transport_headers_are_names()
    ensures
        header_name("Mcp-Session-Id"@) == Some("mcp-session-id"@),
        header_name("Mcp-Protocol-Version"@) == Some("mcp-protocol-version"@),
        header_name("Dynmcp-Protocol-Method"@) == Some("dynmcp-protocol-method"@),
        header_name("Dynmcp-Protocol-Type"@) == Some("dynmcp-protocol-type"@),
{
    reveal_strlit("Mcp-Session-Id");
    reveal_strlit("mcp-session-id");
    reveal_strlit("Mcp-Protocol-Version");
    reveal_strlit("mcp-protocol-version");
    reveal_strlit("Dynmcp-Protocol-Method");
    reveal_strlit("dynmcp-protocol-method");
    reveal_strlit("Dynmcp-Protocol-Type");
    reveal_strlit("dynmcp-protocol-type");
    assert(header_name("Mcp-Session-Id"@)->0 =~= "mcp-session-id"@);
    assert(header_name("Mcp-Protocol-Version"@)->0 =~= "mcp-protocol-version"@);
    assert(header_name("Dynmcp-Protocol-Method"@)->0 =~= "dynmcp-protocol-method"@);
    assert(header_name("Dynmcp-Protocol-Type"@)->0 =~= "dynmcp-protocol-type"@);
}

/// A character that a header value may hold: a tab, or anything that is
/// neither a control character below the blank nor the delete character.
pub open spec fn is_value_char(c: char) -> bool {
    (32 <= c as u32 && c as u32 != 127) || c as u32 == 9
}

/// A text that can be a header value.
pub open spec fn valid_header_value(value: Seq<char>) -> bool {
    forall|i: int| 0 <= i < value.len() ==> is_value_char(#[trigger] value[i])
}

/// `HeaderValue::from_str`: whether the text can be a header value, which
/// it can where every byte of it is a tab or is at least 32 and not 127.
/// The bytes of a character beyond ASCII are all above 127.
#[verifier::external_body]
pub(crate) fn header_value_ok(value: &str) -> (r: bool)
    ensures
        r == valid_header_value(value@),
{
    HeaderValue::from_str(value).is_ok()
}

/// Why a header could not be set.
#[derive(Debug, PartialEq, Eq)]
pub enum HeaderError {
    /// The name is no header name.
    InvalidName(String),
    /// The value of the header of this name is no header value.
    InvalidValue(String),
}

/// What a [`HeaderError`] stands for.
pub enum HeaderFailure {
    InvalidName(Seq<char>),
    InvalidValue(Seq<char>),
}

impl View for HeaderError {
    type V = HeaderFailure;

    open spec fn view(&self) -> HeaderFailure {
        match self {
            HeaderError::InvalidName(name) => HeaderFailure::InvalidName(name@),
            HeaderError::InvalidValue(name) => HeaderFailure::InvalidValue(name@),
        }
    }
}

impl HeaderFailure {
    /// The text with which the error is reported.
    pub open spec fn message(self) -> Seq<char> {
        match self {
            HeaderFailure::InvalidName(name) => "Invalid header name '"@ + name
                + "': invalid HTTP header name"@,
            HeaderFailure::InvalidValue(name) => "Failed to create header value for '"@ + name
                + "': failed to parse header value"@,
        }
    }
}

impl HeaderError {
    pub fn message(&self) -> (r: String)
        ensures
            r@ == self@.message(),
    {
        match self {
            HeaderError::InvalidName(name) => {
                let mut text = joined("Invalid header name '", name.as_str());
                text.append("': invalid HTTP header name");
                text
            },
            HeaderError::InvalidValue(name) => {
                let mut text = joined("Failed to create header value for '", name.as_str());
                text.append("': failed to parse header value");
                text
            },
        }
    }
}

/// A list of headers, each a name and a value.
pub type HeaderList = Seq<(Seq<char>, Seq<char>)>;

/// What a list of headers stands for.
pub open spec fn list_view(headers: Seq<(String, String)>) -> HeaderList {
    Seq::new(headers.len(), |i: int| (headers[i].0@, headers[i].1@))
}

/// The first `n` headers without those of the name `name`.
pub open spec fn without(headers: HeaderList, name: Seq<char>, n: int) -> HeaderList
    decreases n,
{
    if n <= 0 || n > headers.len() {
        Seq::empty()
    } else if headers[n - 1].0 == name {
        without(headers, name, n - 1)
    } else {
        without(headers, name, n - 1).push(headers[n - 1])
    }
}

/// The headers after the header `name` is set to `value`: every header of
/// that name is taken out, and the new one stands at the end.
pub open spec fn with_header(headers: HeaderList, name: Seq<char>, value: Seq<char>) -> HeaderList {
    without(headers, name, headers.len() as int).push((name, value))
}

/// The headers after `name` is set to `value`, with the checks: the name
/// must be a header name, and is set in its lower case; the value must be a
/// header value.
pub open spec fn set_checked(headers: HeaderList, name: Seq<char>, value: Seq<char>) -> Result<
    HeaderList,
    HeaderFailure,
> {
    match header_name(name) {
        None => Err(HeaderFailure::InvalidName(name)),
        Some(n) => if valid_header_value(value) {
            Ok(with_header(headers, n, value))
        } else {
            Err(HeaderFailure::InvalidValue(name))
        },
    }
}

/// The headers after the first `n` of `more` are set one after the other;
/// the first that cannot be set is reported.
pub open spec fn set_all(headers: HeaderList, more: HeaderList, n: int) -> Result<
    HeaderList,
    HeaderFailure,
>
    decreases n,
{
    if n <= 0 || n > more.len() {
        Ok(headers)
    } else {
        match set_all(headers, more, n - 1) {
            Err(e) => Err(e),
            Ok(list) => set_checked(list, more[n - 1].0, more[n - 1].1),
        }
    }
}

/// The headers as far as the first `n` of `more` could be set: up to the
/// first that is refused.
pub open spec fn set_while_ok(headers: HeaderList, more: HeaderList, n: int) -> HeaderList
    decreases n,
{
    if n <= 0 || n > more.len() {
        headers
    } else {
        match set_all(headers, more, n - 1) {
            Err(_) => set_while_ok(headers, more, n - 1),
            Ok(list) => match set_checked(list, more[n - 1].0, more[n - 1].1) {
                Ok(next) => next,
                Err(_) => list,
            },
        }
    }
}

/// Once a header cannot be set, the report stays the same however many
/// further headers there are, and so do the headers.
pub proof fn lemma_set_all_stays_failed(headers: HeaderList, more: HeaderList, i: int, n: int)
    requires
        0 < i <= n <= more.len(),
        set_all(headers, more, i) is Err,
    ensures
        set_all(headers, more, n) == set_all(headers, more, i),
        set_while_ok(headers, more, n) == set_while_ok(headers, more, i),
    decreases n - i,
{
    if i < n {
        lemma_set_all_stays_failed(headers, more, i, n - 1);
    }
}

/// Sets headers on a list, with the checks that the `http` crate makes of
/// names and values.
#[derive(Debug, PartialEq, Eq)]
pub struct HeaderBuilder {
    pub headers: Vec<(String, String)>,
}

impl HeaderBuilder {
    pub fn new(headers: Vec<(String, String)>) -> (r: HeaderBuilder)
        ensures
            r.headers == headers,
    {
        HeaderBuilder { headers }
    }

    /// Sets a header. Nothing changes where the name or the value is
    /// refused.
    pub fn set_str(&mut self, name: &str, value: &str) -> (r: Result<(), HeaderError>)
        ensures
            match set_checked(list_view(old(self).headers@), name@, value@) {
                Ok(list) => r is Ok && list_view(final(self).headers@) == list,
                Err(e) => r matches Err(f) && f@ == e && final(self).headers == old(self).headers,
            },
    {
        let lower = match parse_header_name(name) {
            Some(lower) => lower,
            None => {
                return Err(HeaderError::InvalidName(name.to_string()));
            },
        };
        if !header_value_ok(value) {
            return Err(HeaderError::InvalidValue(name.to_string()));
        }
        let ghost before = list_view(self.headers@);
        let mut kept: Vec<(String, String)> = Vec::new();
        let mut i: usize = 0;
        assert(list_view(kept@) =~= Seq::empty());
        while i < self.headers.len()
            invariant
                i <= self.headers@.len(),
                before == list_view(self.headers@),
                list_view(kept@) == without(before, lower@, i as int),
            decreases self.headers@.len() - i,
        {
            if *self.headers[i].0.as_str() != *lower.as_str() {
                let ghost so_far = list_view(kept@);
                kept.push((self.headers[i].0.clone(), self.headers[i].1.clone()));
                assert(list_view(kept@) =~= so_far.push(before[i as int]));
            }
            i += 1;
        }
        let ghost so_far = list_view(kept@);
        kept.push((lower, value.to_string()));
        assert(list_view(kept@) =~= so_far.push((lower@, value@)));
        self.headers = kept;
        Ok(())
    }

    /// Sets a header where there is a value for it.
    pub fn set_optional(&mut self, name: &str, value: Option<&str>) -> (r: Result<(), HeaderError>)
        ensures
            match value {
                Some(v) => match set_checked(list_view(old(self).headers@), name@, v@) {
                    Ok(list) => r is Ok && list_view(final(self).headers@) == list,
                    Err(e) => r matches Err(f) && f@ == e && final(self).headers == old(
                        self,
                    ).headers,
                },
                None => r is Ok && final(self).headers == old(self).headers,
            },
    {
        match value {
            Some(v) => self.set_str(name, v),
            None => Ok(()),
        }
    }

    /// Sets the headers of a list one after the other, up to the first that
    /// is refused; those before it stay set.
    pub fn set_multiple(&mut self, headers: &Vec<(String, String)>) -> (r: Result<(), HeaderError>)
        ensures
            match set_all(list_view(old(self).headers@), list_view(headers@), headers@.len() as int) {
                Ok(list) => r is Ok && list_view(final(self).headers@) == list,
                Err(e) => r matches Err(f) && f@ == e,
            },
            list_view(final(self).headers@) == set_while_ok(
                list_view(old(self).headers@),
                list_view(headers@),
                headers@.len() as int,
            ),
    {
        let ghost start = list_view(self.headers@);
        let ghost more = list_view(headers@);
        let mut i: usize = 0;
        while i < headers.len()
            invariant
                i <= headers@.len(),
                more == list_view(headers@),
                start == list_view(old(self).headers@),
                set_all(start, more, i as int) == Ok::<HeaderList, HeaderFailure>(
                    list_view(self.headers@),
                ),
                set_while_ok(start, more, i as int) == list_view(self.headers@),
            decreases headers@.len() - i,
        {
            match self.set_str(headers[i].0.as_str(), headers[i].1.as_str()) {
                Ok(_) => {},
                Err(e) => {
                    proof {
                        lemma_set_all_stays_failed(start, more, i + 1, headers@.len() as int);
                    }
                    return Err(e);
                },
            }
            i += 1;
        }
        Ok(())
    }
}

/// The value of the first among the headers from position `from` on whose
/// name is `name`.
pub open spec fn first_value(headers: HeaderList, name: Seq<char>, from: int) -> Option<Seq<char>>
    decreases headers.len() - from,
{
    if from < 0 || from >= headers.len() {
        None
    } else if headers[from].0 == name {
        Some(headers[from].1)
    } else {
        first_value(headers, name, from + 1)
    }
}

/// A visible ASCII character, a blank or a tab.
pub open spec fn is_visible_char(c: char) -> bool {
    (32 <= c as u32 && (c as u32) < 127) || c as u32 == 9
}

/// A text of visible ASCII characters, blanks and tabs.
pub open spec fn visible_ascii(value: Seq<char>) -> bool {
    forall|i: int| 0 <= i < value.len() ==> is_visible_char(#[trigger] value[i])
}

/// The value of the header `name`: names are compared in the lower case to
/// which a header name is brought, and a text that is no header name finds
/// nothing. Only the first header of the name counts, and it counts only
/// where its value is visible ASCII.
pub open spec fn header_value(headers: HeaderList, name: Seq<char>) -> Option<Seq<char>> {
    match header_name(name) {
        Some(n) => match first_value(headers, n, 0) {
            Some(v) => if visible_ascii(v) {
                Some(v)
            } else {
                None
            },
            None => None,
        },
        None => None,
    }
}

/// Whether a text is made of visible ASCII characters, blanks and tabs.
pub fn is_visible_ascii(value: &str) -> (r: bool)
    ensures
        r == visible_ascii(value@),
{
    let chars = chars_of(value);
    let mut i: usize = 0;
    while i < chars.len()
        invariant
            i <= chars@.len(),
            chars@ == value@,
            forall|j: int| 0 <= j < i ==> is_visible_char(#[trigger] value@[j]),
        decreases chars@.len() - i,
    {
        let n = chars[i] as u32;
        if !((n >= 32 && n < 127) || n == 9) {
            assert(!is_visible_char(value@[i as int]));
            return false;
        }
        i += 1;
    }
    true
}

/// The truth value that a text spells: `true` or `false`, and nothing else.
pub open spec fn bool_of(text: Seq<char>) -> Option<bool> {
    if text == "true"@ {
        Some(true)
    } else if text == "false"@ {
        Some(false)
    } else {
        None
    }
}

/// Reads headers from a list in which every name is in lower case.
#[derive(Debug)]
pub struct HeaderExtractor<'a>(pub &'a Vec<(String, String)>);

impl<'a> HeaderExtractor<'a> {
    pub fn new(headers: &'a Vec<(String, String)>) -> (r: HeaderExtractor<'a>)
        ensures
            r.0 == headers,
    {
        HeaderExtractor(headers)
    }

    /// The value of a header as a text.
    pub fn get_str(&self, name: &str) -> (r: Option<String>)
        ensures
            r is Some <==> header_value(list_view(self.0@), name@) is Some,
            r matches Some(v) ==> header_value(list_view(self.0@), name@) == Some(v@),
    {
        let lower = match parse_header_name(name) {
            Some(lower) => lower,
            None => {
                return None;
            },
        };
        let ghost list = list_view(self.0@);
        let mut i: usize = 0;
        while i < self.0.len()
            invariant
                i <= self.0@.len(),
                list == list_view(self.0@),
                header_name(name@) == Some(lower@),
                first_value(list, lower@, 0) == first_value(list, lower@, i as int),
            decreases self.0@.len() - i,
        {
            if *self.0[i].0.as_str() == *lower.as_str() {
                if is_visible_ascii(self.0[i].1.as_str()) {
                    return Some(self.0[i].1.clone());
                }
                return None;
            }
            i += 1;
        }
        None
    }

    /// The value of a header as a number without sign.
    pub fn get_number(&self, name: &str) -> (r: Option<u64>)
        ensures
            r == match header_value(list_view(self.0@), name@) {
                Some(v) => decimal_u64(v),
                None => None,
            },
    {
        match self.get_str(name) {
            Some(v) => parse_u64(v.as_str()),
            None => None,
        }
    }

    /// The value of a header as a truth value.
    pub fn get_bool(&self, name: &str) -> (r: Option<bool>)
        ensures
            r == match header_value(list_view(self.0@), name@) {
                Some(v) => bool_of(v),
                None => None,
            },
    {
        match self.get_str(name) {
            Some(v) => {
                if *v.as_str() == *"true" {
                    Some(true)
                } else if *v.as_str() == *"false" {
                    Some(false)
                } else {
                    None
                }
            },
            None => None,
        }
    }

    /// The value of a header as a JSON document.
    pub fn get_json(&self, name: &str) -> (r: Option<Json>)
        ensures
            opt_json(r) == match header_value(list_view(self.0@), name@) {
                Some(v) => parsed_json(v),
                None => None,
            },
    {
        match self.get_str(name) {
            Some(v) => parse_json(v.as_str()),
            None => None,
        }
    }
}

} // verus!
