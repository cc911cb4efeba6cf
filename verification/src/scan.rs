//! Scanning of the text that the storage engine attaches to a violation of
//! its exclusion guarantee.
//!
//! The text names two keys, the one that was refused and the one that
//! stood in its way:
//!
//! ```text
//! Key (resource_id, timespan)=(R, ["S","E")) conflicts with existing key (resource_id, timespan)=(R, ["S","E")).
//! ```
//!
//! A key starts at the words `resource_id,` and `timespan)=(`, with any
//! blanks between them. The resource identifier follows and runs to the
//! first comma. Then come an opening square bracket and the two bounds of
//! the interval, each between double quotes, in which a backslash takes
//! the character after it along; a comma parts the two, and two closing
//! round brackets end the key.

use vstd::prelude::*;
use vstd::string::*;

verus! {

/// A stretch of a text: the indices from `from` up to, not including, `to`.
#[derive(Clone, Copy, Debug, PartialEq, Eq, Structural)]
pub struct Span {
    pub from: usize,
    pub to: usize,
}

/// Where the parts of one key stand in a text, and where the text goes on
/// behind the key.
#[derive(Clone, Copy, Debug, PartialEq, Eq, Structural)]
pub struct KeySpans {
    pub resource_id: Span,
    pub start: Span,
    pub end: Span,
    pub next: usize,
}

impl Span {
    /// The characters of `s` that the span covers.
    pub open spec fn of(self, s: Seq<char>) -> Seq<char> {
        s.subrange(self.from as int, self.to as int)
    }

    /// Whether the span lies inside a text of `len` characters.
    pub open spec fn within(self, len: int) -> bool {
        self.from <= self.to <= len
    }
}

impl KeySpans {
    /// Whether the key lies inside a text of `len` characters.
    pub open spec fn within(self, len: int) -> bool {
        &&& self.resource_id.within(len)
        &&& self.start.within(len)
        &&& self.end.within(len)
        &&& self.next <= len
    }
}

/// Blanks are the space, the tab, the line feed and the carriage return.
pub open spec fn is_blank(c: char) -> bool {
    c == ' ' || c == '\t' || c == '\n' || c == '\r'
}

/// Whether `word` stands in `s` at index `at`.
pub open spec fn occurs_at(s: Seq<char>, at: int, word: Seq<char>) -> bool {
    0 <= at && at + word.len() <= s.len() && s.subrange(at, at + word.len()) == word
}

/// The first index at or behind `from` that holds no blank; the length of
/// `s` where only blanks follow.
pub open spec fn skip_blanks(s: Seq<char>, from: int) -> int
    decreases s.len() - from,
{
    if 0 <= from < s.len() && is_blank(s[from]) {
        skip_blanks(s, from + 1)
    } else {
        from
    }
}

/// The index of the first comma at or behind `from`.
pub open spec fn first_comma(s: Seq<char>, from: int) -> Option<int>
    decreases s.len() - from,
{
    if from < 0 || from >= s.len() {
        None
    } else if s[from] == ',' {
        Some(from)
    } else {
        first_comma(s, from + 1)
    }
}

/// The index of the double quote that closes a quoted stretch whose
/// content starts at `from`: the first one that no backslash takes along.
pub open spec fn closing_quote(s: Seq<char>, from: int) -> Option<int>
    decreases s.len() - from,
{
    if from < 0 || from >= s.len() {
        None
    } else if s[from] == '"' {
        Some(from)
    } else if s[from] == '\\' {
        if from + 1 < s.len() {
            closing_quote(s, from + 2)
        } else {
            None
        }
    } else {
        closing_quote(s, from + 1)
    }
}

/// The content of the quoted stretch that opens at `at`, if one does.
pub open spec fn quoted_at(s: Seq<char>, at: int) -> Option<Span> {
    if 0 <= at < s.len() && s[at] == '"' {
        match closing_quote(s, at + 1) {
            Some(close) => Some(Span { from: (at + 1) as usize, to: close as usize }),
            None => None,
        }
    } else {
        None
    }
}

/// The key that starts at index `at`, if one does.
pub open spec fn key_at(s: Seq<char>, at: int) -> Option<KeySpans> {
    let name = "resource_id,"@;
    let opening = "timespan)=("@;
    if !occurs_at(s, at, name) {
        None
    } else {
        let second = skip_blanks(s, at + name.len());
        if !occurs_at(s, second, opening) {
            None
        } else {
            let resource = second + opening.len();
            match first_comma(s, resource) {
                None => None,
                Some(comma) => {
                    let bracket = skip_blanks(s, comma + 1);
                    if comma == resource || !occurs_at(s, bracket, "["@) {
                        None
                    } else {
                        match quoted_at(s, bracket + "["@.len()) {
                            None => None,
                            Some(start) => {
                                let between = start.to + 1;
                                let second_quote = skip_blanks(s, between + ","@.len());
                                if !occurs_at(s, between, ","@) {
                                    None
                                } else {
                                    match quoted_at(s, second_quote) {
                                        None => None,
                                        Some(end) => {
                                            let closing = end.to + 1;
                                            if !occurs_at(s, closing, "))"@) {
                                                None
                                            } else {
                                                Some(
                                                    KeySpans {
                                                        resource_id: Span {
                                                            from: resource as usize,
                                                            to: comma as usize,
                                                        },
                                                        start,
                                                        end,
                                                        next: (closing + "))"@.len()) as usize,
                                                    },
                                                )
                                            }
                                        },
                                    }
                                }
                            },
                        }
                    }
                },
            }
        }
    }
}

/// The first key that starts at or behind index `from`.
pub open spec fn first_key(s: Seq<char>, from: int) -> Option<KeySpans>
    decreases s.len() - from,
{
    if from < 0 || from >= s.len() {
        None
    } else if key_at(s, from) is Some {
        key_at(s, from)
    } else {
        first_key(s, from + 1)
    }
}

/// The first key of a text and the first key behind it.
pub open spec fn two_keys(s: Seq<char>) -> Option<(KeySpans, KeySpans)> {
    match first_key(s, 0) {
        Some(first) => match first_key(s, first.next as int) {
            Some(second) => Some((first, second)),
            None => None,
        },
        None => None,
    }
}

/// The characters of a text, one by one.
pub fn chars_of(text: &str) -> (chars: Vec<char>)
    ensures
        chars@ == text@,
{
    let mut chars: Vec<char> = Vec::new();
    for c in it: text.chars()
        invariant
            it.seq() == text@,
            chars@ == it.seq().take(it.index() as int),
    {
        chars.push(c);
    }
    chars
}

/// Decides `occurs_at`.
pub fn word_at(chars: &Vec<char>, at: usize, word: &str) -> (r: bool)
    ensures
        r == occurs_at(chars@, at as int, word@),
        r ==> at + word@.len() <= usize::MAX,
{
    let n = word.unicode_len();
    if at > chars.len() || n > chars.len() - at {
        return false;
    }
    let mut k: usize = 0;
    while k < n
        invariant
            k <= n,
            n == word@.len(),
            at + n <= chars@.len() <= usize::MAX,
            forall|j: int| 0 <= j < k ==> chars@[at + j] == word@[j],
        decreases n - k,
    {
        if chars[at + k] != word.get_char(k) {
            assert(chars@.subrange(at as int, at + n)[k as int] == chars@[at + k]);
            return false;
        }
        k += 1;
    }
    assert(chars@.subrange(at as int, at + n) =~= word@);
    true
}

/// Computes `skip_blanks`.
pub fn after_blanks(chars: &Vec<char>, from: usize) -> (r: usize)
    requires
        from <= chars@.len(),
    ensures
        r == skip_blanks(chars@, from as int),
        from <= r <= chars@.len(),
{
    let mut at: usize = from;
    while at < chars.len() && (chars[at] == ' ' || chars[at] == '\t' || chars[at] == '\n'
        || chars[at] == '\r')
        invariant
            from <= at <= chars@.len(),
            skip_blanks(chars@, from as int) == skip_blanks(chars@, at as int),
        decreases chars@.len() - at,
    {
        at += 1;
    }
    at
}

/// Computes `first_comma`.
pub fn comma_from(chars: &Vec<char>, from: usize) -> (r: Option<usize>)
    ensures
        r matches Some(at) ==> first_comma(chars@, from as int) == Some(at as int) && from <= at
            < chars@.len() <= usize::MAX,
        r is None ==> first_comma(chars@, from as int) is None,
{
    let mut at: usize = from;
    while at < chars.len()
        invariant
            from <= at,
            first_comma(chars@, from as int) == first_comma(chars@, at as int),
        decreases chars@.len() - at,
    {
        if chars[at] == ',' {
            return Some(at);
        }
        at += 1;
    }
    None
}

/// Computes `closing_quote`.
pub fn quote_from(chars: &Vec<char>, from: usize) -> (r: Option<usize>)
    ensures
        r matches Some(at) ==> closing_quote(chars@, from as int) == Some(at as int) && from <= at
            < chars@.len() <= usize::MAX,
        r is None ==> closing_quote(chars@, from as int) is None,
{
    let mut at: usize = from;
    while at < chars.len()
        invariant
            from <= at,
            closing_quote(chars@, from as int) == closing_quote(chars@, at as int),
        decreases chars@.len() - at,
    {
        if chars[at] == '"' {
            return Some(at);
        }
        if chars[at] == '\\' {
            if chars.len() - at < 2 {
                return None;
            }
            at += 2;
        } else {
            at += 1;
        }
    }
    None
}

/// Computes `quoted_at`.
pub fn quoted(chars: &Vec<char>, at: usize) -> (r: Option<Span>)
    ensures
        r == quoted_at(chars@, at as int),
        r matches Some(span) ==> at < span.from <= span.to < chars@.len() <= usize::MAX,
{
    if at < chars.len() && chars[at] == '"' {
        match quote_from(chars, at + 1) {
            Some(close) => Some(Span { from: at + 1, to: close }),
            None => None,
        }
    } else {
        None
    }
}

/// Computes `key_at`.
pub fn key(chars: &Vec<char>, at: usize) -> (r: Option<KeySpans>)
    ensures
        r == key_at(chars@, at as int),
        r matches Some(k) ==> k.within(chars@.len() as int) && at < k.next,
{
    if !word_at(chars, at, "resource_id,") {
        return None;
    }
    let second = after_blanks(chars, at + "resource_id,".unicode_len());
    if !word_at(chars, second, "timespan)=(") {
        return None;
    }
    let resource = second + "timespan)=(".unicode_len();
    let comma = match comma_from(chars, resource) {
        Some(comma) => comma,
        None => {
            return None;
        },
    };
    let bracket = after_blanks(chars, comma + 1);
    if comma == resource || !word_at(chars, bracket, "[") {
        return None;
    }
    let start = match quoted(chars, bracket + "[".unicode_len()) {
        Some(start) => start,
        None => {
            return None;
        },
    };
    let between = start.to + 1;
    if !word_at(chars, between, ",") {
        return None;
    }
    let second_quote = after_blanks(chars, between + ",".unicode_len());
    let end = match quoted(chars, second_quote) {
        Some(end) => end,
        None => {
            return None;
        },
    };
    let closing = end.to + 1;
    if !word_at(chars, closing, "))") {
        return None;
    }
    Some(
        KeySpans {
            resource_id: Span { from: resource, to: comma },
            start,
            end,
            next: closing + "))".unicode_len(),
        },
    )
}

/// Computes `first_key`.
pub fn find_key(chars: &Vec<char>, from: usize) -> (r: Option<KeySpans>)
    ensures
        r == first_key(chars@, from as int),
        r matches Some(k) ==> k.within(chars@.len() as int) && from < k.next,
{
    let mut at: usize = from;
    while at < chars.len()
        invariant
            from <= at,
            first_key(chars@, from as int) == first_key(chars@, at as int),
        decreases chars@.len() - at,
    {
        match key(chars, at) {
            Some(k) => {
                return Some(k);
            },
            None => {},
        }
        at += 1;
    }
    None
}

/// Computes `two_keys`.
pub fn find_two_keys(chars: &Vec<char>) -> (r: Option<(KeySpans, KeySpans)>)
    ensures
        r == two_keys(chars@),
        r matches Some(keys) ==> keys.0.within(chars@.len() as int) && keys.1.within(
            chars@.len() as int,
        ),
{
    match find_key(chars, 0) {
        Some(first) => match find_key(chars, first.next) {
            Some(second) => Some((first, second)),
            None => None,
        },
        None => None,
    }
}

/// The characters that a span covers, as a string of their own.
pub fn text_of(text: &str, span: Span) -> (r: String)
    requires
        span.within(text@.len() as int),
    ensures
        r@ == span.of(text@),
{
    text.substring_char(span.from, span.to).to_owned()
}

} // verus!
