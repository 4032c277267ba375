//! The request line: the only part of a request that is interpreted.

use crate::text::{field_end, fields, same_text, split_fields, to_chars, Separator};
use vstd::prelude::*;

verus! {

/// The view of an optional string.
pub open spec fn option_text(o: Option<String>) -> Option<Seq<char>> {
    match o {
        Some(s) => Some(s@),
        None => None,
    }
}

/// The text before the first line feed; the whole text when it holds none.
pub open spec fn first_line(text: Seq<char>) -> Seq<char> {
    text.take(field_end(text, Separator::LineFeed, 0))
}

/// The path that a request asks for, when its first line is well formed:
/// at least three whitespace-separated words, of which the first is `GET`
/// and the third is `HTTP/1.1`. The path is the second word, undecoded.
pub open spec fn request_target(text: Seq<char>) -> Option<Seq<char>> {
    let words = fields(first_line(text), Separator::Whitespace);
    if words.len() >= 3 && words[0] == "GET"@ && words[2] == "HTTP/1.1"@ {
        Some(words[1])
    } else {
        None
    }
}

/// Parses the first line of `text` and returns the requested path, or `None`
/// when the line is not a well-formed `GET` request for `HTTP/1.1`.
pub fn parse_request_line(text: &str) -> (r: Option<String>)
    ensures
        option_text(r) == request_target(text@),
{
    let chars = to_chars(text);
    let mut e: usize = 0;
    while e < chars.len() && chars[e] != '\n'
        invariant
            e <= chars@.len(),
            chars@ == text@,
            field_end(text@, Separator::LineFeed, e as int) == field_end(
                text@,
                Separator::LineFeed,
                0,
            ),
        decreases chars@.len() - e,
    {
        e += 1;
    }
    let line = text.substring_char(0, e);
    let words = split_fields(line, Separator::Whitespace);
    if words.len() < 3 {
        return None;
    }
    if !same_text(words[0].as_str(), "GET") || !same_text(words[2].as_str(), "HTTP/1.1") {
        return None;
    }
    Some(words[1].clone())
}

} // verus!
