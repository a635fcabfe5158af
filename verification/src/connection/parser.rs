//! The request line and the path of the file it asks for.

use crate::connection::ConnectionError;
use crate::text::char_is_whitespace;
use crate::text::chars_of;
use crate::text::is_whitespace;
use vstd::prelude::*;
use vstd::string::StrSliceExecFns;
use vstd::string::StringExecFns;

verus! {

/// The first position at or after `from` that holds no whitespace, or the end of `s`.
pub open spec fn skip_whitespace(s: Seq<char>, from: int) -> int
    decreases s.len() - from,
{
    if 0 <= from < s.len() && is_whitespace(s[from]) {
        skip_whitespace(s, from + 1)
    } else {
        from
    }
}

/// The first position at or after `from` that holds whitespace, or the end of `s`.
pub open spec fn skip_token(s: Seq<char>, from: int) -> int
    decreases s.len() - from,
{
    if 0 <= from < s.len() && !is_whitespace(s[from]) {
        skip_token(s, from + 1)
    } else {
        from
    }
}

/// The tokens of `s` that begin at or after `from`: the maximal runs of characters
/// that are not whitespace, in their order.
pub open spec fn tokens_from(s: Seq<char>, from: int) -> Seq<Seq<char>>
    decreases s.len() - from,
{
    let start = skip_whitespace(s, from);
    let end = skip_token(s, start);
    if 0 <= from <= start < end <= s.len() {
        seq![s.subrange(start, end)] + tokens_from(s, end)
    } else {
        Seq::empty()
    }
}

/// The whitespace-separated tokens of `s`.
pub open spec fn split_whitespace(s: Seq<char>) -> Seq<Seq<char>> {
    tokens_from(s, 0)
}

/// Method and path of a request line: its first two tokens, where it has at least three.
pub open spec fn request_of(line: Seq<char>) -> Option<(Seq<char>, Seq<char>)> {
    let tokens = split_whitespace(line);
    if tokens.len() >= 3 {
        Some((tokens[0], tokens[1]))
    } else {
        None
    }
}

/// `skip_whitespace` moves forward, stays within `s`, passes only whitespace and stops
/// at the end or on a character that is none.
pub proof fn skip_whitespace_stops(s: Seq<char>, from: int)
    requires
        0 <= from <= s.len(),
    ensures
        from <= skip_whitespace(s, from) <= s.len(),
        forall|k: int| from <= k < skip_whitespace(s, from) ==> is_whitespace(#[trigger] s[k]),
        skip_whitespace(s, from) < s.len() ==> !is_whitespace(s[skip_whitespace(s, from)]),
    decreases s.len() - from,
{
    if from < s.len() && is_whitespace(s[from]) {
        skip_whitespace_stops(s, from + 1);
    }
}

/// `skip_token` moves forward, stays within `s`, passes no whitespace and stops at the
/// end or on whitespace.
pub proof fn skip_token_stops(s: Seq<char>, from: int)
    requires
        0 <= from <= s.len(),
    ensures
        from <= skip_token(s, from) <= s.len(),
        forall|k: int| from <= k < skip_token(s, from) ==> !is_whitespace(#[trigger] s[k]),
        skip_token(s, from) < s.len() ==> is_whitespace(s[skip_token(s, from)]),
        from < s.len() && !is_whitespace(s[from]) ==> from < skip_token(s, from),
    decreases s.len() - from,
{
    if from < s.len() && !is_whitespace(s[from]) {
        skip_token_stops(s, from + 1);
    }
}

/// Every token is a run without whitespace and is not empty.
pub proof fn tokens_hold_no_whitespace(s: Seq<char>, from: int)
    requires
        0 <= from <= s.len(),
    ensures
        forall|i: int|
            0 <= i < tokens_from(s, from).len() ==> {
                let token = #[trigger] tokens_from(s, from)[i];
                &&& token.len() > 0
                &&& forall|k: int| 0 <= k < token.len() ==> !is_whitespace(#[trigger] token[k])
            },
    decreases s.len() - from,
{
    let start = skip_whitespace(s, from);
    let end = skip_token(s, start);
    skip_whitespace_stops(s, from);
    skip_token_stops(s, start);
    if start < end {
        tokens_hold_no_whitespace(s, end);
        let head = s.subrange(start, end);
        assert forall|i: int| 0 <= i < tokens_from(s, from).len() implies {
            let token = #[trigger] tokens_from(s, from)[i];
            &&& token.len() > 0
            &&& forall|k: int| 0 <= k < token.len() ==> !is_whitespace(#[trigger] token[k])
        } by {
            if i == 0 {
                assert(tokens_from(s, from)[0] == head);
                assert forall|k: int| 0 <= k < head.len() implies !is_whitespace(
                    #[trigger] head[k],
                ) by {
                    assert(head[k] == s[start + k]);
                }
            } else {
                assert(tokens_from(s, from)[i] == tokens_from(s, end)[i - 1]);
            }
        }
    }
}

fn scan_whitespace(chars: &Vec<char>, from: usize) -> (at: usize)
    requires
        from <= chars.len(),
    ensures
        at == skip_whitespace(chars@, from as int),
        from <= at <= chars.len(),
{
    let mut at: usize = from;
    while at < chars.len() && char_is_whitespace(chars[at])
        invariant
            from <= at <= chars.len(),
            skip_whitespace(chars@, from as int) == skip_whitespace(chars@, at as int),
        decreases chars.len() - at,
    {
        at += 1;
    }
    at
}

fn scan_token(chars: &Vec<char>, from: usize) -> (at: usize)
    requires
        from <= chars.len(),
    ensures
        at == skip_token(chars@, from as int),
        from <= at <= chars.len(),
{
    let mut at: usize = from;
    while at < chars.len() && !char_is_whitespace(chars[at])
        invariant
            from <= at <= chars.len(),
            skip_token(chars@, from as int) == skip_token(chars@, at as int),
        decreases chars.len() - at,
    {
        at += 1;
    }
    at
}

/// Reads method and path from a request line. Whitespace around and between the
/// tokens is ignored; a line with fewer than three tokens is a protocol error.
pub fn parse_request(line: &str) -> (parsed: Result<(&str, &str), ConnectionError>)
    ensures
        match parsed {
            Ok((method, path)) => request_of(line@) == Some((method@, path@)),
            Err(e) => request_of(line@) is None && e == ConnectionError::Protocol,
        },
{
    let chars = chars_of(line);
    let method_start = scan_whitespace(&chars, 0);
    let method_end = scan_token(&chars, method_start);
    let path_start = scan_whitespace(&chars, method_end);
    let path_end = scan_token(&chars, path_start);
    let version_start = scan_whitespace(&chars, path_end);
    proof {
        let s = line@;
        let version_end = skip_token(s, version_start as int);
        skip_token_stops(s, method_start as int);
        skip_token_stops(s, path_start as int);
        skip_token_stops(s, version_start as int);
        skip_whitespace_stops(s, path_end as int);
        let all = tokens_from(s, 0);
        let after_method = tokens_from(s, method_end as int);
        let after_path = tokens_from(s, path_end as int);
        if method_start < method_end {
            assert(all == seq![s.subrange(method_start as int, method_end as int)] + after_method);
            if path_start < path_end {
                assert(after_method == seq![s.subrange(path_start as int, path_end as int)]
                    + after_path);
                if version_start < chars.len() {
                    assert(after_path == seq![s.subrange(version_start as int, version_end)]
                        + tokens_from(s, version_end));
                    assert(all.len() >= 3);
                } else {
                    assert(after_path.len() == 0);
                    assert(all.len() == 2);
                }
                assert(all[0] == s.subrange(method_start as int, method_end as int));
                assert(all[1] == after_method[0]);
            } else {
                assert(after_method.len() == 0);
                assert(all.len() == 1);
            }
        } else {
            assert(all.len() == 0);
        }
    }
    if method_start < method_end && path_start < path_end && version_start < chars.len() {
        let method = line.substring_char(method_start, method_end);
        let path = line.substring_char(path_start, path_end);
        Ok((method, path))
    } else {
        Err(ConnectionError::Protocol)
    }
}

/// The first position at or after `from` that holds no `/`, or the end of `s`.
pub open spec fn skip_slashes(s: Seq<char>, from: int) -> int
    decreases s.len() - from,
{
    if 0 <= from < s.len() && s[from] == '/' {
        skip_slashes(s, from + 1)
    } else {
        from
    }
}

/// The document that a request path names below the root: the default document for
/// `/` itself, else the path without its leading slashes.
pub open spec fn document_name(path: Seq<char>) -> Seq<char> {
    if path == seq!['/'] {
        "index.html"@
    } else {
        path.subrange(skip_slashes(path, 0), path.len() as int)
    }
}

/// `name` adjoined to `root`, with one `/` between them unless `root` is empty or
/// ends in one. Nothing is normalized: `..` segments stay as they are.
pub open spec fn joined(root: Seq<char>, name: Seq<char>) -> Seq<char> {
    if root.len() == 0 || root.last() == '/' {
        root + name
    } else {
        root + seq!['/'] + name
    }
}

/// The file that a request path names under `root`.
pub open spec fn resolved_path(root: Seq<char>, path: Seq<char>) -> Seq<char> {
    joined(root, document_name(path))
}

fn scan_slashes(chars: &Vec<char>, from: usize) -> (at: usize)
    requires
        from <= chars.len(),
    ensures
        at == skip_slashes(chars@, from as int),
        from <= at <= chars.len(),
{
    let mut at: usize = from;
    while at < chars.len() && chars[at] == '/'
        invariant
            from <= at <= chars.len(),
            skip_slashes(chars@, from as int) == skip_slashes(chars@, at as int),
        decreases chars.len() - at,
    {
        at += 1;
    }
    at
}

/// Builds the path of the file that `path` asks for under `root`.
pub fn resolve_path(root: &str, path: &str) -> (file: String)
    ensures
        file@ == resolved_path(root@, path@),
{
    let requested = chars_of(path);
    let name: &str = if requested.len() == 1 && requested[0] == '/' {
        assert(path@ =~= seq!['/']);
        "index.html"
    } else {
        let start = scan_slashes(&requested, 0);
        path.substring_char(start, requested.len())
    };
    assert(name@ == document_name(path@));
    let base = chars_of(root);
    let mut file = String::from_str(root);
    if base.len() > 0 && base[base.len() - 1] != '/' {
        proof {
            reveal_strlit("/");
        }
        file.append("/");
        assert(file@ =~= root@ + seq!['/']);
    }
    file.append(name);
    file
}

} // verus!
