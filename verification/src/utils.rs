//! JSON responses and the content types of static files.

use crate::connection::responder::respond;
use crate::connection::responder::response_bytes;
use crate::text::decimal;
use crate::text::chars_of;
use crate::text::find_last;
use crate::text::last_position;
use crate::text::push_decimal;
use crate::text::same_text;
use vstd::prelude::*;
use vstd::string::StrSliceExecFns;
use vstd::string::StringExecFns;
use vstd::string::StringSliceAdditionalSpecFns;
use vstd::utf8::encode_utf8;

verus! {

/// The content type of every JSON response.
pub open spec fn json_content_type() -> Seq<char> {
    "application/json"@
}

/// The bytes of a JSON response: the status line joins the code in decimal and the
/// reason with one space, and the body is the text in UTF-8.
pub open spec fn json_response_bytes(code: nat, reason: Seq<char>, body: Seq<char>) -> Seq<u8> {
    response_bytes(decimal(code) + seq![' '] + reason, json_content_type(), encode_utf8(body))
}

/// Builds a response that carries `body` as JSON.
pub fn json_response(code: u16, status: &str, body: &str) -> (out: Vec<u8>)
    ensures
        out@ == json_response_bytes(code as nat, status@, body@),
{
    let mut line = String::new();
    push_decimal(&mut line, code as usize);
    proof {
        reveal_strlit(" ");
    }
    line.append(" ");
    line.append(status);
    assert(line@ =~= decimal(code as nat) + seq![' '] + status@);
    respond(line.as_str(), "application/json", body.as_bytes())
}

/// Whether the last character of `path` belongs to none of its components: it is a
/// separator, or a `.` that is a whole segment.
pub open spec fn ends_outside_component(path: Seq<char>) -> bool {
    path.len() > 0 && (path.last() == '/' || (path.last() == '.' && (path.len() == 1
        || path[path.len() - 2] == '/')))
}

/// Where the last component of `path` ends: trailing separators and trailing `.`
/// segments are passed over. It is 0 where nothing else is left.
pub open spec fn component_end(path: Seq<char>) -> int
    decreases path.len(),
{
    if ends_outside_component(path) {
        component_end(path.drop_last())
    } else {
        path.len() as int
    }
}

/// The file name of a path: its last component, read with `/` as the separator.
/// Empty segments and `.` segments are no components, so `a.txt/` and `a.txt/.` name
/// `a.txt`. There is none where the path has no component left or ends in `..`.
pub open spec fn file_name(path: Seq<char>) -> Option<Seq<char>> {
    let head = path.take(component_end(path));
    let name = head.skip(last_position(head, '/') + 1);
    if name.len() == 0 || name == seq!['.', '.'] {
        None
    } else {
        Some(name)
    }
}

/// The extension of a path: what follows the last `.` of its file name. There is none
/// where the path has no file name, or the name has no `.`, or its only `.` begins it.
pub open spec fn extension(path: Seq<char>) -> Option<Seq<char>> {
    match file_name(path) {
        None => None,
        Some(name) => {
            let dot = last_position(name, '.');
            if dot <= 0 {
                None
            } else {
                Some(name.skip(dot + 1))
            }
        },
    }
}

/// The content type that goes with an extension.
pub open spec fn mime_type(extension: Seq<char>) -> Seq<char> {
    if extension == "html"@ {
        "text/html; charset=utf-8"@
    } else if extension == "txt"@ {
        "text/plain; charset=utf-8"@
    } else if extension == "json"@ {
        "application/json"@
    } else if extension == "png"@ {
        "image/png"@
    } else if extension == "jpg"@ || extension == "jpeg"@ {
        "image/jpeg"@
    } else if extension == "css"@ {
        "text/css"@
    } else if extension == "js"@ {
        "application/javascript"@
    } else {
        "application/octet-stream"@
    }
}

/// Whether an extension is one of the eight that have a content type of their own.
pub open spec fn is_listed(extension: Seq<char>) -> bool {
    ||| extension == "html"@
    ||| extension == "txt"@
    ||| extension == "json"@
    ||| extension == "png"@
    ||| extension == "jpg"@
    ||| extension == "jpeg"@
    ||| extension == "css"@
    ||| extension == "js"@
}

/// The content type of the file at `path`: that of its extension, where it has one.
pub open spec fn content_type_of(path: Seq<char>) -> Seq<char> {
    match extension(path) {
        Some(extension) => mime_type(extension),
        None => "application/octet-stream"@,
    }
}

/// The fallback `application/octet-stream` is given to the extensions that are not
/// listed, and to no other.
pub proof fn fallback_is_for_unlisted_extensions(extension: Seq<char>)
    ensures
        mime_type(extension) == "application/octet-stream"@ <==> !is_listed(extension),
{
    reveal_strlit("application/octet-stream");
    reveal_strlit("text/html; charset=utf-8");
    reveal_strlit("text/plain; charset=utf-8");
    reveal_strlit("application/json");
    reveal_strlit("image/png");
    reveal_strlit("image/jpeg");
    reveal_strlit("text/css");
    reveal_strlit("application/javascript");
    let fallback = "application/octet-stream"@;
    assert(fallback.len() == 24 && fallback[0] == 'a' && fallback[12] == 'o');
    assert("text/html; charset=utf-8"@[0] == 't');
    assert("text/plain; charset=utf-8"@[0] == 't');
    assert("application/json"@.len() == 16);
    assert("image/png"@[0] == 'i');
    assert("image/jpeg"@[0] == 'i');
    assert("text/css"@[0] == 't');
    assert("application/javascript"@.len() == 22);
}

/// The content type for an extension, `application/octet-stream` for any that is
/// not listed. Extensions are compared as they are: `HTML` is not `html`.
pub fn mime_for_extension(extension: &str) -> (mime: &'static str)
    ensures
        mime@ == mime_type(extension@),
{
    if same_text(extension, "html") {
        "text/html; charset=utf-8"
    } else if same_text(extension, "txt") {
        "text/plain; charset=utf-8"
    } else if same_text(extension, "json") {
        "application/json"
    } else if same_text(extension, "png") {
        "image/png"
    } else if same_text(extension, "jpg") || same_text(extension, "jpeg") {
        "image/jpeg"
    } else if same_text(extension, "css") {
        "text/css"
    } else if same_text(extension, "js") {
        "application/javascript"
    } else {
        "application/octet-stream"
    }
}

fn last_component_end(chars: &Vec<char>) -> (end: usize)
    ensures
        end == component_end(chars@),
        end <= chars.len(),
{
    let mut end: usize = chars.len();
    assert(chars@.take(end as int) =~= chars@);
    while end > 0 && (chars[end - 1] == '/' || (chars[end - 1] == '.' && (end == 1 || chars[end
        - 2] == '/')))
        invariant
            end <= chars.len(),
            component_end(chars@) == component_end(chars@.take(end as int)),
        decreases end,
    {
        assert(chars@.take(end as int).drop_last() =~= chars@.take(end - 1));
        end -= 1;
    }
    end
}

/// Finds the extension of the file that `path` names.
pub fn file_extension(path: &str) -> (found: Option<&str>)
    ensures
        match found {
            Some(text) => extension(path@) == Some(text@),
            None => extension(path@) is None,
        },
{
    let mut chars = chars_of(path);
    let end = last_component_end(&chars);
    chars.truncate(end);
    assert(chars@ =~= path@.take(end as int));
    let start: usize = match find_last(&chars, '/') {
        Some(slash) => slash + 1,
        None => 0,
    };
    let name = path.substring_char(start, end);
    assert(name@ =~= path@.take(end as int).skip(start as int));
    let name_chars = chars_of(name);
    if name_chars.len() == 0 {
        return None;
    }
    if name_chars.len() == 2 && name_chars[0] == '.' && name_chars[1] == '.' {
        assert(name@ =~= seq!['.', '.']);
        return None;
    }
    assert(name@ != seq!['.', '.']) by {
        if name@ == seq!['.', '.'] {
            assert(name@[0] == '.' && name@[1] == '.');
        }
    }
    match find_last(&name_chars, '.') {
        Some(dot) => {
            if dot == 0 {
                None
            } else {
                let text = name.substring_char(dot + 1, name_chars.len());
                assert(text@ =~= name@.skip(dot + 1));
                Some(text)
            }
        },
        None => None,
    }
}

/// The content type of the file at `path`, by the extension of its file name.
pub fn mime_for(path: &str) -> (mime: &'static str)
    ensures
        mime@ == content_type_of(path@),
{
    match file_extension(path) {
        Some(extension) => mime_for_extension(extension),
        None => "application/octet-stream",
    }
}

} // verus!
