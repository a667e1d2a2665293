//! The rules of the small file server that shows the reports: how a request
//! is answered, what type a file is served as, and how names are written
//! into pages.

use vstd::prelude::*;
use crate::discovery::{extension_of, file_extension};
use crate::sorting::{sort_names, sorted_names};
use crate::text::{chars_of, decimal, decimal_of, lines_of, lowercase, push_char, to_lowercase};

verus! {

/// What a character becomes when it is written into a page.
pub open spec fn escaped_char(c: char) -> Seq<char> {
    if c == '&' {
        "&amp;"@
    } else if c == '<' {
        "&lt;"@
    } else if c == '>' {
        "&gt;"@
    } else if c == '"' {
        "&quot;"@
    } else if c == '\'' {
        "&#39;"@
    } else {
        seq![c]
    }
}

/// A text with every character that has a meaning in markup replaced by its
/// entity.
pub open spec fn escaped(input: Seq<char>) -> Seq<char>
    decreases input.len(),
{
    if input.len() == 0 {
        Seq::empty()
    } else {
        escaped(input.drop_last()) + escaped_char(input.last())
    }
}

/// Escapes a text for writing it into a page.
pub fn html_escape(input: &str) -> (out: String)
    ensures
        out@ == escaped(input@),
{
    let chars = chars_of(input);
    let mut out = String::new();
    let mut i: usize = 0;
    while i < chars.len()
        invariant
            i <= chars.len(),
            chars@ == input@,
            out@ == escaped(chars@.take(i as int)),
        decreases chars.len() - i,
    {
        let c = chars[i];
        proof {
            let next = chars@.take(i + 1);
            assert(next.drop_last() =~= chars@.take(i as int));
        }
        if c == '&' {
            out.append("&amp;");
        } else if c == '<' {
            out.append("&lt;");
        } else if c == '>' {
            out.append("&gt;");
        } else if c == '"' {
            out.append("&quot;");
        } else if c == '\'' {
            out.append("&#39;");
        } else {
            push_char(&mut out, c);
        }
        i += 1;
    }
    assert(chars@.take(chars.len() as int) =~= chars@);
    out
}

/// The content type for a lowercase extension.
pub open spec fn mime_for(ext: Seq<char>) -> Seq<char> {
    if ext == "html"@ || ext == "htm"@ {
        "text/html; charset=utf-8"@
    } else if ext == "css"@ {
        "text/css; charset=utf-8"@
    } else if ext == "js"@ {
        "text/javascript; charset=utf-8"@
    } else if ext == "json"@ {
        "application/json; charset=utf-8"@
    } else if ext == "xml"@ {
        "application/xml; charset=utf-8"@
    } else if ext == "txt"@ {
        "text/plain; charset=utf-8"@
    } else if ext == "webp"@ {
        "image/webp"@
    } else if ext == "jpg"@ || ext == "jpeg"@ {
        "image/jpeg"@
    } else if ext == "png"@ {
        "image/png"@
    } else if ext == "jp2"@ {
        "image/jp2"@
    } else {
        "application/octet-stream"@
    }
}

/// The content type a file of this name is served as: by its extension,
/// whatever its case; a file without extension is served as plain bytes.
pub open spec fn mime_of(name: Seq<char>) -> Seq<char> {
    mime_for(
        lowercase(
            match extension_of(name) {
                Some(ext) => ext,
                None => Seq::<char>::empty(),
            },
        ),
    )
}

fn is_text(s: &String, literal: &str) -> (same: bool)
    ensures
        same == (s@ == literal@),
{
    *s == String::from_str(literal)
}

/// Guesses the content type of a file from its name.
pub fn guess_mime(name: &str) -> (mime: String)
    ensures
        mime@ == mime_of(name@),
{
    let ext = match file_extension(name) {
        Some(ext) => ext,
        None => String::new(),
    };
    mime_for_extension(to_lowercase(ext.as_str()).as_str())
}

/// The content type for an extension that is already in lower case.
pub fn mime_for_extension(lower: &str) -> (mime: String)
    ensures
        mime@ == mime_for(lower@),
{
    let lower = String::from_str(lower);
    let mime = if is_text(&lower, "html") || is_text(&lower, "htm") {
        "text/html; charset=utf-8"
    } else if is_text(&lower, "css") {
        "text/css; charset=utf-8"
    } else if is_text(&lower, "js") {
        "text/javascript; charset=utf-8"
    } else if is_text(&lower, "json") {
        "application/json; charset=utf-8"
    } else if is_text(&lower, "xml") {
        "application/xml; charset=utf-8"
    } else if is_text(&lower, "txt") {
        "text/plain; charset=utf-8"
    } else if is_text(&lower, "webp") {
        "image/webp"
    } else if is_text(&lower, "jpg") || is_text(&lower, "jpeg") {
        "image/jpeg"
    } else if is_text(&lower, "png") {
        "image/png"
    } else if is_text(&lower, "jp2") {
        "image/jp2"
    } else {
        "application/octet-stream"
    };
    String::from_str(mime)
}

/// The head of a response: status line, length and type of the body, and the
/// notice that the connection closes, each ended by a line break, and an
/// empty line.
pub open spec fn head_of(
    status_code: u16,
    status_text: Seq<char>,
    content_type: Seq<char>,
    body_len: nat,
) -> Seq<char> {
    "HTTP/1.1 "@ + decimal(status_code as nat) + " "@ + status_text + "\r\n"@
        + "Content-Length: "@ + decimal(body_len) + "\r\n"@ + "Content-Type: "@ + content_type
        + "\r\n"@ + "Connection: close\r\n"@ + "\r\n"@
}

/// Writes the head of a response.
pub fn response_head(status_code: u16, status_text: &str, content_type: &str, body_len: usize) -> (head:
    String)
    ensures
        head@ == head_of(status_code, status_text@, content_type@, body_len as nat),
{
    let mut head = String::from_str("HTTP/1.1 ");
    head.append(decimal_of(status_code as u64).as_str());
    head.append(" ");
    head.append(status_text);
    head.append("\r\n");
    head.append("Content-Length: ");
    head.append(decimal_of(body_len as u64).as_str());
    head.append("\r\n");
    head.append("Content-Type: ");
    head.append(content_type);
    head.append("\r\n");
    head.append("Connection: close\r\n");
    head.append("\r\n");
    head
}

/// The position of the first line feed in a text, or the length of the text
/// where it has none.
pub open spec fn line_end(text: Seq<char>) -> int
    decreases text.len(),
{
    if text.len() == 0 || text[0] == '\n' {
        0
    } else {
        1 + line_end(text.drop_first())
    }
}

/// The first line of a text: what stands before the first line feed, less
/// one carriage return right before that line feed; the whole text where it
/// has no line feed; nothing for an empty text.
pub open spec fn first_line_of(text: Seq<char>) -> Option<Seq<char>> {
    let end = line_end(text);
    if text.len() == 0 {
        None
    } else if 0 < end < text.len() && text[end - 1] == '\r' {
        Some(text.take(end - 1))
    } else {
        Some(text.take(end))
    }
}

/// The words of a text as `str::split_whitespace` gives them.
pub uninterp spec fn whitespace_words(text: Seq<char>) -> Seq<Seq<char>>;

/// Takes the first line off a text.
pub fn first_line(text: &str) -> (line: Option<String>)
    ensures
        line is Some <==> first_line_of(text@) is Some,
        line is Some ==> line->0@ == first_line_of(text@)->0,
{
    let chars = chars_of(text);
    if chars.len() == 0 {
        return None;
    }
    let mut end: usize = 0;
    assert(chars@.skip(0) =~= chars@);
    while end < chars.len() && chars[end] != '\n'
        invariant
            end <= chars.len(),
            chars@ == text@,
            line_end(chars@) == end + line_end(chars@.skip(end as int)),
        decreases chars.len() - end,
    {
        assert(chars@.skip(end as int).drop_first() =~= chars@.skip(end + 1));
        end += 1;
    }
    assert(line_end(chars@.skip(end as int)) == 0);
    let stop: usize = if 0 < end && end < chars.len() && chars[end - 1] == '\r' {
        end - 1
    } else {
        end
    };
    let mut line = String::new();
    let mut k: usize = 0;
    while k < stop
        invariant
            k <= stop <= chars.len(),
            line@ == chars@.take(k as int),
        decreases stop - k,
    {
        push_char(&mut line, chars[k]);
        k += 1;
    }
    Some(line)
}

/// `str::split_whitespace`: the parts of the text between runs of white
/// space, in order.
#[verifier::external_body]
fn split_whitespace(text: &str) -> (words: Vec<String>)
    ensures
        lines_of(words@) == whitespace_words(text@),
{
    text.split_whitespace().map(|w| w.to_string()).collect()
}

/// The method and the path named on the first line of a request: its first
/// two words. A missing method reads as empty, a missing path as `/`. A
/// request without a first line names nothing.
pub open spec fn target_of(request: Seq<char>) -> Option<(Seq<char>, Seq<char>)> {
    match first_line_of(request) {
        None => None,
        Some(line) => Some(target_in(whitespace_words(line))),
    }
}

/// The method and the path among the words of a request line: the first and
/// the second word, a missing method read as empty and a missing path as `/`.
pub open spec fn target_in(words: Seq<Seq<char>>) -> (Seq<char>, Seq<char>) {
    (
        if words.len() > 0 {
            words[0]
        } else {
            Seq::<char>::empty()
        },
        if words.len() > 1 {
            words[1]
        } else {
            "/"@
        },
    )
}

/// Reads method and path off a request.
pub fn request_target(request: &str) -> (target: Option<(String, String)>)
    ensures
        target is Some <==> target_of(request@) is Some,
        target matches Some(found) ==> {
            let named = target_of(request@)->0;
            found.0@ == named.0 && found.1@ == named.1
        },
{
    match first_line(request) {
        None => None,
        Some(line) => Some(target_from_words(&split_whitespace(line.as_str()))),
    }
}

/// Picks method and path out of the words of a request line.
pub fn target_from_words(words: &Vec<String>) -> (target: (String, String))
    ensures
        target.0@ == target_in(lines_of(words@)).0,
        target.1@ == target_in(lines_of(words@)).1,
{
    let method = if words.len() > 0 {
        words[0].clone()
    } else {
        String::new()
    };
    let path = if words.len() > 1 {
        words[1].clone()
    } else {
        String::from_str("/")
    };
    (method, path)
}

/// How a request is answered.
#[derive(Clone, Debug, PartialEq, Eq)]
pub enum Route {
    /// Only `GET` is served.
    MethodNotAllowed,
    /// The path holds `..`.
    BadPath,
    /// The icon is never there.
    NoFavicon,
    /// The overview of the audit directories.
    RootIndex,
    /// The file or directory at this path below the served root.
    Lookup(String),
}

/// Whether a text holds two dots in a row.
pub open spec fn has_dot_dot(path: Seq<char>) -> bool {
    exists|i: int| 0 <= i < path.len() - 1 && #[trigger] path[i] == '.' && path[i + 1] == '.'
}

/// A path without its first character.
pub open spec fn without_first(path: Seq<char>) -> Seq<char> {
    if path.len() == 0 {
        path
    } else {
        path.skip(1)
    }
}

/// Decides how a request for `path` with `method` is answered. A method
/// other than `GET` is turned down first, then a path with `..` in it, then
/// the icon. The path `/` gets the overview, and every other path is looked
/// up without its first character.
pub fn route_request(method: &str, path: &str) -> (route: Route)
    ensures
        method@ != "GET"@ ==> route is MethodNotAllowed,
        method@ == "GET"@ && has_dot_dot(path@) ==> route is BadPath,
        method@ == "GET"@ && !has_dot_dot(path@) && path@ == "/favicon.ico"@ ==> route
            is NoFavicon,
        method@ == "GET"@ && !has_dot_dot(path@) && path@ == "/"@ ==> route is RootIndex,
        method@ == "GET"@ && !has_dot_dot(path@) && path@ != "/favicon.ico"@ && path@ != "/"@
            ==> (route matches Route::Lookup(rel) && rel@ == without_first(path@)),
{
    proof {
        reveal_strlit("/");
        reveal_strlit("/favicon.ico");
    }
    if !is_text_str(method, "GET") {
        return Route::MethodNotAllowed;
    }
    let chars = chars_of(path);
    let mut i: usize = 0;
    while i < chars.len() && i < chars.len() - 1
        invariant
            i <= chars.len(),
            chars@ == path@,
            method@ == "GET"@,
            forall|j: int| 0 <= j < i && j < chars@.len() - 1 ==> !(#[trigger] chars@[j] == '.'
                && chars@[j + 1] == '.'),
        decreases chars.len() - i,
    {
        if chars[i] == '.' && chars[i + 1] == '.' {
            return Route::BadPath;
        }
        i += 1;
    }
    if is_text_str(path, "/favicon.ico") {
        return Route::NoFavicon;
    }
    if is_text_str(path, "/") {
        return Route::RootIndex;
    }
    let mut rel = String::new();
    let mut k: usize = 1;
    if chars.len() == 0 {
        return Route::Lookup(rel);
    }
    while k < chars.len()
        invariant
            1 <= k <= chars.len(),
            rel@ == chars@.subrange(1, k as int),
        decreases chars.len() - k,
    {
        push_char(&mut rel, chars[k]);
        k += 1;
    }
    Route::Lookup(rel)
}

fn is_text_str(s: &str, literal: &str) -> (same: bool)
    ensures
        same == (s@ == literal@),
{
    String::from_str(s) == String::from_str(literal)
}

/// What is served for a path that was looked up.
#[derive(Clone, Copy, Debug, PartialEq, Eq, Structural)]
pub enum Served {
    /// The `index.html` inside the directory.
    IndexFile,
    /// A listing of the directory.
    Listing,
    /// The file itself.
    File,
    NotFound,
}

/// Decides what is served for a path, from what is found there: for a
/// directory its `index.html` where it has one and else a listing, for a
/// file the file, and else nothing.
pub fn resolve_lookup(is_dir: bool, has_index: bool, is_file: bool) -> (served: Served)
    ensures
        served == (if is_dir {
            if has_index {
                Served::IndexFile
            } else {
                Served::Listing
            }
        } else if is_file {
            Served::File
        } else {
            Served::NotFound
        }),
{
    if is_dir {
        if has_index {
            Served::IndexFile
        } else {
            Served::Listing
        }
    } else if is_file {
        Served::File
    } else {
        Served::NotFound
    }
}

/// Whether `s` ends with `suffix`.
pub open spec fn ends_with(s: Seq<char>, suffix: Seq<char>) -> bool {
    s.len() >= suffix.len() && s.subrange(s.len() - suffix.len(), s.len() as int) == suffix
}

/// `s` with every `suffix` at its end taken off.
pub open spec fn trimmed_end(s: Seq<char>, suffix: Seq<char>) -> Seq<char>
    decreases s.len(),
{
    if suffix.len() > 0 && ends_with(s, suffix) {
        trimmed_end(s.subrange(0, s.len() - suffix.len()), suffix)
    } else {
        s
    }
}

fn chars_end_with(chars: &Vec<char>, len: usize, suffix: &Vec<char>) -> (yes: bool)
    requires
        len <= chars.len(),
    ensures
        yes == ends_with(chars@.take(len as int), suffix@),
{
    if suffix.len() > len {
        return false;
    }
    let start: usize = len - suffix.len();
    let mut k: usize = 0;
    while k < suffix.len()
        invariant
            k <= suffix.len(),
            start + suffix.len() == len,
            len <= chars.len(),
            forall|j: int| 0 <= j < k ==> chars@[start + j] == suffix@[j],
        decreases suffix.len() - k,
    {
        if chars[start + k] != suffix[k] {
            return false;
        }
        k += 1;
    }
    assert(chars@.take(len as int).subrange(start as int, len as int) =~= suffix@);
    true
}

/// Whether a directory of this name is an audit directory: its name ends
/// with `_logs`.
pub fn is_logs_dir_name(name: &str) -> (yes: bool)
    ensures
        yes == ends_with(name@, "_logs"@),
{
    let chars = chars_of(name);
    let suffix = chars_of("_logs");
    assert(chars@.take(chars.len() as int) =~= chars@);
    chars_end_with(&chars, chars.len(), &suffix)
}

/// The batch an audit directory belongs to: its name without `_logs` at
/// the end, however often that stands there.
pub fn batch_of_logs_dir(name: &str) -> (batch: String)
    ensures
        batch@ == trimmed_end(name@, "_logs"@),
{
    let chars = chars_of(name);
    let suffix = chars_of("_logs");
    proof {
        reveal_strlit("_logs");
    }
    let mut len: usize = chars.len();
    assert(chars@.take(len as int) =~= chars@);
    while chars_end_with(&chars, len, &suffix)
        invariant
            len <= chars.len(),
            suffix@ == "_logs"@,
            suffix@.len() == 5,
            trimmed_end(name@, "_logs"@) == trimmed_end(chars@.take(len as int), "_logs"@),
        decreases len,
    {
        assert(chars@.take(len as int).subrange(0, len - 5) =~= chars@.take(len - 5));
        len -= 5;
    }
    let mut batch = String::new();
    let mut k: usize = 0;
    while k < len
        invariant
            k <= len <= chars.len(),
            batch@ == chars@.take(k as int),
        decreases len - k,
    {
        push_char(&mut batch, chars[k]);
        k += 1;
    }
    batch
}

/// The names among `names` that are audit directories, in the order given.
pub open spec fn logs_dirs(names: Seq<Seq<char>>) -> Seq<Seq<char>>
    decreases names.len(),
{
    if names.len() == 0 {
        Seq::empty()
    } else if ends_with(names.last(), "_logs"@) {
        logs_dirs(names.drop_last()).push(names.last())
    } else {
        logs_dirs(names.drop_last())
    }
}

/// The entry of one audit directory in the overview: a link to its report,
/// titled with the batch and subtitled with the directory.
pub open spec fn logs_item(name: Seq<char>) -> Seq<char> {
    "<li class=\"logs-item\"><a href=\"/"@ + escaped(name) + "/index.html\">"@
        + "<div class=\"logs-item-title\">"@ + escaped(trimmed_end(name, "_logs"@)) + "</div>"@
        + "<div class=\"logs-item-sub\">"@ + escaped(name) + "</div></a></li>"@
}

/// The entries of a run of audit directories.
pub open spec fn logs_items(names: Seq<Seq<char>>) -> Seq<char>
    decreases names.len(),
{
    if names.len() == 0 {
        Seq::empty()
    } else {
        logs_items(names.drop_last()) + logs_item(names.last())
    }
}

/// The list of audit directories in the overview, for the directories found
/// in the served root: those whose names end with `_logs`, ordered by name.
pub open spec fn logs_list(dir_names: Seq<Seq<char>>) -> Seq<char> {
    "<ul class=\"logs-list\">"@ + logs_items(sorted_names(logs_dirs(dir_names))) + "</ul>"@
}

fn logs_item_html(name: &str) -> (html: String)
    ensures
        html@ == logs_item(name@),
{
    let mut html = String::from_str("<li class=\"logs-item\"><a href=\"/");
    html.append(html_escape(name).as_str());
    html.append("/index.html\">");
    html.append("<div class=\"logs-item-title\">");
    html.append(html_escape(batch_of_logs_dir(name).as_str()).as_str());
    html.append("</div>");
    html.append("<div class=\"logs-item-sub\">");
    html.append(html_escape(name).as_str());
    html.append("</div></a></li>");
    html
}

/// Renders the list of audit directories for the overview, and says whether
/// there is any.
pub fn logs_list_html(dir_names: &Vec<String>) -> (list: (String, bool))
    ensures
        list.0@ == logs_list(lines_of(dir_names@)),
        list.1 == (logs_dirs(lines_of(dir_names@)).len() > 0),
{
    let ghost all = lines_of(dir_names@);
    let mut found: Vec<String> = Vec::new();
    let mut i: usize = 0;
    while i < dir_names.len()
        invariant
            i <= dir_names.len(),
            all == lines_of(dir_names@),
            lines_of(found@) == logs_dirs(all.take(i as int)),
        decreases dir_names.len() - i,
    {
        proof {
            let next = all.take(i + 1);
            assert(next.drop_last() =~= all.take(i as int));
        }
        if is_logs_dir_name(dir_names[i].as_str()) {
            found.push(dir_names[i].clone());
        }
        i += 1;
    }
    assert(all.take(dir_names.len() as int) =~= all);
    let sorted = sort_names(&found);
    let ghost shown = lines_of(sorted@);
    let mut items = String::new();
    let mut k: usize = 0;
    while k < sorted.len()
        invariant
            k <= sorted.len(),
            shown == lines_of(sorted@),
            items@ == logs_items(shown.take(k as int)),
        decreases sorted.len() - k,
    {
        items.append(logs_item_html(sorted[k].as_str()).as_str());
        proof {
            let next = shown.take(k + 1);
            assert(next.drop_last() =~= shown.take(k as int));
        }
        k += 1;
    }
    assert(shown.take(sorted.len() as int) =~= shown);
    let mut html = String::from_str("<ul class=\"logs-list\">");
    html.append(items.as_str());
    html.append("</ul>");
    (html, found.len() > 0)
}

/// The entry of one name in the listing of the directory served at
/// `url_path`: a link to the name below that path.
pub open spec fn listing_item(url_path: Seq<char>, name: Seq<char>) -> Seq<char> {
    "<li><a href=\""@ + url_path + (if url_path.len() > 0 && url_path.last() == '/' {
        Seq::<char>::empty()
    } else {
        "/"@
    }) + name + "\">"@ + escaped(name) + "</a></li>"@
}

/// The entries of a run of names in a directory listing.
pub open spec fn listing_items(url_path: Seq<char>, names: Seq<Seq<char>>) -> Seq<char>
    decreases names.len(),
{
    if names.len() == 0 {
        Seq::empty()
    } else {
        listing_items(url_path, names.drop_last()) + listing_item(url_path, names.last())
    }
}

/// Renders the entries of a directory listing, ordered by name.
pub fn dir_listing_items(url_path: &str, names: &Vec<String>) -> (html: String)
    ensures
        html@ == listing_items(url_path@, sorted_names(lines_of(names@))),
{
    let path_chars = chars_of(url_path);
    let closed = path_chars.len() > 0 && path_chars[path_chars.len() - 1] == '/';
    let sorted = sort_names(names);
    let ghost shown = lines_of(sorted@);
    let mut html = String::new();
    let mut k: usize = 0;
    while k < sorted.len()
        invariant
            k <= sorted.len(),
            shown == lines_of(sorted@),
            closed == (url_path@.len() > 0 && url_path@.last() == '/'),
            html@ == listing_items(url_path@, shown.take(k as int)),
        decreases sorted.len() - k,
    {
        let mut item = String::from_str("<li><a href=\"");
        item.append(url_path);
        if !closed {
            item.append("/");
        }
        item.append(sorted[k].as_str());
        item.append("\">");
        item.append(html_escape(sorted[k].as_str()).as_str());
        item.append("</a></li>");
        html.append(item.as_str());
        proof {
            let next = shown.take(k + 1);
            assert(next.drop_last() =~= shown.take(k as int));
        }
        k += 1;
    }
    assert(shown.take(sorted.len() as int) =~= shown);
    html
}

} // verus!
