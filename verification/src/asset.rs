//! The `asset://` addresses through which the user interface asks for
//! avatars, embedded faces and cached files.

use vstd::prelude::*;
use vstd::string::*;
use crate::text::{find_first_from, first_index, matches_at, same_text, to_chars, up_to};

verus! {

/// The integer that `str::parse::<i64>` reads from `text`; `None` where it
/// reports an error.
pub uninterp spec fn parsed_i64(text: Seq<char>) -> Option<int>;

/// What `urlencoding::decode` makes of `text`; `None` where the decoded bytes
/// are no UTF-8.
pub uninterp spec fn percent_decoded(text: Seq<char>) -> Option<Seq<char>>;

/// `str::parse::<i64>`. The error's detail is dropped.
#[verifier::external_body]
fn parse_i64(text: &str) -> (r: Option<i64>)
    ensures
        r is Some == parsed_i64(text@) is Some,
        r is Some ==> r.unwrap() == parsed_i64(text@).unwrap(),
{
    text.parse::<i64>().ok()
}

/// `urlencoding::decode`, as an owned string. The error's detail is dropped.
#[verifier::external_body]
fn percent_decode(text: &str) -> (r: Option<String>)
    ensures
        r is Some == percent_decoded(text@) is Some,
        r is Some ==> r.unwrap()@ == percent_decoded(text@).unwrap(),
{
    urlencoding::decode(text).ok().map(|decoded| decoded.into_owned())
}

/// `s` begins with `prefix`.
pub open spec fn has_prefix(s: Seq<char>, prefix: Seq<char>) -> bool {
    prefix.len() <= s.len() && s.subrange(0, prefix.len() as int) == prefix
}

/// `s` ends with `suffix`.
pub open spec fn has_suffix(s: Seq<char>, suffix: Seq<char>) -> bool {
    suffix.len() <= s.len() && s.subrange(s.len() - suffix.len(), s.len() as int) == suffix
}

/// What follows the first `n` characters of `s`.
pub open spec fn after(s: Seq<char>, n: int) -> Seq<char> {
    s.subrange(n, s.len() as int)
}

/// What an `asset://` address asks for.
#[derive(Clone, Debug, PartialEq)]
pub enum AssetRoute {
    /// The avatar of a user or a group.
    Avatar { is_group: bool, id: i64 },
    /// An embedded animated face, by its path.
    Face { path: String },
    /// A file under the data root, by its path from there.
    Local { path: String },
    /// Nothing that can be served: the status to answer with, and the text.
    Refuse { status: u16, body: String },
}

/// What a route is, as plain values.
pub enum RouteView {
    Avatar { is_group: bool, id: int },
    Face { path: Seq<char> },
    Local { path: Seq<char> },
    Refuse { status: int, body: Seq<char> },
}

impl View for AssetRoute {
    type V = RouteView;

    open spec fn view(&self) -> RouteView {
        match self {
            AssetRoute::Avatar { is_group, id } => RouteView::Avatar {
                is_group: *is_group,
                id: *id as int,
            },
            AssetRoute::Face { path } => RouteView::Face { path: path@ },
            AssetRoute::Local { path } => RouteView::Local { path: path@ },
            AssetRoute::Refuse { status, body } => RouteView::Refuse {
                status: *status as int,
                body: body@,
            },
        }
    }
}

/// The route of an avatar address, given what follows `asset://avatar/`: a
/// kind, one slash, and an id with whatever follows its first dot dropped.
pub open spec fn avatar_route(rest: Seq<char>) -> RouteView {
    match first_index(rest, '/') {
        None => RouteView::Refuse { status: 400, body: "Invalid avatar URL format"@ },
        Some(slash) => {
            let kind = rest.subrange(0, slash);
            let name = after(rest, slash + 1);
            if first_index(name, '/') is Some {
                RouteView::Refuse { status: 400, body: "Invalid avatar URL format"@ }
            } else {
                match parsed_i64(up_to(name, '.')) {
                    Some(id) => RouteView::Avatar { is_group: kind == "group"@, id },
                    None => RouteView::Refuse { status: 400, body: "Invalid avatar ID"@ },
                }
            }
        },
    }
}

/// The route of a face address, given what follows `asset://qface/`: only
/// animated faces are embedded.
pub open spec fn face_route(rest: Seq<char>) -> RouteView {
    if has_prefix(rest, "gif/"@) && has_suffix(rest, ".gif"@) {
        RouteView::Face { path: rest }
    } else {
        RouteView::Refuse { status: 404, body: "Only GIF faces are embedded"@ }
    }
}

/// The route of a file address, given what follows `asset://localhost/`: the
/// path is percent-decoded where that can be done, and must lead into an
/// account's directory.
pub open spec fn local_route(rest: Seq<char>) -> RouteView {
    let path = match percent_decoded(rest) {
        Some(decoded) => decoded,
        None => rest,
    };
    if has_prefix(path, "user_"@) {
        RouteView::Local { path }
    } else {
        RouteView::Refuse {
            status: 403,
            body: "Access denied: invalid path (must start with 'user_'): "@ + path,
        }
    }
}

/// The route of an `asset://` address.
pub open spec fn route_of(uri: Seq<char>) -> RouteView {
    if has_prefix(uri, "asset://avatar/"@) {
        avatar_route(after(uri, "asset://avatar/"@.len() as int))
    } else if has_prefix(uri, "asset://qface/"@) {
        face_route(after(uri, "asset://qface/"@.len() as int))
    } else if has_prefix(uri, "asset://localhost/"@) {
        local_route(after(uri, "asset://localhost/"@.len() as int))
    } else {
        RouteView::Refuse { status: 404, body: "Not found"@ }
    }
}

/// The content type of a file, by the ending of its path.
pub open spec fn mime_of(path: Seq<char>) -> Seq<char> {
    if has_suffix(path, ".png"@) {
        "image/png"@
    } else if has_suffix(path, ".jpg"@) || has_suffix(path, ".jpeg"@) {
        "image/jpeg"@
    } else if has_suffix(path, ".gif"@) {
        "image/gif"@
    } else if has_suffix(path, ".webp"@) {
        "image/webp"@
    } else {
        "application/octet-stream"@
    }
}

/// Whether `s` begins with `prefix`.
pub fn starts_with(s: &str, prefix: &str) -> (r: bool)
    ensures
        r == has_prefix(s@, prefix@),
{
    let chars = to_chars(s);
    let wanted = to_chars(prefix);
    wanted.len() <= chars.len() && matches_at(&chars, &wanted, 0)
}

/// Whether `s` ends with `suffix`.
pub fn ends_with(s: &str, suffix: &str) -> (r: bool)
    ensures
        r == has_suffix(s@, suffix@),
{
    let chars = to_chars(s);
    let wanted = to_chars(suffix);
    wanted.len() <= chars.len() && matches_at(&chars, &wanted, chars.len() - wanted.len())
}

/// What follows the first `n` characters of `s`.
fn tail(s: &str, n: usize) -> (r: String)
    requires
        n <= s@.len(),
    ensures
        r@ == after(s@, n as int),
{
    let len = s.unicode_len();
    s.substring_char(n, len).to_owned()
}

fn refuse(status: u16, body: &str) -> (r: AssetRoute)
    ensures
        r@ == (RouteView::Refuse { status: status as int, body: body@ }),
{
    AssetRoute::Refuse { status, body: body.to_owned() }
}

fn route_avatar(rest: &str) -> (r: AssetRoute)
    ensures
        r@ == avatar_route(rest@),
{
    let chars = to_chars(rest);
    assert(chars@.subrange(0, chars.len() as int) =~= rest@);
    let slash = match find_first_from(&chars, 0, '/') {
        Some(slash) => slash,
        None => {
            return refuse(400, "Invalid avatar URL format");
        },
    };
    let name = tail(rest, slash + 1);
    let name_chars = to_chars(name.as_str());
    assert(name_chars@.subrange(0, name_chars.len() as int) =~= name@);
    if find_first_from(&name_chars, 0, '/').is_some() {
        return refuse(400, "Invalid avatar URL format");
    }
    let digits_end: usize = match find_first_from(&name_chars, 0, '.') {
        Some(dot) => dot,
        None => name_chars.len(),
    };
    let digits = name.as_str().substring_char(0, digits_end);
    assert(name@.subrange(0, name@.len() as int) =~= name@);
    match parse_i64(digits) {
        Some(id) => {
            let kind = rest.substring_char(0, slash);
            AssetRoute::Avatar { is_group: same_text(kind, "group"), id }
        },
        None => refuse(400, "Invalid avatar ID"),
    }
}

fn route_local(rest: &str) -> (r: AssetRoute)
    ensures
        r@ == local_route(rest@),
{
    let path = match percent_decode(rest) {
        Some(decoded) => decoded,
        None => rest.to_owned(),
    };
    if starts_with(path.as_str(), "user_") {
        AssetRoute::Local { path }
    } else {
        let mut body = "Access denied: invalid path (must start with 'user_'): ".to_owned();
        body.append(path.as_str());
        AssetRoute::Refuse { status: 403, body }
    }
}

/// Decides what an `asset://` address asks for.
pub fn route_asset(uri: &str) -> (r: AssetRoute)
    ensures
        r@ == route_of(uri@),
{
    if starts_with(uri, "asset://avatar/") {
        let n = "asset://avatar/".unicode_len();
        route_avatar(tail(uri, n).as_str())
    } else if starts_with(uri, "asset://qface/") {
        let n = "asset://qface/".unicode_len();
        let rest = tail(uri, n);
        if starts_with(rest.as_str(), "gif/") && ends_with(rest.as_str(), ".gif") {
            AssetRoute::Face { path: rest }
        } else {
            refuse(404, "Only GIF faces are embedded")
        }
    } else if starts_with(uri, "asset://localhost/") {
        let n = "asset://localhost/".unicode_len();
        route_local(tail(uri, n).as_str())
    } else {
        refuse(404, "Not found")
    }
}

/// The content type of a file, by the ending of its path.
pub fn mime_type(path: &str) -> (r: &'static str)
    ensures
        r@ == mime_of(path@),
{
    if ends_with(path, ".png") {
        "image/png"
    } else if ends_with(path, ".jpg") || ends_with(path, ".jpeg") {
        "image/jpeg"
    } else if ends_with(path, ".gif") {
        "image/gif"
    } else if ends_with(path, ".webp") {
        "image/webp"
    } else {
        "application/octet-stream"
    }
}

} // verus!
