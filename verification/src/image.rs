//! Media: images cached by the address they came from.

use vstd::prelude::*;
use vstd::string::*;
use crate::avatar::{get_user_data_dir, opt_account_dir, CacheDir, CacheTarget};
use crate::cache::{fresh, is_fresh, CacheFlow, CacheKind, CacheProbe, FlowState, FlowView, MEDIA_TTL_SECS};
use crate::digest::{digest_name, name_of};
use crate::text::{find_first_from, find_last, last_index, opt_text, to_chars, up_to};

verus! {

/// Characters beyond which a sniffed extension is not believed.
pub const MAX_EXTENSION_LEN: usize = 10;

/// The address without its query string: `url` up to its first question
/// mark.
pub open spec fn before_query(url: Seq<char>) -> Seq<char> {
    up_to(url, '?')
}

/// What follows the last dot of the address before its query string; `None`
/// where there is no dot before the query string.
pub open spec fn trailing_segment(url: Seq<char>) -> Option<Seq<char>> {
    let path = before_query(url);
    match last_index(path, '.') {
        None => None,
        Some(dot) => Some(path.subrange(dot + 1, path.len() as int)),
    }
}

/// The extension sniffed from `url`: its trailing segment, or `jpg` where it
/// has none or the segment is longer than ten characters.
pub open spec fn extension_of(url: Seq<char>) -> Seq<char> {
    match trailing_segment(url) {
        Some(segment) => if segment.len() > MAX_EXTENSION_LEN {
            "jpg"@
        } else {
            segment
        },
        None => "jpg"@,
    }
}

/// The file name under which the media at `url` are cached: the digest name
/// of the address, a dot and the sniffed extension.
pub open spec fn image_filename(url: Seq<char>) -> Seq<char> {
    digest_name(url) + "."@ + extension_of(url)
}

/// The extension sniffed from `url`.
pub fn sniff_extension(url: &str) -> (r: String)
    ensures
        r@ == extension_of(url@),
{
    let chars = to_chars(url);
    assert(chars@.subrange(0, chars.len() as int) =~= url@);
    let end: usize = match find_first_from(&chars, 0, '?') {
        Some(query) => query,
        None => chars.len(),
    };
    let path = url.substring_char(0, end);
    assert(path@ == before_query(url@));
    let path_chars = to_chars(path);
    match find_last(&path_chars, '.') {
        None => "jpg".to_owned(),
        Some(dot) => {
            let start: usize = dot + 1;
            let len: usize = path_chars.len();
            if len - start > MAX_EXTENSION_LEN {
                "jpg".to_owned()
            } else {
                path.substring_char(start, len).to_owned()
            }
        },
    }
}

/// The file name under which the media at `url` are cached.
pub fn get_image_filename(url: &str) -> (r: String)
    ensures
        r@ == image_filename(url@),
{
    let mut name = name_of(url);
    name.append(".");
    name.append(sniff_extension(url).as_str());
    name
}

/// The directory that holds an account's cached media.
pub fn get_image_cache_dir(self_id: Option<i64>) -> (r: CacheDir)
    ensures
        opt_text(r.account_dir) == opt_account_dir(self_id),
        r.name@ == "images"@,
{
    CacheDir { account_dir: get_user_data_dir(self_id), name: "images".to_owned() }
}

/// The flow that obtains media, as plain values: fetched from their address,
/// recovered by `file` where the address has expired.
pub open spec fn image_flow(url: Seq<char>, file: Option<Seq<char>>) -> FlowView {
    FlowView { kind: CacheKind::Media, url, file_id: file, state: FlowState::Start, fetches: 0 }
}

/// Where the media at `url` are cached for the account `self_id`, and the
/// flow that obtains them. `file` is the content's identifier, by which a
/// fresh address is resolved once `url` has expired.
pub fn download_image(url: &str, self_id: Option<i64>, file: &Option<String>) -> (r: CacheTarget)
    ensures
        opt_text(r.dir.account_dir) == opt_account_dir(self_id),
        r.dir.name@ == "images"@,
        r.file_name@ == image_filename(url@),
        r.flow@ == image_flow(url@, opt_text(*file)),
        r.flow.wf(),
{
    CacheTarget {
        dir: get_image_cache_dir(self_id),
        file_name: get_image_filename(url),
        flow: CacheFlow::new(CacheKind::Media, url, file),
    }
}

/// Looks the media at `url` up in the cache without fetching: the entry's
/// place, if what was probed there is fresh.
pub fn check_image_cache(url: &str, self_id: Option<i64>, probe: &CacheProbe) -> (r: Option<
    (CacheDir, String),
>)
    ensures
        r is Some <==> is_fresh(*probe, MEDIA_TTL_SECS),
        r is Some ==> {
            &&& opt_text(r.unwrap().0.account_dir) == opt_account_dir(self_id)
            &&& r.unwrap().0.name@ == "images"@
            &&& r.unwrap().1@ == image_filename(url@)
        },
{
    if fresh(probe, MEDIA_TTL_SECS) {
        Some((get_image_cache_dir(self_id), get_image_filename(url)))
    } else {
        None
    }
}

} // verus!
