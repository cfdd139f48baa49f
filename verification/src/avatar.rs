//! Identity images: the avatars of users and groups, cached by subject.

use vstd::prelude::*;
use vstd::string::*;
use crate::cache::{CacheFlow, CacheKind, FlowState, FlowView};
use crate::digest::{digest_name, name_of};
use crate::text::{
    append_decimal,
    decimal_text,
    opt_text,
};

verus! {

/// The tag of a subject's kind.
pub open spec fn subject_tag(is_group: bool) -> Seq<char> {
    if is_group {
        "group"@
    } else {
        "user"@
    }
}

/// The key of a subject's avatar: the kind's tag, a colon and the id.
pub open spec fn avatar_key(id: int, is_group: bool) -> Seq<char> {
    subject_tag(is_group) + ":"@ + decimal_text(id)
}

/// The file name of a subject's avatar: the kind's tag, an underscore, the
/// digest name of the key and the suffix `.png`.
pub open spec fn avatar_filename(id: int, is_group: bool) -> Seq<char> {
    subject_tag(is_group) + "_"@ + digest_name(avatar_key(id, is_group)) + ".png"@
}

/// The address that a subject's avatar is fetched from.
pub open spec fn avatar_address(id: int, is_group: bool) -> Seq<char> {
    if is_group {
        "http://p.qlogo.cn/gh/"@ + decimal_text(id) + "/"@ + decimal_text(id) + "/640"@
    } else {
        "http://q.qlogo.cn/headimg_dl?dst_uin="@ + decimal_text(id) + "&spec=640&img_type=png"@
    }
}

/// The name of an account's directory under the data root.
pub open spec fn account_dir(self_id: int) -> Seq<char> {
    "user_"@ + decimal_text(self_id)
}

/// The name of an account's directory, where the account is known. Without
/// one the data root itself is used.
pub open spec fn opt_account_dir(self_id: Option<i64>) -> Option<Seq<char>> {
    match self_id {
        Some(id) => Some(account_dir(id as int)),
        None => None,
    }
}

fn tag(is_group: bool) -> (r: &'static str)
    ensures
        r@ == subject_tag(is_group),
{
    if is_group {
        "group"
    } else {
        "user"
    }
}

/// The file name under which a subject's avatar is cached.
pub fn get_avatar_filename(user_id: i64, is_group: bool) -> (r: String)
    ensures
        r@ == avatar_filename(user_id as int, is_group),
{
    let mut key = tag(is_group).to_owned();
    key.append(":");
    append_decimal(&mut key, user_id);
    let mut name = tag(is_group).to_owned();
    name.append("_");
    name.append(name_of(key.as_str()).as_str());
    name.append(".png");
    name
}

/// The address that a subject's avatar is fetched from.
pub fn avatar_url(id: i64, is_group: bool) -> (r: String)
    ensures
        r@ == avatar_address(id as int, is_group),
{
    if is_group {
        let mut url = "http://p.qlogo.cn/gh/".to_owned();
        append_decimal(&mut url, id);
        url.append("/");
        append_decimal(&mut url, id);
        url.append("/640");
        url
    } else {
        let mut url = "http://q.qlogo.cn/headimg_dl?dst_uin=".to_owned();
        append_decimal(&mut url, id);
        url.append("&spec=640&img_type=png");
        url
    }
}

/// The name of an account's directory under the data root.
pub fn get_user_data_dir(self_id: Option<i64>) -> (r: Option<String>)
    ensures
        opt_text(r) == opt_account_dir(self_id),
{
    match self_id {
        Some(id) => {
            let mut name = "user_".to_owned();
            append_decimal(&mut name, id);
            Some(name)
        },
        None => None,
    }
}

/// A directory of the cache: under the data root, the account's directory
/// where the account is known, and in it the directory `name`.
#[derive(Clone, Debug, PartialEq)]
pub struct CacheDir {
    pub account_dir: Option<String>,
    pub name: String,
}

/// Where a cached entry lives and how it is obtained.
#[derive(Clone, Debug, PartialEq)]
pub struct CacheTarget {
    pub dir: CacheDir,
    pub file_name: String,
    /// The flow to run for the entry, before its path is probed.
    pub flow: CacheFlow,
}

/// The directory that holds an account's avatars.
pub fn get_avatar_cache_dir(self_id: Option<i64>) -> (r: CacheDir)
    ensures
        opt_text(r.account_dir) == opt_account_dir(self_id),
        r.name@ == "avatars"@,
{
    CacheDir { account_dir: get_user_data_dir(self_id), name: "avatars".to_owned() }
}

/// The directory to empty when an account's avatars are cleared: it is
/// removed with all it holds and created again.
pub fn clear_avatar_cache(self_id: Option<i64>) -> (r: CacheDir)
    ensures
        opt_text(r.account_dir) == opt_account_dir(self_id),
        r.name@ == "avatars"@,
{
    get_avatar_cache_dir(self_id)
}

/// The flow that obtains an avatar, as plain values: an identity image,
/// fetched from the subject's address, with no identifier to recover by.
pub open spec fn avatar_flow(id: int, is_group: bool) -> FlowView {
    FlowView {
        kind: CacheKind::Identity,
        url: avatar_address(id, is_group),
        file_id: None,
        state: FlowState::Start,
        fetches: 0,
    }
}

/// Where the avatar of a user or a group is cached for the account
/// `self_id`, and the flow that obtains it.
pub fn get_user_avatar_sync(id: i64, self_id: Option<i64>, is_group: bool) -> (r: CacheTarget)
    ensures
        opt_text(r.dir.account_dir) == opt_account_dir(self_id),
        r.dir.name@ == "avatars"@,
        r.file_name@ == avatar_filename(id as int, is_group),
        r.flow@ == avatar_flow(id as int, is_group),
        r.flow.wf(),
{
    let url = avatar_url(id, is_group);
    CacheTarget {
        dir: get_avatar_cache_dir(self_id),
        file_name: get_avatar_filename(id, is_group),
        flow: CacheFlow::new(CacheKind::Identity, url.as_str(), &None),
    }
}

/// Where a user's avatar is cached, and the flow that obtains it.
pub fn get_user_avatar(user_id: i64, self_id: Option<i64>) -> (r: CacheTarget)
    ensures
        opt_text(r.dir.account_dir) == opt_account_dir(self_id),
        r.dir.name@ == "avatars"@,
        r.file_name@ == avatar_filename(user_id as int, false),
        r.flow@ == avatar_flow(user_id as int, false),
        r.flow.wf(),
{
    get_user_avatar_sync(user_id, self_id, false)
}

/// Where a group's avatar is cached, and the flow that obtains it.
pub fn get_group_avatar(group_id: i64, self_id: Option<i64>) -> (r: CacheTarget)
    ensures
        opt_text(r.dir.account_dir) == opt_account_dir(self_id),
        r.dir.name@ == "avatars"@,
        r.file_name@ == avatar_filename(group_id as int, true),
        r.flow@ == avatar_flow(group_id as int, true),
        r.flow.wf(),
{
    get_user_avatar_sync(group_id, self_id, true)
}

} // verus!
