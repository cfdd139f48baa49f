//! Per-account settings: each key has a file of its own, named by the key's
//! digest.

use vstd::prelude::*;
use vstd::string::*;
use crate::avatar::{get_user_data_dir, opt_account_dir};
use crate::digest::{digest_text, rendering_of};
use crate::text::opt_text;

verus! {

/// The name of the file that holds the setting `key`: the whole rendering of
/// the key's digest and the suffix `.json`.
pub open spec fn config_filename(key: Seq<char>) -> Seq<char> {
    digest_text(key) + ".json"@
}

/// Where the setting `key` of the account `self_id` is kept: the account's
/// directory, where the account is known, and the file's name in it.
pub fn get_storage_path(key: &str, self_id: Option<i64>) -> (r: (Option<String>, String))
    ensures
        opt_text(r.0) == opt_account_dir(self_id),
        r.1@ == config_filename(key@),
{
    let mut name = rendering_of(key);
    name.append(".json");
    (get_user_data_dir(self_id), name)
}

} // verus!
