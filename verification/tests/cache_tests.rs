use base64::Engine;
use runbot_desktop::asset::{ends_with, mime_type, route_asset, starts_with, AssetRoute};
use runbot_desktop::avatar::{
    avatar_url, clear_avatar_cache, get_avatar_cache_dir, get_avatar_filename, get_group_avatar,
    get_user_avatar, get_user_avatar_sync, get_user_data_dir,
};
use runbot_desktop::cache::{
    fresh, is_url_expired, timeout_secs, ttl_secs, CacheAction, CacheEvent, CacheFlow, CacheKind,
    CacheProbe, FlowState,
};
use runbot_desktop::config::get_storage_path;
use runbot_desktop::digest::{name_of, rendering_of};
use runbot_desktop::image::{check_image_cache, download_image, get_image_filename, sniff_extension};
use sha2::Digest;

const DAY: u64 = 24 * 60 * 60;

fn probe(exists: bool, age_secs: Option<u64>) -> CacheEvent {
    CacheEvent::Probed(CacheProbe { exists, age_secs })
}

fn media(file: Option<&str>) -> CacheFlow {
    CacheFlow::new(CacheKind::Media, "http://host/a.png", &file.map(|f| f.to_string()))
}

fn fetch(url: &str, timeout_secs: u64) -> CacheAction {
    CacheAction::Fetch { url: url.to_string(), timeout_secs }
}

#[test]
fn digest_name_is_the_start_of_the_base64_of_the_sha256() {
    assert_eq!(rendering_of("hello world"), "uU0nuZNNPgilLlLX2n2r+sSE7+N6U4DukIj3rOLvzek=");
    assert_eq!(name_of("hello world"), "uU0nuZNNPgilLlLX");
    let key = "user:123";
    let whole = base64::engine::general_purpose::STANDARD.encode(sha2::Sha256::digest(key));
    assert_eq!(rendering_of(key), whole);
    assert_eq!(name_of(key), &whole[..16]);
    assert_eq!(name_of("").len(), 16);
}

#[test]
fn avatar_names_and_addresses() {
    assert_eq!(get_avatar_filename(123, false), format!("user_{}.png", name_of("user:123")));
    assert_eq!(get_avatar_filename(-5, true), format!("group_{}.png", name_of("group:-5")));
    assert_eq!(
        avatar_url(10001, false),
        "http://q.qlogo.cn/headimg_dl?dst_uin=10001&spec=640&img_type=png"
    );
    assert_eq!(avatar_url(77, true), "http://p.qlogo.cn/gh/77/77/640");
    assert_eq!(get_user_data_dir(Some(956279803)), Some("user_956279803".to_string()));
    assert_eq!(get_user_data_dir(None), None);
    let dir = get_avatar_cache_dir(Some(1));
    assert_eq!(dir.account_dir, Some("user_1".to_string()));
    assert_eq!(dir.name, "avatars");
    assert_eq!(clear_avatar_cache(None).account_dir, None);
    assert_eq!(clear_avatar_cache(None).name, "avatars");
}

#[test]
fn avatar_targets_are_identity_flows() {
    let target = get_user_avatar(123, Some(9));
    assert_eq!(target.dir.account_dir, Some("user_9".to_string()));
    assert_eq!(target.dir.name, "avatars");
    assert_eq!(target.file_name, get_avatar_filename(123, false));
    assert_eq!(target.flow, CacheFlow::new(CacheKind::Identity, &avatar_url(123, false), &None));
    let target = get_group_avatar(5, None);
    assert_eq!(target.file_name, get_avatar_filename(5, true));
    assert_eq!(target.flow.url, "http://p.qlogo.cn/gh/5/5/640");
    assert_eq!(get_user_avatar_sync(5, None, true), target);
}

#[test]
fn extension_is_sniffed_before_the_query_string() {
    assert_eq!(sniff_extension("http://host/a.png"), "png");
    assert_eq!(sniff_extension("http://host/a.png?x=1"), "png");
    assert_eq!(sniff_extension("http://host/a.png?x=1.5"), "png");
    assert_eq!(sniff_extension("http://h/a.png?v=1.5"), "png");
    assert_eq!(sniff_extension("http://host/a.tar.gz?x=1?y=2.jpeg"), "gz");
    assert_eq!(sniff_extension("?a.png"), "jpg");
    assert_eq!(sniff_extension("http://host/a.?b"), "");
    assert_eq!(sniff_extension("no dot at all"), "jpg");
    assert_eq!(sniff_extension("http://host/a."), "");
    assert_eq!(sniff_extension("http://host/a.0123456789"), "0123456789");
    assert_eq!(sniff_extension("http://host/a.0123456789a"), "jpg");
    assert_eq!(sniff_extension("http://host/path?file=a"), "jpg");
    assert_eq!(
        get_image_filename("http://h/a.png?v=1.5"),
        format!("{}.png", name_of("http://h/a.png?v=1.5"))
    );
}

#[test]
fn image_targets_are_media_flows() {
    let target = download_image("http://host/a.png", Some(3), &Some("f1".to_string()));
    assert_eq!(target.dir.account_dir, Some("user_3".to_string()));
    assert_eq!(target.dir.name, "images");
    assert_eq!(target.file_name, get_image_filename("http://host/a.png"));
    assert_eq!(target.flow, media(Some("f1")));
    let young = CacheProbe { exists: true, age_secs: Some(30 * DAY - 1) };
    let old = CacheProbe { exists: true, age_secs: Some(30 * DAY) };
    let place = check_image_cache("http://host/a.png", None, &young).unwrap();
    assert_eq!(place.0.account_dir, None);
    assert_eq!(place.0.name, "images");
    assert_eq!(place.1, get_image_filename("http://host/a.png"));
    assert!(check_image_cache("http://host/a.png", None, &old).is_none());
}

#[test]
fn ttl_and_timeouts() {
    assert_eq!(ttl_secs(CacheKind::Identity), 604800);
    assert_eq!(ttl_secs(CacheKind::Media), 2592000);
    assert_eq!(timeout_secs(CacheKind::Identity), 10);
    assert_eq!(timeout_secs(CacheKind::Media), 30);
    assert!(fresh(&CacheProbe { exists: true, age_secs: Some(0) }, 10));
    assert!(fresh(&CacheProbe { exists: true, age_secs: Some(9) }, 10));
    assert!(!fresh(&CacheProbe { exists: true, age_secs: Some(10) }, 10));
    assert!(!fresh(&CacheProbe { exists: true, age_secs: None }, 10));
    assert!(!fresh(&CacheProbe { exists: false, age_secs: Some(0) }, 10));
}

#[test]
fn young_identity_image_is_served_without_a_fetch() {
    let mut flow = get_user_avatar(1, None).flow;
    assert_eq!(flow.step(&probe(true, Some(7 * DAY - 1))), CacheAction::Serve);
    assert_eq!(flow.state, FlowState::Done);
    assert_eq!(flow.fetches, 0);
    assert!(flow.is_done());
}

#[test]
fn old_identity_image_is_fetched_exactly_once() {
    let mut flow = get_user_avatar(1, None).flow;
    assert_eq!(flow.step(&probe(true, Some(7 * DAY))), fetch(&avatar_url(1, false), 10));
    assert_eq!(flow.fetches, 1);
    assert_eq!(
        flow.step(&CacheEvent::FetchFailed("下载头像失败: HTTP 404 Not Found".to_string())),
        CacheAction::CheckExists
    );
    assert_eq!(flow.step(&CacheEvent::Exists(true)), CacheAction::Serve);
    assert_eq!(flow.fetches, 1);
    assert!(flow.is_done());
}

#[test]
fn missing_entry_is_fetched_and_served() {
    let mut flow = media(None);
    assert_eq!(flow.step(&probe(false, None)), fetch("http://host/a.png", 30));
    assert_eq!(flow.state, FlowState::Fetching);
    assert_eq!(flow.step(&CacheEvent::Fetched), CacheAction::Serve);
    assert!(flow.is_done());
}

#[test]
fn failed_fetch_falls_back_to_the_stale_file() {
    let mut flow = media(None);
    flow.step(&probe(true, Some(31 * DAY)));
    assert_eq!(
        flow.step(&CacheEvent::FetchFailed("下载图片失败: timeout".to_string())),
        CacheAction::CheckExists
    );
    assert_eq!(flow.step(&CacheEvent::Exists(true)), CacheAction::Serve);
    let mut flow = media(None);
    flow.step(&probe(false, None));
    flow.step(&CacheEvent::FetchFailed("下载图片失败: timeout".to_string()));
    assert_eq!(flow.step(&CacheEvent::Exists(false)), CacheAction::Missing);
    assert!(flow.is_done());
}

#[test]
fn expired_address_is_resolved_and_fetched_again_once() {
    let mut flow = media(Some("f1"));
    flow.step(&probe(false, None));
    assert_eq!(
        flow.step(&CacheEvent::FetchFailed("下载图片失败: HTTP 403 Forbidden - no".to_string())),
        CacheAction::ResolveDetail { file_id: "f1".to_string() }
    );
    assert_eq!(
        flow.step(&CacheEvent::DetailResolved("http://fresh/a.png".to_string())),
        fetch("http://fresh/a.png", 30)
    );
    assert_eq!(flow.fetches, 2);
    assert_eq!(flow.step(&CacheEvent::Fetched), CacheAction::Serve);
    assert_eq!(flow.fetches, 2);

    let mut flow = media(Some("f1"));
    flow.step(&probe(false, None));
    flow.step(&CacheEvent::FetchFailed("HTTP 404".to_string()));
    flow.step(&CacheEvent::DetailResolved("http://fresh/a.png".to_string()));
    assert_eq!(
        flow.step(&CacheEvent::FetchFailed("HTTP 404".to_string())),
        CacheAction::CheckExists
    );
    assert_eq!(flow.step(&CacheEvent::Exists(false)), CacheAction::Missing);
    assert_eq!(flow.fetches, 2);
}

#[test]
fn recovery_needs_an_identifier_and_an_expired_address() {
    let mut flow = media(None);
    flow.step(&probe(false, None));
    assert_eq!(flow.step(&CacheEvent::FetchFailed("HTTP 404".to_string())), CacheAction::CheckExists);
    let mut flow = media(Some("f1"));
    flow.step(&probe(false, None));
    assert_eq!(flow.step(&CacheEvent::FetchFailed("HTTP 500".to_string())), CacheAction::CheckExists);
    assert!(is_url_expired("x HTTP 400 y"));
    assert!(is_url_expired("HTTP 403"));
    assert!(is_url_expired("HTTP 404"));
    assert!(!is_url_expired("HTTP 401"));
    assert!(!is_url_expired("http 404"));
}

#[test]
fn generic_query_stands_in_for_the_lookup() {
    let start = || {
        let mut flow = media(Some("f1"));
        flow.step(&probe(false, None));
        flow.step(&CacheEvent::FetchFailed("HTTP 400".to_string()));
        flow
    };
    let mut flow = start();
    assert_eq!(
        flow.step(&CacheEvent::DetailUnavailable),
        CacheAction::QueryImage { file_id: "f1".to_string() }
    );
    let answer: serde_json::Value =
        serde_json::from_str("{\"url\":\"http://fresh/b.png\",\"file\":\"f1\"}").unwrap();
    assert_eq!(flow.step(&CacheEvent::QueryAnswered(answer)), fetch("http://fresh/b.png", 30));
    assert_eq!(flow.state, FlowState::Retrying);

    let mut flow = start();
    flow.step(&CacheEvent::DetailUnavailable);
    let answer: serde_json::Value = serde_json::from_str("{\"url\":5}").unwrap();
    assert_eq!(flow.step(&CacheEvent::QueryAnswered(answer)), CacheAction::CheckExists);

    let mut flow = start();
    flow.step(&CacheEvent::DetailUnavailable);
    assert_eq!(
        flow.step(&CacheEvent::QueryFailed("调用 get_image API 失败".to_string())),
        CacheAction::CheckExists
    );
    assert_eq!(flow.step(&CacheEvent::Exists(true)), CacheAction::Serve);
    assert_eq!(flow.fetches, 1);
    assert!(flow.is_done());

    let mut flow = start();
    flow.step(&CacheEvent::DetailUnavailable);
    flow.step(&CacheEvent::QueryFailed("timeout".to_string()));
    assert_eq!(flow.step(&CacheEvent::Exists(false)), CacheAction::Missing);

    let mut flow = start();
    assert_eq!(flow.step(&CacheEvent::NoSession), CacheAction::CheckExists);
}

#[test]
fn events_out_of_turn_are_rejected() {
    let mut flow = media(None);
    assert_eq!(flow.step(&CacheEvent::Fetched), CacheAction::Rejected);
    assert_eq!(flow.state, FlowState::Start);
    flow.step(&probe(true, Some(0)));
    assert_eq!(flow.step(&probe(true, Some(0))), CacheAction::Rejected);
    assert_eq!(flow.step(&CacheEvent::Exists(true)), CacheAction::Rejected);
    assert!(flow.is_done());
}

#[test]
fn settings_are_named_by_the_whole_digest() {
    let place = get_storage_path("theme", Some(7));
    assert_eq!(place.0, Some("user_7".to_string()));
    assert_eq!(place.1, format!("{}.json", rendering_of("theme")));
    assert_eq!(place.1.len(), 49);
    assert_eq!(get_storage_path("theme", None).0, None);
}

#[test]
fn asset_addresses_are_routed() {
    assert_eq!(
        route_asset("asset://avatar/user/123456.png"),
        AssetRoute::Avatar { is_group: false, id: 123456 }
    );
    assert_eq!(
        route_asset("asset://avatar/group/77.png?x=1"),
        AssetRoute::Avatar { is_group: true, id: 77 }
    );
    assert_eq!(route_asset("asset://avatar/user/-3"), AssetRoute::Avatar { is_group: false, id: -3 });
    assert_eq!(
        route_asset("asset://avatar/user"),
        AssetRoute::Refuse { status: 400, body: "Invalid avatar URL format".to_string() }
    );
    assert_eq!(
        route_asset("asset://avatar/user/1/2"),
        AssetRoute::Refuse { status: 400, body: "Invalid avatar URL format".to_string() }
    );
    assert_eq!(
        route_asset("asset://avatar/user/abc.png"),
        AssetRoute::Refuse { status: 400, body: "Invalid avatar ID".to_string() }
    );
    assert_eq!(
        route_asset("asset://avatar/user/.png"),
        AssetRoute::Refuse { status: 400, body: "Invalid avatar ID".to_string() }
    );
    assert_eq!(
        route_asset("asset://qface/gif/s1.gif"),
        AssetRoute::Face { path: "gif/s1.gif".to_string() }
    );
    assert_eq!(
        route_asset("asset://qface/static/s1.png"),
        AssetRoute::Refuse { status: 404, body: "Only GIF faces are embedded".to_string() }
    );
    assert_eq!(
        route_asset("asset://localhost/user_1/avatars/a%2Bb.png"),
        AssetRoute::Local { path: "user_1/avatars/a+b.png".to_string() }
    );
    assert_eq!(
        route_asset("asset://localhost/user_1/%FF"),
        AssetRoute::Local { path: "user_1/%FF".to_string() }
    );
    assert_eq!(
        route_asset("asset://localhost/etc/passwd"),
        AssetRoute::Refuse {
            status: 403,
            body: "Access denied: invalid path (must start with 'user_'): etc/passwd".to_string()
        }
    );
    assert_eq!(
        route_asset("http://elsewhere"),
        AssetRoute::Refuse { status: 404, body: "Not found".to_string() }
    );
}

#[test]
fn content_types_go_by_the_ending() {
    assert_eq!(mime_type("a/b.png"), "image/png");
    assert_eq!(mime_type("a.jpg"), "image/jpeg");
    assert_eq!(mime_type("a.jpeg"), "image/jpeg");
    assert_eq!(mime_type("a.gif"), "image/gif");
    assert_eq!(mime_type("a.webp"), "image/webp");
    assert_eq!(mime_type("a.PNG"), "application/octet-stream");
    assert_eq!(mime_type("png"), "application/octet-stream");
    assert!(starts_with("user_1", "user_"));
    assert!(!starts_with("use", "user_"));
    assert!(ends_with("a.gif", ".gif"));
    assert!(!ends_with("gif", ".gif"));
}
