use pbskids_dl::config::{config_search_paths, config_step, ConfigStep};
use pbskids_dl::downloader::{
    gui_request, select_video_url, DownloadProgress, ProgressMode, ReadOutcome,
};
use pbskids_dl::json::JsonValue;

fn video(profile: &str, url: Option<&str>) -> JsonValue {
    let mut entries = vec![("profile".to_string(), JsonValue::Str(profile.to_string()))];
    if let Some(u) = url {
        entries.push(("url".to_string(), JsonValue::Str(u.to_string())));
    }
    JsonValue::Object(entries)
}

#[test]
fn first_matching_video_is_selected() {
    let videos = vec![
        video("hls", Some("u0")),
        video("mp4", Some("u1")),
        video("mp4", Some("u2")),
    ];
    let r = select_video_url(&videos, &"profile".to_string(), &"mp4".to_string()).unwrap();
    assert_eq!(r, Some("u1".to_string()));
}

#[test]
fn no_matching_video_selects_nothing() {
    let videos = vec![video("hls", Some("u0"))];
    let r = select_video_url(&videos, &"profile".to_string(), &"mp4".to_string()).unwrap();
    assert_eq!(r, None);
    let r = select_video_url(&vec![], &"profile".to_string(), &"mp4".to_string()).unwrap();
    assert_eq!(r, None);
}

#[test]
fn matching_video_without_url_is_bad_address() {
    let videos = vec![video("mp4", None), video("mp4", Some("u2"))];
    let e = select_video_url(&videos, &"profile".to_string(), &"mp4".to_string()).unwrap_err();
    assert_eq!(e.error_code, 14);
}

#[test]
fn read_loop_counts_bytes() {
    let mut p = DownloadProgress::new();
    assert_eq!(
        p.after_read(8192, ProgressMode::Console),
        ReadOutcome::Write { len: 8192, position: Some(8192) }
    );
    assert_eq!(
        p.after_read(100, ProgressMode::Console),
        ReadOutcome::Write { len: 100, position: Some(8292) }
    );
    assert_eq!(
        p.after_read(8, ProgressMode::Quiet),
        ReadOutcome::Write { len: 8, position: None }
    );
    assert_eq!(p.after_read(0, ProgressMode::Console), ReadOutcome::Finished);
    assert_eq!(p.downloaded, 8300);
}

#[test]
fn cli_mode() {
    assert_eq!(ProgressMode::for_cli(true), ProgressMode::Quiet);
    assert_eq!(ProgressMode::for_cli(false), ProgressMode::Console);
}

#[test]
fn gui_fields() {
    assert_eq!(gui_request(&"".to_string(), &"f".to_string()), None);
    assert_eq!(gui_request(&"u".to_string(), &"".to_string()), Some(None));
    assert_eq!(
        gui_request(&"u".to_string(), &"f.mp4".to_string()),
        Some(Some("f.mp4".to_string()))
    );
}

#[test]
fn config_paths_in_order() {
    let p = config_search_paths(&"config.json".to_string());
    assert_eq!(
        p,
        vec![
            "config.json".to_string(),
            "~/.config/pbskids-dl.rs/config.json".to_string(),
            "/usr/lib/pbskids-dl.rs/config.json".to_string(),
        ]
    );
}

#[test]
fn config_steps() {
    assert_eq!(config_step(true, 0, 3), ConfigStep::Parse);
    assert_eq!(config_step(false, 0, 3), ConfigStep::TryNext);
    assert_eq!(config_step(false, 2, 3), ConfigStep::NotFound);
    assert_eq!(config_step(true, 2, 3), ConfigStep::Parse);
}
