use pbskids_dl::assets::{extract_assets_from_page, save_name_for, try_extract_assets};
use pbskids_dl::config::PageConfig;
use pbskids_dl::json::JsonValue;

fn tags(names: &[&str]) -> Vec<String> {
    names.iter().map(|s| s.to_string()).collect()
}

fn page_config() -> PageConfig {
    PageConfig {
        video_nested_tag: tags(&["props", "pageProps", "videoData", "mediaManagerAsset", "videos"]),
        title_nested_tag: tags(&["props", "pageProps", "videoData", "mediaManagerAsset", "title"]),
        drm_nested_tag: tags(&["props", "pageProps", "videoData", "mediaManagerAsset", "drm_enabled"]),
        script_start_marker: "<script id=\"__NEXT_DATA__\" type=\"application/json\">".to_string(),
        script_end_marker: "</script>".to_string(),
        video_profile: "profile".to_string(),
        selected_video_profile: "mp4-16x9-baseline".to_string(),
    }
}

fn page_with(asset: &str) -> String {
    format!(
        "<html><head><script>var x = 1;</script></head><body><script id=\"__NEXT_DATA__\" type=\"application/json\">{{\"props\":{{\"pageProps\":{{\"videoData\":{{\"mediaManagerAsset\":{}}}}}}}}}</script><script>tail</script></body></html>",
        asset
    )
}

fn str_of(v: &JsonValue) -> Option<&str> {
    match v {
        JsonValue::Str(s) => Some(s.as_str()),
        _ => None,
    }
}

#[test]
fn extracts_videos_and_title_name() {
    let page = page_with(
        "{\"title\":\"Daniel/Tiger\\\\Episode\",\"drm_enabled\":false,\"videos\":[{\"profile\":\"hls\",\"url\":\"https://a/x.m3u8\"},{\"profile\":\"mp4-16x9-baseline\",\"url\":\"https://a/x.mp4\",\"bitrate\":1200}]}",
    );
    let (videos, name) = extract_assets_from_page(&page, &page_config(), None).unwrap();
    assert_eq!(name, "Daniel+Tiger+Episode.mp4");
    assert_eq!(videos.len(), 2);
    let profile = "profile".to_string();
    assert_eq!(videos[1].get(&profile).and_then(str_of), Some("mp4-16x9-baseline"));
    let bitrate = "bitrate".to_string();
    match videos[1].get(&bitrate) {
        Some(JsonValue::Number(n)) => assert_eq!(n, "1200"),
        other => panic!("unexpected {:?}", other),
    }
}

#[test]
fn given_file_name_is_used() {
    let page = page_with("{\"title\":\"T\",\"videos\":[]}");
    let given = "mine.mp4".to_string();
    let (videos, name) = extract_assets_from_page(&page, &page_config(), Some(&given)).unwrap();
    assert_eq!(name, "mine.mp4");
    assert!(videos.is_empty());
}

#[test]
fn title_is_needed_even_with_given_name() {
    let page = page_with("{\"videos\":[]}");
    let given = "mine.mp4".to_string();
    let e = extract_assets_from_page(&page, &page_config(), Some(&given)).unwrap_err();
    assert_eq!(e.error_code, 14);
}

#[test]
fn drm_page_is_refused() {
    let page = page_with("{\"title\":\"T\",\"drm_enabled\":true}");
    let e = extract_assets_from_page(&page, &page_config(), None).unwrap_err();
    assert_eq!(e.error_code, 29);
    assert_eq!(e.to_string(), "DRM Content is not available in pbskids-dl.");
}

#[test]
fn drm_flag_that_is_not_true_is_ignored() {
    let page = page_with("{\"title\":\"T\",\"drm_enabled\":\"yes\",\"videos\":[]}");
    assert!(extract_assets_from_page(&page, &page_config(), None).is_ok());
}

#[test]
fn missing_drm_holder_is_bad_address() {
    let page = "<script id=\"__NEXT_DATA__\" type=\"application/json\">{\"props\":{}}</script>";
    let e = extract_assets_from_page(page, &page_config(), None).unwrap_err();
    assert_eq!(e.error_code, 14);
    assert_eq!(
        e.to_string(),
        "ERROR: The video was not found! Is the link a PBS Kids Video link?"
    );
}

#[test]
fn videos_not_a_list_is_bad_address() {
    let page = page_with("{\"title\":\"T\",\"videos\":{}}");
    let e = extract_assets_from_page(&page, &page_config(), None).unwrap_err();
    assert_eq!(e.error_code, 14);
}

#[test]
fn title_not_a_string_is_bad_address() {
    let page = page_with("{\"title\":5,\"videos\":[]}");
    let e = extract_assets_from_page(&page, &page_config(), None).unwrap_err();
    assert_eq!(e.error_code, 14);
}

#[test]
fn page_without_marker_is_bad_address() {
    let e = extract_assets_from_page("<html></html>", &page_config(), None).unwrap_err();
    assert_eq!(e.error_code, 14);
}

#[test]
fn page_without_end_marker_is_bad_address() {
    let page = "<script id=\"__NEXT_DATA__\" type=\"application/json\">{}";
    let e = extract_assets_from_page(page, &page_config(), None).unwrap_err();
    assert_eq!(e.error_code, 14);
}

#[test]
fn broken_document_is_a_parse_error() {
    let page = "<script id=\"__NEXT_DATA__\" type=\"application/json\">{\"props\":</script>";
    let e = extract_assets_from_page(page, &page_config(), None).unwrap_err();
    assert_eq!(e.error_code, 255);
    assert!(e.to_string().starts_with("Failed to parse. Error: "));
    assert!(e.to_string().len() > "Failed to parse. Error: ".len());
}

#[test]
fn non_ascii_page_text_is_handled() {
    let page = format!("<p>Épisode — ünïcödé</p>{}", page_with("{\"title\":\"Épisode/1\",\"videos\":[]}"));
    let (_, name) = extract_assets_from_page(&page, &page_config(), None).unwrap();
    assert_eq!(name, "Épisode+1.mp4");
}

#[test]
fn save_name_replaces_slashes() {
    assert_eq!(save_name_for(&"a/b\\c".to_string()), "a+b+c.mp4");
    assert_eq!(save_name_for(&"".to_string()), ".mp4");
    assert_eq!(save_name_for(&"Plain Title".to_string()), "Plain Title.mp4");
}

#[test]
fn only_text_between_markers_matters() {
    let config = page_config();
    let start = config.script_start_marker.clone();
    let end = config.script_end_marker.clone();
    let body = "{\"props\":{\"pageProps\":{\"videoData\":{\"mediaManagerAsset\":{\"title\":\"A/B\",\"videos\":[]}}}}}";
    let page = format!("<html>{}{}{}<p>more</p>{}x{}</html>", start, body, end, start, end);
    let framed = format!("{}{}{}", start, body, end);
    let (v1, n1) = extract_assets_from_page(&page, &config, None).unwrap();
    let (v2, n2) = extract_assets_from_page(&framed, &config, None).unwrap();
    assert_eq!(n1, n2);
    assert_eq!(n1, "A+B.mp4");
    assert_eq!(v1.len(), v2.len());
}

#[test]
fn empty_tag_path_stops_only_when_used() {
    let mut config = page_config();
    config.title_nested_tag = vec![];
    // no document: the missing video error comes first
    let e = try_extract_assets("<html></html>", &config, None).unwrap().unwrap_err();
    assert_eq!(e.error_code, 14);
    // a broken document: the parse error comes first
    let broken = "<script id=\"__NEXT_DATA__\" type=\"application/json\">{</script>";
    let e = try_extract_assets(broken, &config, None).unwrap().unwrap_err();
    assert_eq!(e.error_code, 255);
    // DRM is reported before the title path is used
    let page = page_with("{\"drm_enabled\":true}");
    let e = try_extract_assets(&page, &config, None).unwrap().unwrap_err();
    assert_eq!(e.error_code, 29);
    // a missing video list is reported before the title path is used
    let page = page_with("{\"title\":\"T\"}");
    let e = try_extract_assets(&page, &config, None).unwrap().unwrap_err();
    assert_eq!(e.error_code, 14);
    // with the video list found, the title path is used: nothing comes back
    let page = page_with("{\"title\":\"T\",\"videos\":[]}");
    assert!(try_extract_assets(&page, &config, None).is_none());
    // an empty DRM path is used as soon as the document parses
    let mut config = page_config();
    config.drm_nested_tag = vec![];
    assert!(try_extract_assets(&page, &config, None).is_none());
    assert!(try_extract_assets("<html></html>", &config, None).is_some());
}

#[test]
fn try_extract_gives_what_extract_gives() {
    let page = page_with("{\"title\":\"T\",\"videos\":[]}");
    let (_, name) = try_extract_assets(&page, &page_config(), None).unwrap().unwrap();
    assert_eq!(name, "T.mp4");
}

#[test]
fn parse_error_text_depends_on_script_only() {
    let config = page_config();
    let start = config.script_start_marker.clone();
    let end = config.script_end_marker.clone();
    let body = "{\"props\": [1, 2";
    let page = format!("<html><p>lead</p>{}{}{}<p>tail</p></html>", start, body, end);
    let framed = format!("{}{}{}", start, body, end);
    let e1 = extract_assets_from_page(&page, &config, None).unwrap_err();
    let e2 = extract_assets_from_page(&framed, &config, None).unwrap_err();
    assert_eq!(e1.error_code, 255);
    assert_eq!(e1.to_string(), e2.to_string());
    let direct = serde_json::from_str::<serde_json::Value>(body).unwrap_err();
    assert_eq!(e1.to_string(), format!("Failed to parse. Error: {}", direct));
}
