//! From a video page to the list of videos and the name of the file to save.

use vstd::prelude::*;

use crate::config::PageConfig;
use crate::errors::{exit_code_value, json_text, AppError, LinuxExitCodes};
use crate::errors::parse_prefix;
use crate::json::{member, names, parse_json, parsed_json, path_lookup, JsonValue};
use crate::text::{find_script, occurs_at, script_range};
use vstd::utf8::encode_utf8;

verus! {

broadcast use vstd::string::group_string_axioms;

/// `String::push`.
#[verifier::external_body]
fn push_char(s: &mut String, c: char)
    ensures
        final(s)@ == old(s)@.push(c),
{
    s.push(c)
}

/// A character as it may stand in a file name: both kinds of slash become `+`.
pub open spec fn file_name_char(c: char) -> char {
    if c == '/' || c == '\\' {
        '+'
    } else {
        c
    }
}

/// The name of the file a video with this title is saved to.
pub open spec fn save_name(title: Seq<char>) -> Seq<char> {
    title.map_values(|c: char| file_name_char(c)) + ".mp4"@
}

/// A saved file name holds no slash of either kind, keeps every other
/// character of the title in place, and ends in `.mp4`.
pub proof fn lemma_save_name_is_safe(title: Seq<char>)
    ensures
        save_name(title).len() == title.len() + 4,
        save_name(title).subrange(title.len() as int, (title.len() + 4) as int) == ".mp4"@,
        forall|i: int|
            0 <= i < save_name(title).len() ==> #[trigger] save_name(title)[i] != '/'
                && save_name(title)[i] != '\\',
        forall|i: int|
            0 <= i < title.len() && title[i] != '/' && title[i] != '\\' ==> #[trigger] save_name(
                title,
            )[i] == title[i],
{
    reveal_strlit(".mp4");
    let mapped = title.map_values(|c: char| file_name_char(c));
    assert(save_name(title).subrange(title.len() as int, (title.len() + 4) as int) =~= ".mp4"@);
    assert forall|i: int| 0 <= i < save_name(title).len() implies #[trigger] save_name(title)[i]
        != '/' && save_name(title)[i] != '\\' by {
        if i < title.len() {
            assert(save_name(title)[i] == mapped[i]);
        } else {
            assert(save_name(title)[i] == ".mp4"@[i - title.len()]);
        }
    }
}

/// The name of the file a video with this title is saved to.
pub fn save_name_for(title: &String) -> (r: String)
    ensures
        r@ == save_name(title@),
{
    let mut out = String::new();
    for c in it: title.chars()
        invariant
            it.seq() == title@,
            out@ == title@.take(it.index()).map_values(|c: char| file_name_char(c)),
    {
        proof {
            assert(title@.take(it.index() + 1).map_values(|c: char| file_name_char(c)) =~= title@.take(
                it.index(),
            ).map_values(|c: char| file_name_char(c)).push(file_name_char(c)));
        }
        if c == '/' || c == '\\' {
            push_char(&mut out, '+');
        } else {
            push_char(&mut out, c);
        }
    }
    assert(title@.take(title@.len() as int) =~= title@);
    out.append(".mp4");
    out
}


/// Why a page is refused.
#[derive(Debug, Clone, Copy, PartialEq, Eq)]
pub enum PageRefusal {
    /// The page does not hold the data that leads to a video.
    Missing,
    /// The video is DRM protected.
    Drm,
}

/// The value named by the last tag of `tags`, inside the value the other
/// tags lead to.
pub open spec fn tagged_value(root: JsonValue, tags: Seq<String>) -> Option<JsonValue> {
    match path_lookup(root, names(tags).drop_last()) {
        Some(holder) => member(holder, tags.last()@),
        None => None,
    }
}

/// Whether the document marks the video as DRM protected; nothing when the
/// tags that lead to the mark do not lead anywhere.
pub open spec fn drm_flag(root: JsonValue, tags: Seq<String>) -> Option<bool> {
    match path_lookup(root, names(tags).drop_last()) {
        Some(holder) => Some(member(holder, tags.last()@) == Some(JsonValue::Bool(true))),
        None => None,
    }
}

/// The list of videos of the document.
pub open spec fn video_list(root: JsonValue, tags: Seq<String>) -> Option<Vec<JsonValue>> {
    match tagged_value(root, tags) {
        Some(JsonValue::Array(videos)) => Some(videos),
        _ => None,
    }
}

/// The title of the document.
pub open spec fn title_text(root: JsonValue, tags: Seq<String>) -> Option<Seq<char>> {
    match tagged_value(root, tags) {
        Some(JsonValue::Str(title)) => Some(title@),
        _ => None,
    }
}

/// What a page's document yields: its videos and the name of the file to
/// save to (the one given, else one made from the title), or why it is
/// refused.  The title must be there even when a file name is given.
pub open spec fn assets_outcome(root: JsonValue, config: PageConfig, file_name: Option<Seq<char>>)
    -> Result<(Vec<JsonValue>, Seq<char>), PageRefusal>
{
    match drm_flag(root, config.drm_nested_tag@) {
        None => Err(PageRefusal::Missing),
        Some(true) => Err(PageRefusal::Drm),
        Some(false) => match (
            video_list(root, config.video_nested_tag@),
            title_text(root, config.title_nested_tag@),
        ) {
            (Some(videos), Some(title)) => Ok(
                (
                    videos,
                    match file_name {
                        Some(name) => name,
                        None => save_name(title),
                    },
                ),
            ),
            _ => Err(PageRefusal::Missing),
        },
    }
}

/// A page marked as DRM protected is refused as such whatever else it holds;
/// a page that is not refused always has a title, even when a file name is
/// given; and the file name given, when there is one, is the one used.
pub proof fn lemma_assets_outcome(root: JsonValue, config: PageConfig, file_name: Option<Seq<char>>)
    ensures
        drm_flag(root, config.drm_nested_tag@) == Some(true) ==> assets_outcome(
            root,
            config,
            file_name,
        ) == Err::<(Vec<JsonValue>, Seq<char>), PageRefusal>(PageRefusal::Drm),
        assets_outcome(root, config, file_name) is Ok ==> {
            &&& drm_flag(root, config.drm_nested_tag@) == Some(false)
            &&& title_text(root, config.title_nested_tag@) is Some
            &&& video_list(root, config.video_nested_tag@) is Some
        },
        assets_outcome(root, config, file_name) matches Ok((_, name)) ==> name == match file_name {
            Some(given) => given,
            None => save_name(title_text(root, config.title_nested_tag@).unwrap()),
        },
{
}

/// A page whose document is not marked as DRM protected and whose video
/// path leads to a list and title path to a string is accepted, whatever
/// the title: it gives that list and the file name given, or else the title
/// with each slash (of either kind) made `+`, followed by `.mp4`.
pub proof fn lemma_assets_accepted(
    root: JsonValue,
    config: PageConfig,
    file_name: Option<Seq<char>>,
    drm_holder: JsonValue,
    video_holder: JsonValue,
    title_holder: JsonValue,
    videos: Vec<JsonValue>,
    title: String,
)
    requires
        config.drm_nested_tag@.len() > 0,
        config.video_nested_tag@.len() > 0,
        config.title_nested_tag@.len() > 0,
        path_lookup(root, names(config.drm_nested_tag@).drop_last()) == Some(drm_holder),
        member(drm_holder, config.drm_nested_tag@.last()@) != Some(JsonValue::Bool(true)),
        path_lookup(root, names(config.video_nested_tag@).drop_last()) == Some(video_holder),
        member(video_holder, config.video_nested_tag@.last()@) == Some(JsonValue::Array(videos)),
        path_lookup(root, names(config.title_nested_tag@).drop_last()) == Some(title_holder),
        member(title_holder, config.title_nested_tag@.last()@) == Some(JsonValue::Str(title)),
    ensures
        assets_outcome(root, config, file_name) is Ok,
        assets_outcome(root, config, file_name) matches Ok((v, n)) ==> {
            &&& v == videos
            &&& file_name matches Some(given) ==> n == given
            &&& file_name is None ==> {
                &&& n.len() == title@.len() + 4
                &&& n.subrange(title@.len() as int, n.len() as int) == ".mp4"@
                &&& forall|i: int|
                    0 <= i < title@.len() ==> #[trigger] n[i] == if title@[i] == '/' || title@[i]
                        == '\\' {
                        '+'
                    } else {
                        title@[i]
                    }
            }
        },
{
    reveal_strlit(".mp4");
    let t = title@;
    let n = save_name(t);
    assert(n.subrange(t.len() as int, n.len() as int) =~= ".mp4"@);
    assert forall|i: int| 0 <= i < t.len() implies #[trigger] n[i] == if t[i] == '/' || t[i] == '\\' {
        '+'
    } else {
        t[i]
    } by {
        assert(n[i] == t.map_values(|c: char| file_name_char(c))[i]);
    }
}

/// A page is refused as not leading to a video when the DRM path leads
/// nowhere, or, for a page not marked as DRM protected, when the video path
/// does not lead to a list or the title path does not lead to a string; it
/// is refused as DRM protected when its DRM mark is `true`.
pub proof fn lemma_assets_refused(root: JsonValue, config: PageConfig, file_name: Option<Seq<char>>)
    requires
        config.drm_nested_tag@.len() > 0,
        config.video_nested_tag@.len() > 0,
        config.title_nested_tag@.len() > 0,
    ensures
        path_lookup(root, names(config.drm_nested_tag@).drop_last()) is None ==> assets_outcome(
            root,
            config,
            file_name,
        ) == Err::<(Vec<JsonValue>, Seq<char>), PageRefusal>(PageRefusal::Missing),
        path_lookup(root, names(config.drm_nested_tag@).drop_last()) matches Some(dh) ==> (member(
            dh,
            config.drm_nested_tag@.last()@,
        ) == Some(JsonValue::Bool(true)) ==> assets_outcome(root, config, file_name) == Err::<
            (Vec<JsonValue>, Seq<char>),
            PageRefusal,
        >(PageRefusal::Drm)),
        path_lookup(root, names(config.drm_nested_tag@).drop_last()) matches Some(dh) ==> (member(
            dh,
            config.drm_nested_tag@.last()@,
        ) != Some(JsonValue::Bool(true)) ==> (!(path_lookup(
            root,
            names(config.video_nested_tag@).drop_last(),
        ) matches Some(vh) && member(vh, config.video_nested_tag@.last()@) matches Some(
            JsonValue::Array(_),
        )) ==> assets_outcome(root, config, file_name) == Err::<
            (Vec<JsonValue>, Seq<char>),
            PageRefusal,
        >(PageRefusal::Missing))),
        path_lookup(root, names(config.drm_nested_tag@).drop_last()) matches Some(dh) ==> (member(
            dh,
            config.drm_nested_tag@.last()@,
        ) != Some(JsonValue::Bool(true)) ==> (!(path_lookup(
            root,
            names(config.title_nested_tag@).drop_last(),
        ) matches Some(th) && member(th, config.title_nested_tag@.last()@) matches Some(
            JsonValue::Str(_),
        )) ==> assets_outcome(root, config, file_name) == Err::<
            (Vec<JsonValue>, Seq<char>),
            PageRefusal,
        >(PageRefusal::Missing))),
{
}

/// How results are reported: an accepted page gives its list and the name
/// as the result; a page not leading to a video gives the "missing video"
/// error (code 14), a DRM protected one the DRM error (code 29).
pub proof fn lemma_assets_reported(
    r: Result<(Vec<JsonValue>, String), AppError>,
    videos: Vec<JsonValue>,
    name: Seq<char>,
)
    ensures
        returns_assets(r, Ok((videos, name))) <==> (r matches Ok((v, s)) && v == videos && s@
            == name),
        returns_assets(r, Err(PageRefusal::Missing)) <==> (r matches Err(e) && e.error_code == 14
            && e.error_message@
            == "ERROR: The video was not found! Is the link a PBS Kids Video link?"@),
        returns_assets(r, Err(PageRefusal::Drm)) <==> (r matches Err(e) && e.error_code == 29
            && e.error_message@ == "DRM Content is not available in pbskids-dl."@),
{
}

/// Every tag path is non-empty where the page rules take its last tag.
pub proof fn lemma_tags_present(root: JsonValue, config: PageConfig)
    ensures
        tags_present_when_used(root, config) <==> {
            &&& config.drm_nested_tag@.len() > 0
            &&& path_lookup(root, names(config.drm_nested_tag@).drop_last()) matches Some(dh) ==> (
            member(dh, config.drm_nested_tag@.last()@) != Some(JsonValue::Bool(true))
                ==> config.video_nested_tag@.len() > 0)
            &&& path_lookup(root, names(config.drm_nested_tag@).drop_last()) matches Some(dh) ==> (
            member(dh, config.drm_nested_tag@.last()@) != Some(JsonValue::Bool(true)) ==> (
            path_lookup(root, names(config.video_nested_tag@).drop_last()) matches Some(vh) ==> (
            member(vh, config.video_nested_tag@.last()@) matches Some(JsonValue::Array(_))
                ==> config.title_nested_tag@.len() > 0)))
        },
{
}

/// The error a refusal is reported with.
pub open spec fn reports(e: AppError, why: PageRefusal) -> bool {
    match why {
        PageRefusal::Missing => e.is_bad_address(),
        PageRefusal::Drm => e.is_drm_error(),
    }
}

/// The name held by an optional string.
pub open spec fn name_of(name: Option<&String>) -> Option<Seq<char>> {
    match name {
        Some(s) => Some(s@),
        None => None,
    }
}

/// The result of a page's document as a function returns it.
pub open spec fn returns_assets(
    r: Result<(Vec<JsonValue>, String), AppError>,
    outcome: Result<(Vec<JsonValue>, Seq<char>), PageRefusal>,
) -> bool {
    match outcome {
        Ok((videos, name)) => r matches Ok((v, s)) && v == videos && s@ == name,
        Err(why) => r matches Err(e) && reports(e, why),
    }
}

/// The tags of a path but the last one.
fn leading_tags(tags: &Vec<String>) -> (r: &[String])
    requires
        tags@.len() > 0,
    ensures
        names(r@) == names(tags@).drop_last(),
{
    let r = vstd::slice::slice_subrange(tags.as_slice(), 0, tags.len() - 1);
    assert(names(r@) =~= names(tags@).drop_last());
    r
}

/// The value named by the last tag of `tags`, inside the value the other tags lead to.
fn find_tagged<'a>(root: &'a JsonValue, tags: &Vec<String>) -> (r: Option<&'a JsonValue>)
    requires
        tags@.len() > 0,
    ensures
        match r {
            Some(v) => tagged_value(*root, tags@) == Some(*v),
            None => tagged_value(*root, tags@) is None,
        },
{
    match root.lookup_path(leading_tags(tags)) {
        Some(holder) => holder.get(&tags[tags.len() - 1]),
        None => None,
    }
}

/// Whether the document marks the video as DRM protected.
fn drm_flag_of(root: &JsonValue, tags: &Vec<String>) -> (r: Option<bool>)
    requires
        tags@.len() > 0,
    ensures
        r == drm_flag(*root, tags@),
{
    match root.lookup_path(leading_tags(tags)) {
        None => None,
        Some(holder) => match holder.get(&tags[tags.len() - 1]) {
            Some(JsonValue::Bool(b)) => Some(*b),
            _ => Some(false),
        },
    }
}

/// Every tag path is non-empty where the page rules take its last tag: the
/// DRM path always, the video path once the video is known not to be DRM
/// protected, the title path once the video list is found.
pub open spec fn tags_present_when_used(root: JsonValue, config: PageConfig) -> bool {
    &&& config.drm_nested_tag@.len() > 0
    &&& drm_flag(root, config.drm_nested_tag@) == Some(false) ==> config.video_nested_tag@.len() > 0
    &&& drm_flag(root, config.drm_nested_tag@) == Some(false) && video_list(
        root,
        config.video_nested_tag@,
    ) is Some ==> config.title_nested_tag@.len() > 0
}

/// Whether every tag path is non-empty where the page rules take its last tag.
pub fn tags_reached(root: &JsonValue, config: &PageConfig) -> (r: bool)
    ensures
        r == tags_present_when_used(*root, *config),
{
    if config.drm_nested_tag.len() == 0 {
        return false;
    }
    match drm_flag_of(root, &config.drm_nested_tag) {
        Some(false) => {},
        _ => {
            return true;
        },
    }
    if config.video_nested_tag.len() == 0 {
        return false;
    }
    match find_tagged(root, &config.video_nested_tag) {
        Some(JsonValue::Array(_)) => config.title_nested_tag.len() > 0,
        _ => true,
    }
}

/// The videos of a page's document and the name of the file to save to.
pub fn assets_from_json(root: JsonValue, config: &PageConfig, file_name: Option<&String>) -> (r:
    Result<(Vec<JsonValue>, String), AppError>)
    requires
        tags_present_when_used(root, *config),
    ensures
        returns_assets(r, assets_outcome(root, *config, name_of(file_name))),
{
    match drm_flag_of(&root, &config.drm_nested_tag) {
        None => {
            return Err(AppError::bad_address());
        },
        Some(true) => {
            return Err(AppError::drm_error());
        },
        Some(false) => {},
    }
    let has_videos = match find_tagged(&root, &config.video_nested_tag) {
        Some(JsonValue::Array(_)) => true,
        _ => false,
    };
    if !has_videos {
        return Err(AppError::bad_address());
    }
    let name = match find_tagged(&root, &config.title_nested_tag) {
        Some(JsonValue::Str(title)) => match file_name {
            Some(given) => given.clone(),
            None => save_name_for(title),
        },
        _ => {
            return Err(AppError::bad_address());
        },
    };
    let video_tags = &config.video_nested_tag;
    let videos = match root.into_path(leading_tags(video_tags)) {
        Some(holder) => match holder.into_member(&video_tags[video_tags.len() - 1]) {
            Some(JsonValue::Array(videos)) => videos,
            _ => {
                return Err(AppError::bad_address());
            },
        },
        None => {
            return Err(AppError::bad_address());
        },
    };
    Ok((videos, name))
}


/// The bytes of the JSON document a page holds between its markers.
pub open spec fn page_script(page: Seq<char>, config: PageConfig) -> Option<Seq<u8>> {
    let bytes = encode_utf8(page);
    match script_range(
        bytes,
        encode_utf8(config.script_start_marker@),
        encode_utf8(config.script_end_marker@),
    ) {
        Some((a, b)) => Some(bytes.subrange(a, b)),
        None => None,
    }
}

/// The document a page holds between its markers, as the parser reads it.
pub open spec fn page_document(page: Seq<char>, config: PageConfig) -> Option<JsonValue> {
    match page_script(page, config) {
        Some(script) => match parsed_json(script) {
            Ok(root) => Some(root),
            Err(_) => None,
        },
        None => None,
    }
}

/// What a page gives: the "missing video" error without a document between
/// the markers; a parse error with the unknown code and the text of the
/// parser's error when the parser refuses the document; else the outcome of
/// the document.
pub open spec fn returns_page_assets(
    r: Result<(Vec<JsonValue>, String), AppError>,
    page: Seq<char>,
    config: PageConfig,
    file_name: Option<Seq<char>>,
) -> bool {
    match page_script(page, config) {
        None => r matches Err(e) && e.is_bad_address(),
        Some(script) => match parsed_json(script) {
            Err(text) => r matches Err(e) && e.error_code == exit_code_value(LinuxExitCodes::UNKNOWN)
                && e.error_message@ == parse_prefix() + text,
            Ok(root) => returns_assets(r, assets_outcome(root, config, file_name)),
        },
    }
}

/// The document of a page is the text between its first start marker and
/// the first end marker after it, whatever its length; without a start
/// marker, or without an end marker after it, the page is refused as not
/// leading to a video; a document the parser refuses gives code 255 and the
/// parse message.
pub proof fn lemma_page_results(
    page: Seq<char>,
    config: PageConfig,
    file_name: Option<Seq<char>>,
    r: Result<(Vec<JsonValue>, String), AppError>,
    s: int,
    e: int,
)
    ensures
        ({
            let bytes = encode_utf8(page);
            let start = encode_utf8(config.script_start_marker@);
            let end = encode_utf8(config.script_end_marker@);
            &&& (occurs_at(bytes, start, s) && (forall|j: int|
                0 <= j < s ==> !occurs_at(bytes, start, j)) && s + start.len() <= e && occurs_at(
                bytes,
                end,
                e,
            ) && (forall|j: int| s + start.len() <= j < e ==> !occurs_at(bytes, end, j)))
                ==> page_script(page, config) == Some(bytes.subrange(s + start.len(), e))
            &&& (forall|j: int| 0 <= j ==> !occurs_at(bytes, start, j)) ==> page_script(
                page,
                config,
            ) is None
            &&& (occurs_at(bytes, start, s) && (forall|j: int|
                0 <= j < s ==> !occurs_at(bytes, start, j)) && (forall|j: int|
                s + start.len() <= j ==> !occurs_at(bytes, end, j))) ==> page_script(
                page,
                config,
            ) is None
        }),
        page_script(page, config) is None ==> (returns_page_assets(r, page, config, file_name) <==> (
        r matches Err(err) && err.error_code == 14 && err.error_message@
            == "ERROR: The video was not found! Is the link a PBS Kids Video link?"@)),
        page_script(page, config) matches Some(script) ==> (parsed_json(script) matches Err(text)
            ==> (returns_page_assets(r, page, config, file_name) <==> (r matches Err(err)
            && err.error_code == 255 && err.error_message@ == "Failed to parse. Error: "@ + text))),
{
    let bytes = encode_utf8(page);
    let start = encode_utf8(config.script_start_marker@);
    let end = encode_utf8(config.script_end_marker@);
    if occurs_at(bytes, start, s) && (forall|j: int| 0 <= j < s ==> !occurs_at(bytes, start, j))
        && s + start.len() <= e && occurs_at(bytes, end, e) && (forall|j: int|
        s + start.len() <= j < e ==> !occurs_at(bytes, end, j)) {
        crate::text::lemma_script_range_found(bytes, start, end, s, e);
    }
    crate::text::lemma_first_match(bytes, start, 0);
    if occurs_at(bytes, start, s) && (forall|j: int| 0 <= j < s ==> !occurs_at(bytes, start, j)) {
        crate::text::lemma_first_match_at(bytes, start, 0, s);
        crate::text::lemma_first_match(bytes, end, s + start.len());
    }
}

/// Only the text between the first start marker and the next end marker
/// matters: a page made of the start marker, that text and the end marker
/// gives what the whole page gives.
pub proof fn lemma_page_reduced_to_script(
    page: Seq<char>,
    framed: Seq<char>,
    config: PageConfig,
    file_name: Option<Seq<char>>,
)
    requires
        page_script(page, config) is Some,
        encode_utf8(framed) == encode_utf8(config.script_start_marker@) + page_script(
            page,
            config,
        ).unwrap() + encode_utf8(config.script_end_marker@),
    ensures
        page_script(framed, config) == page_script(page, config),
        page_document(framed, config) == page_document(page, config),
        forall|r: Result<(Vec<JsonValue>, String), AppError>|
            returns_page_assets(r, framed, config, file_name) == returns_page_assets(
                r,
                page,
                config,
                file_name,
            ),
{
    crate::text::lemma_only_script_matters(
        encode_utf8(page),
        encode_utf8(config.script_start_marker@),
        encode_utf8(config.script_end_marker@),
    );
}

/// The videos of a video page and the name of the file to save to.
///
/// The JSON document is the text between the first start marker of the page
/// and the first end marker after it.  A page without it is refused as not
/// leading to a video; a document the parser refuses gives a parse error.
pub fn extract_assets_from_page(page: &str, config: &PageConfig, file_name: Option<&String>) -> (r:
    Result<(Vec<JsonValue>, String), AppError>)
    requires
        page_document(page@, *config) matches Some(root) ==> tags_present_when_used(root, *config),
    ensures
        returns_page_assets(r, page@, *config, name_of(file_name)),
{
    let bytes = page.as_bytes();
    let start = config.script_start_marker.as_str().as_bytes();
    let end = config.script_end_marker.as_str().as_bytes();
    match find_script(bytes, start, end) {
        None => Err(AppError::bad_address()),
        Some((a, b)) => {
            proof {
                crate::text::lemma_script_framing(bytes@, start@, end@);
            }
            let script = vstd::slice::slice_subrange(bytes, a, b);
            match parse_json(script) {
                Ok(root) => assets_from_json(root, config, file_name),
                Err(e) => {
                    let r = AppError::from_json_error(&e);
                    assert(r.error_message@ == parse_prefix() + json_text(e));
                    Err(r)
                },
            }
        },
    }
}

/// The videos of a video page and the name of the file to save to, as
/// `extract_assets_from_page` gives them; nothing when the page's document
/// needs the last tag of a tag path that is empty (there is no such tag).
pub fn try_extract_assets(page: &str, config: &PageConfig, file_name: Option<&String>) -> (r: Option<
    Result<(Vec<JsonValue>, String), AppError>,
>)
    ensures
        r is None <==> (page_document(page@, *config) matches Some(root) && !tags_present_when_used(
            root,
            *config,
        )),
        r matches Some(res) ==> returns_page_assets(res, page@, *config, name_of(file_name)),
{
    let bytes = page.as_bytes();
    let start = config.script_start_marker.as_str().as_bytes();
    let end = config.script_end_marker.as_str().as_bytes();
    if let Some((a, b)) = find_script(bytes, start, end) {
        proof {
            crate::text::lemma_script_framing(bytes@, start@, end@);
        }
        let script = vstd::slice::slice_subrange(bytes, a, b);
        if let Ok(root) = parse_json(script) {
            if !tags_reached(&root, config) {
                return None;
            }
        }
    }
    Some(extract_assets_from_page(page, config, file_name))
}

} // verus!
