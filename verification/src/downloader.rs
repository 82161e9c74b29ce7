//! The decisions of a download: which video is fetched and how the copy
//! loop advances.

use vstd::prelude::*;

use crate::errors::AppError;
use crate::json::{member, JsonValue};

verus! {

/// The video's rendition, named by its member `profile`, is the text `selected`.
pub open spec fn profile_matches(video: JsonValue, profile: Seq<char>, selected: Seq<char>) -> bool {
    match member(video, profile) {
        Some(JsonValue::Str(s)) => s@ == selected,
        _ => false,
    }
}

/// No video before position `i` is the selected rendition.
pub open spec fn none_selected_before(
    videos: Seq<JsonValue>,
    profile: Seq<char>,
    selected: Seq<char>,
    i: int,
) -> bool {
    forall|j: int| 0 <= j < i ==> !profile_matches(#[trigger] videos[j], profile, selected)
}

/// Position `k` holds the first video of the selected rendition.
pub open spec fn first_selected(
    videos: Seq<JsonValue>,
    profile: Seq<char>,
    selected: Seq<char>,
    k: int,
) -> bool {
    &&& 0 <= k < videos.len()
    &&& profile_matches(videos[k], profile, selected)
    &&& none_selected_before(videos, profile, selected, k)
}

/// Every video up to the first one of the selected rendition names its rendition.
pub open spec fn profiles_named(videos: Seq<JsonValue>, profile: Seq<char>, selected: Seq<char>) -> bool {
    forall|i: int|
        0 <= i < videos.len() && none_selected_before(videos, profile, selected, i) ==> (#[trigger] member(
            videos[i],
            profile,
        )) is Some
}

/// Whether every video up to the first one of the selected rendition names
/// its rendition.
pub fn check_profiles_named(videos: &Vec<JsonValue>, profile: &String, selected: &String) -> (r:
    bool)
    ensures
        r == profiles_named(videos@, profile@, selected@),
{
    let n = videos.len();
    let mut i: usize = 0;
    while i < n
        invariant
            n == videos@.len(),
            i <= n,
            none_selected_before(videos@, profile@, selected@, i as int),
            forall|j: int|
                0 <= j < i && none_selected_before(videos@, profile@, selected@, j) ==> (
                #[trigger] member(videos@[j], profile@)) is Some,
        decreases n - i,
    {
        match videos[i].get(profile) {
            None => {
                assert(!profiles_named(videos@, profile@, selected@)) by {
                    assert(member(videos@[i as int], profile@) is None);
                }
                return false;
            },
            Some(JsonValue::Str(s)) => {
                if *s == *selected {
                    assert forall|j: int|
                        0 <= j < n && none_selected_before(videos@, profile@, selected@, j) implies (
                        #[trigger] member(videos@[j], profile@)) is Some by {
                        if j > i {
                            assert(!none_selected_before(videos@, profile@, selected@, j)) by {
                                assert(profile_matches(videos@[i as int], profile@, selected@));
                            }
                        }
                    }
                    return true;
                }
            },
            Some(_) => {},
        }
        i = i + 1;
    }
    true
}

/// The address of a video: its member `url`, when that is a string.
pub open spec fn video_url(video: JsonValue) -> Option<Seq<char>> {
    match member(video, "url"@) {
        Some(JsonValue::Str(s)) => Some(s@),
        _ => None,
    }
}

/// The address of the first video of the selected rendition; nothing when
/// there is no such video (then nothing is downloaded); the "missing video"
/// error when that video has no address.
pub fn select_video_url(videos: &Vec<JsonValue>, profile: &String, selected: &String) -> (r: Result<
    Option<String>,
    AppError,
>)
    requires
        profiles_named(videos@, profile@, selected@),
    ensures
        r matches Ok(None) <==> none_selected_before(videos@, profile@, selected@, videos@.len() as int),
        r matches Ok(Some(url)) ==> exists|k: int|
            first_selected(videos@, profile@, selected@, k) && video_url(videos@[k]) == Some(url@),
        r matches Err(e) ==> e.is_bad_address() && exists|k: int|
            first_selected(videos@, profile@, selected@, k) && video_url(videos@[k]) is None,
{
    let n = videos.len();
    let url_key = String::from_str("url");
    let mut i: usize = 0;
    while i < n
        invariant
            n == videos@.len(),
            i <= n,
            url_key@ == "url"@,
            profiles_named(videos@, profile@, selected@),
            none_selected_before(videos@, profile@, selected@, i as int),
        decreases n - i,
    {
        let video = &videos[i];
        let is_selected = match video.get(profile) {
            Some(JsonValue::Str(s)) => *s == *selected,
            _ => false,
        };
        if is_selected {
            assert(first_selected(videos@, profile@, selected@, i as int));
            return match video.get(&url_key) {
                Some(JsonValue::Str(url)) => Ok(Some(url.clone())),
                _ => Err(AppError::bad_address()),
            };
        }
        i = i + 1;
    }
    Ok(None)
}

/// How the progress of a download is shown.
#[derive(Debug, Clone, Copy, PartialEq, Eq)]
pub enum ProgressMode {
    /// Nothing is shown.
    Quiet,
    /// A bar on the terminal.
    Console,
    /// A bar in the window.
    Graphic,
}

impl ProgressMode {
    /// The mode of the command line tool.
    pub fn for_cli(quiet: bool) -> (r: ProgressMode)
        ensures
            r == (if quiet {
                ProgressMode::Quiet
            } else {
                ProgressMode::Console
            }),
    {
        if quiet {
            ProgressMode::Quiet
        } else {
            ProgressMode::Console
        }
    }
}

/// What to do after a read from the response body.
#[derive(Debug, Clone, Copy, PartialEq, Eq)]
pub enum ReadOutcome {
    /// The body is exhausted: the download is complete.
    Finished,
    /// Write the `len` bytes read, then show the progress at `position`, if any.
    Write { len: usize, position: Option<u64> },
}

/// The count shown after a read: none in quiet mode.
pub open spec fn shown_position(mode: ProgressMode, count: u64) -> Option<u64> {
    if mode == ProgressMode::Quiet {
        None
    } else {
        Some(count)
    }
}

/// The state of a download: how many bytes were copied so far.
#[derive(Debug, Clone, Copy)]
pub struct DownloadProgress {
    pub downloaded: u64,
}

impl DownloadProgress {
    /// A download that has copied nothing yet.
    pub fn new() -> (r: DownloadProgress)
        ensures
            r.downloaded == 0,
    {
        DownloadProgress { downloaded: 0 }
    }

    /// Takes a read of `bytes_read` bytes into account: an empty read ends the
    /// download; any other is written and counted, and the new count is shown
    /// unless the mode is quiet.
    pub fn after_read(&mut self, bytes_read: usize, mode: ProgressMode) -> (r: ReadOutcome)
        requires
            old(self).downloaded + bytes_read <= u64::MAX,
        ensures
            bytes_read == 0 ==> r == ReadOutcome::Finished,
            bytes_read == 0 ==> final(self).downloaded == old(self).downloaded,
            bytes_read > 0 ==> final(self).downloaded == old(self).downloaded + bytes_read,
            bytes_read > 0 ==> r == (ReadOutcome::Write {
                len: bytes_read,
                position: shown_position(mode, final(self).downloaded),
            }),
    {
        if bytes_read == 0 {
            return ReadOutcome::Finished;
        }
        self.downloaded = self.downloaded + bytes_read as u64;
        let position = match mode {
            ProgressMode::Quiet => None,
            _ => Some(self.downloaded),
        };
        ReadOutcome::Write { len: bytes_read, position }
    }
}

/// The total of a list of read sizes.
pub open spec fn read_total(reads: Seq<usize>) -> int
    decreases reads.len(),
{
    if reads.len() == 0 {
        0
    } else {
        read_total(reads.drop_last()) + reads.last()
    }
}

/// Along a run of reads, each counted as `after_read` counts it, the count
/// reached is the count at the start plus the total of the bytes read.
pub proof fn lemma_download_count(counts: Seq<u64>, reads: Seq<usize>)
    requires
        counts.len() == reads.len() + 1,
        forall|i: int| 0 <= i < reads.len() ==> #[trigger] counts[i + 1] == counts[i] + reads[i],
    ensures
        counts.last() == counts[0] + read_total(reads),
    decreases reads.len(),
{
    if reads.len() > 0 {
        let n = reads.len() as int;
        lemma_download_count(counts.drop_last(), reads.drop_last());
        assert(counts[n] == counts[n - 1] + reads[n - 1]);
    }
}

/// What the window makes of its two fields: nothing when no address was
/// typed (the user is told that one is required), else the file name to use,
/// if one was typed.
pub fn gui_request(url: &String, file_field: &String) -> (r: Option<Option<String>>)
    ensures
        url@.len() == 0 <==> r is None,
        r matches Some(name) ==> (file_field@.len() == 0 <==> name is None),
        r matches Some(Some(name)) ==> name@ == file_field@,
{
    if url.as_str().is_empty() {
        return None;
    }
    if file_field.as_str().is_empty() {
        Some(None)
    } else {
        Some(Some(file_field.clone()))
    }
}

/// The video `video` names the rendition `selected` exactly in its member `profile`.
pub open spec fn names_rendition(video: JsonValue, profile: Seq<char>, selected: Seq<char>) -> bool {
    exists|t: String| member(video, profile) == Some(JsonValue::Str(t)) && t@ == selected
}

/// A video is of the selected rendition exactly when its rendition member is
/// a string equal to the selected one; the first such video is the one
/// chosen, and its address is its `url` string.
pub proof fn lemma_selection_exact(videos: Seq<JsonValue>, profile: Seq<char>, selected: Seq<char>, k: int)
    ensures
        forall|v: JsonValue| #[trigger] profile_matches(v, profile, selected) <==> names_rendition(
            v,
            profile,
            selected,
        ),
        first_selected(videos, profile, selected, k) <==> {
            &&& 0 <= k < videos.len()
            &&& names_rendition(videos[k], profile, selected)
            &&& forall|j: int| 0 <= j < k ==> !names_rendition(#[trigger] videos[j], profile, selected)
        },
        none_selected_before(videos, profile, selected, videos.len() as int) <==> forall|j: int|
            0 <= j < videos.len() ==> !names_rendition(#[trigger] videos[j], profile, selected),
        profiles_named(videos, profile, selected) <==> forall|i: int|
            0 <= i < videos.len() && (forall|j: int|
                0 <= j < i ==> !names_rendition(#[trigger] videos[j], profile, selected)) ==> (
            #[trigger] member(videos[i], profile)) is Some,
{
    assert forall|v: JsonValue| #[trigger] profile_matches(v, profile, selected) <==> names_rendition(
        v,
        profile,
        selected,
    ) by {
        if let Some(JsonValue::Str(t)) = member(v, profile) {
            if t@ == selected {
                assert(member(v, profile) == Some(JsonValue::Str(t)) && t@ == selected);
            }
        }
    }
}

/// The address of a video is its member `url` when that is a string, and
/// nothing otherwise.
pub proof fn lemma_video_url(v: JsonValue, u: Seq<char>)
    ensures
        video_url(v) == Some(u) <==> exists|t: String|
            member(v, "url"@) == Some(JsonValue::Str(t)) && t@ == u,
        video_url(v) is None <==> forall|t: String| member(v, "url"@) != Some(JsonValue::Str(t)),
{
    if let Some(JsonValue::Str(t)) = member(v, "url"@) {
        if t@ == u {
            assert(member(v, "url"@) == Some(JsonValue::Str(t)) && t@ == u);
        }
    }
}

/// Every mode but the quiet one shows the count reached, the window's bar
/// as well as the terminal's; the quiet mode shows nothing.
pub proof fn lemma_progress_shown(count: u64)
    ensures
        shown_position(ProgressMode::Console, count) == Some(count),
        shown_position(ProgressMode::Graphic, count) == Some(count),
        shown_position(ProgressMode::Quiet, count) is None,
{
}

} // verus!
