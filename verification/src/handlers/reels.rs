//! Short videos ("reels"): listing and uploading.
use vstd::prelude::*;
use crate::error::{bad_request, is_bad_request, is_not_found, not_found, AppError};
use crate::handlers::posts::{author_lookup, author_of, author_or_unknown, get_author, FieldKind};
use crate::ids::{uuid_text, uuid_to_string};
use crate::models::{reel, user};
use crate::text::{concat3, same_text, trim, trim_seq};

verus! {

/// The largest video accepted, in bytes (100 MB).
pub const MAX_VIDEO_SIZE: usize = 104857600;

/// A reel as the feed shows it.
#[derive(Debug, Clone, PartialEq, Eq)]
pub struct ReelResponse {
    pub id: String,
    pub video_url: String,
    pub caption: String,
    pub uploaded_by: String,
    pub created_at: String,
}

/// The caption a reel is given when its uploader wrote none.
pub open spec fn default_caption() -> Seq<char> {
    "วิดีโอของฉัน"@
}

/// The address of a reel's video.
pub open spec fn reel_video_url(id: u128) -> Seq<char> {
    "/api/reels/"@ + uuid_text(id) + "/video"@
}

/// Whether a reel is shown as `r`.
pub open spec fn reel_shown_as(r: ReelResponse, m: reel::Model, users: Seq<user::Model>) -> bool {
    &&& r.id@ == uuid_text(m.id)
    &&& r.video_url@ == reel_video_url(m.id)
    &&& r.caption@ == m.caption@
    &&& r.uploaded_by@ == author_lookup(users, m.user_id)
    &&& r.created_at@ == m.created_at@
}

/// The name a reel's uploader is shown under (`get_uploaded_by`): the display
/// name where set and not empty, else the email.
pub fn get_uploaded_by(u: &user::Model) -> (r: String)
    ensures
        r@ == author_of(*u),
{
    get_author(u)
}

/// The address of a reel's video.
pub fn video_url(id: u128) -> (r: String)
    ensures
        r@ == reel_video_url(id),
{
    let id_s = uuid_to_string(id);
    concat3("/api/reels/", id_s.as_str(), "/video")
}

/// A stored reel as the feed shows it.
pub fn reel_response(m: &reel::Model, users: &Vec<user::Model>) -> (r: ReelResponse)
    ensures
        reel_shown_as(r, *m, users@),
{
    ReelResponse {
        id: uuid_to_string(m.id),
        video_url: video_url(m.id),
        caption: m.caption.clone(),
        uploaded_by: author_or_unknown(users, m.user_id),
        created_at: m.created_at.clone(),
    }
}

/// The reels feed, in the order given.
pub fn assemble_reels(reels: &Vec<reel::Model>, users: &Vec<user::Model>) -> (r: Vec<ReelResponse>)
    ensures
        r@.len() == reels@.len(),
        forall|i: int| 0 <= i < reels@.len() ==> reel_shown_as(#[trigger] r@[i], reels@[i], users@),
{
    let mut out: Vec<ReelResponse> = Vec::new();
    let mut i: usize = 0;
    while i < reels.len()
        invariant
            i <= reels.len(),
            out@.len() == i,
            forall|k: int| 0 <= k < i ==> reel_shown_as(#[trigger] out@[k], reels@[k], users@),
        decreases reels.len() - i,
    {
        out.push(reel_response(&reels[i], users));
        i = i + 1;
    }
    out
}

/// An upload as its form has been read so far.
#[derive(Debug, PartialEq, Eq)]
pub struct ReelDraft {
    pub video: Option<Vec<u8>>,
    pub caption: String,
}

/// What every draft read from a form keeps: a video it holds is neither
/// empty nor over 100 MB.
pub open spec fn reel_draft_ok(d: ReelDraft) -> bool {
    match d.video {
        Some(v) => 0 < v@.len() <= MAX_VIDEO_SIZE,
        None => true,
    }
}

/// A draft with nothing read yet.
pub fn empty_reel_draft() -> (d: ReelDraft)
    ensures
        d.video is None,
        d.caption@.len() == 0,
        reel_draft_ok(d),
{
    ReelDraft { video: None, caption: String::new() }
}

/// How the field of the given name is read: `video` as bytes, `caption` as
/// text, any other not at all.
pub fn reel_field_kind(name: &str) -> (k: FieldKind)
    ensures
        k == (if name@ == "video"@ {
            FieldKind::Bytes
        } else if name@ == "caption"@ {
            FieldKind::Text
        } else {
            FieldKind::Skip
        }),
{
    if same_text(name, "video") {
        FieldKind::Bytes
    } else if same_text(name, "caption") {
        FieldKind::Text
    } else {
        FieldKind::Skip
    }
}

/// Takes in the `video` field; `data` is `None` where it could not be read.
/// A video over 100 MB, or an empty one, is refused.
pub fn apply_reel_video(draft: &mut ReelDraft, data: Option<Vec<u8>>) -> (r: Result<(), AppError>)
    ensures
        final(draft).caption == old(draft).caption,
        reel_draft_ok(*old(draft)) ==> reel_draft_ok(*final(draft)),
        match data {
            None => r matches Err(e) && is_bad_request(e, "Failed to read video"@)
                && final(draft).video == old(draft).video,
            Some(d) => if d@.len() > MAX_VIDEO_SIZE {
                r matches Err(e) && is_bad_request(e, "Video too large (max 100MB)"@)
                    && final(draft).video == old(draft).video
            } else if d@.len() == 0 {
                r matches Err(e) && is_bad_request(e, "Video file is empty"@)
                    && final(draft).video == old(draft).video
            } else {
                r is Ok && final(draft).video == Some(d)
            },
        },
{
    match data {
        None => Err(bad_request("Failed to read video")),
        Some(d) => {
            if d.len() > MAX_VIDEO_SIZE {
                return Err(bad_request("Video too large (max 100MB)"));
            }
            if d.len() == 0 {
                return Err(bad_request("Video file is empty"));
            }
            draft.video = Some(d);
            Ok(())
        },
    }
}

/// Takes in the `caption` field: its trimmed text, where it could be read.
pub fn apply_reel_caption(draft: &mut ReelDraft, text: Option<String>)
    ensures
        final(draft).video == old(draft).video,
        reel_draft_ok(*old(draft)) ==> reel_draft_ok(*final(draft)),
        match text {
            Some(t) => final(draft).caption@ == trim_seq(t@),
            None => final(draft).caption == old(draft).caption,
        },
{
    match text {
        Some(t) => {
            draft.caption = trim(t.as_str());
        },
        None => {},
    }
}

/// A fully read upload: it must hold a video. Gives the video and the caption
/// the reel is stored with, the default one where none was written.
pub fn finish_reel(draft: ReelDraft) -> (r: Result<(Vec<u8>, String), AppError>)
    ensures
        match draft.video {
            None => r matches Err(e) && is_bad_request(e, "Missing video file"@),
            Some(v) => r matches Ok((video, caption)) && video == v && caption@ == (if draft.caption@.len() == 0 {
                default_caption()
            } else {
                draft.caption@
            }) && caption@.len() > 0,
        },
{
    match draft.video {
        None => Err(bad_request("Missing video file")),
        Some(v) => {
            proof {
                reveal_strlit("วิดีโอของฉัน");
            }
            let caption = if draft.caption.as_str().is_empty() {
                String::from_str("วิดีโอของฉัน")
            } else {
                draft.caption
            };
            Ok((v, caption))
        },
    }
}

/// Where a new reel's video is stored, under the upload directory.
pub fn reel_video_path(id: u128) -> (r: String)
    ensures
        r@ == "reels/"@ + uuid_text(id) + ".mp4"@,
{
    let id_s = uuid_to_string(id);
    concat3("reels/", id_s.as_str(), ".mp4")
}

/// A reel just uploaded, as the feed shows it.
pub fn new_reel_response(id: u128, caption: String, uploaded_by: String, created_at: String) -> (r:
    ReelResponse)
    ensures
        r.id@ == uuid_text(id),
        r.video_url@ == reel_video_url(id),
        r.caption == caption,
        r.uploaded_by == uploaded_by,
        r.created_at == created_at,
{
    ReelResponse { id: uuid_to_string(id), video_url: video_url(id), caption, uploaded_by, created_at }
}

} // verus!
