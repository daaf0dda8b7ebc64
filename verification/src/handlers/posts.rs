//! Posts with an optional image, and their comments.
use vstd::prelude::*;
use crate::error::{bad_request, is_bad_request, is_not_found, not_found, AppError};
use crate::ids::{uuid_text, uuid_to_string};
use crate::models::{post, post_comment, user};
use crate::text::{
    clone_opt, concat3, starts_with_seq, text_starts_with, trim, trim_seq, trimmed_non_empty,
    same_text,
};

verus! {

/// The largest image accepted, in bytes (10 MB).
pub const MAX_IMAGE_SIZE: usize = 10485760;

/// A comment as the feed shows it.
#[derive(Debug, Clone, PartialEq, Eq)]
pub struct CommentResponse {
    pub id: String,
    pub content: String,
    pub author: String,
    pub created_at: String,
}

/// A post as the feed shows it, with its comments oldest first.
#[derive(Debug, PartialEq, Eq)]
pub struct PostResponse {
    pub id: String,
    pub content: String,
    pub image_url: Option<String>,
    pub author: String,
    pub created_at: String,
    pub comments: Vec<CommentResponse>,
}

/// A new comment.
#[derive(Debug, PartialEq, Eq)]
pub struct CreateCommentRequest {
    pub content: String,
}

/// The name a user is shown under: the display name where it is set and not
/// empty, else the email.
pub open spec fn author_of(u: user::Model) -> Seq<char> {
    match u.display_name {
        Some(d) => if d@.len() > 0 {
            d@
        } else {
            u.email@
        },
        None => u.email@,
    }
}

/// The last user in `users` with the given id (the one a map built from the
/// list keeps).
pub open spec fn last_with_id(users: Seq<user::Model>, id: u128) -> Option<user::Model>
    decreases users.len(),
{
    if users.len() == 0 {
        None
    } else if users.last().id == id {
        Some(users.last())
    } else {
        last_with_id(users.drop_last(), id)
    }
}

/// The name shown for the author with the given id: "Unknown" where the
/// author is not among `users`.
pub open spec fn author_lookup(users: Seq<user::Model>, id: u128) -> Seq<char> {
    match last_with_id(users, id) {
        Some(u) => author_of(u),
        None => "Unknown"@,
    }
}

/// The address of a post's image.
pub open spec fn post_image_url(id: u128) -> Seq<char> {
    "/api/posts/"@ + uuid_text(id) + "/image"@
}

/// Whether a comment is shown as `r`.
pub open spec fn comment_shown_as(
    r: CommentResponse,
    c: post_comment::Model,
    commenters: Seq<user::Model>,
) -> bool {
    &&& r.id@ == uuid_text(c.id)
    &&& r.content@ == c.content@
    &&& r.author@ == author_lookup(commenters, c.user_id)
    &&& r.created_at@ == c.created_at@
}

/// Selects the comments on one post.
pub open spec fn on_post(post_id: u128) -> spec_fn(post_comment::Model) -> bool {
    |c: post_comment::Model| c.post_id == post_id
}

/// Whether a post is shown as `r`, with exactly its comments, in the order
/// in which they were given.
pub open spec fn post_shown_as(
    r: PostResponse,
    p: post::Model,
    users: Seq<user::Model>,
    comments: Seq<post_comment::Model>,
    commenters: Seq<user::Model>,
) -> bool {
    let own = comments.filter(on_post(p.id));
    &&& r.id@ == uuid_text(p.id)
    &&& r.content@ == p.content@
    &&& (match r.image_url {
        Some(u) => p.image_path is Some && u@ == post_image_url(p.id),
        None => p.image_path is None,
    })
    &&& r.author@ == author_lookup(users, p.user_id)
    &&& r.created_at@ == p.created_at@
    &&& r.comments@.len() == own.len()
    &&& forall|j: int|
        0 <= j < own.len() ==> comment_shown_as(#[trigger] r.comments@[j], own[j], commenters)
}

/// The name a user is shown under (`get_author`).
pub fn get_author(u: &user::Model) -> (r: String)
    ensures
        r@ == author_of(*u),
{
    match &u.display_name {
        Some(d) => {
            if d.as_str().is_empty() {
                u.email.clone()
            } else {
                d.clone()
            }
        },
        None => u.email.clone(),
    }
}

/// Where in `users` the last user with the given id stands.
pub fn find_last_user(users: &Vec<user::Model>, id: u128) -> (r: Option<usize>)
    ensures
        match r {
            Some(k) => k < users.len() && last_with_id(users@, id) == Some(users@[k as int]),
            None => last_with_id(users@, id) is None,
        },
{
    let mut k: usize = users.len();
    assert(users@.take(k as int) == users@);
    while k > 0
        invariant
            k <= users.len(),
            last_with_id(users@, id) == last_with_id(users@.take(k as int), id),
        decreases k,
    {
        let ghost t = users@.take(k as int);
        assert(t.last() == users@[k - 1]);
        if users[k - 1].id == id {
            return Some(k - 1);
        }
        assert(t.drop_last() == users@.take(k - 1));
        k = k - 1;
    }
    None
}

/// The name shown for the author with the given id.
pub fn author_or_unknown(users: &Vec<user::Model>, id: u128) -> (r: String)
    ensures
        r@ == author_lookup(users@, id),
{
    match find_last_user(users, id) {
        Some(k) => get_author(&users[k]),
        None => String::from_str("Unknown"),
    }
}

/// A stored comment as the feed shows it.
pub fn comment_response(c: &post_comment::Model, commenters: &Vec<user::Model>) -> (r:
    CommentResponse)
    ensures
        comment_shown_as(r, *c, commenters@),
{
    CommentResponse {
        id: uuid_to_string(c.id),
        content: c.content.clone(),
        author: author_or_unknown(commenters, c.user_id),
        created_at: c.created_at.clone(),
    }
}

/// The comments on one post, in the order in which they are given.
pub fn comments_for_post(
    post_id: u128,
    comments: &Vec<post_comment::Model>,
    commenters: &Vec<user::Model>,
) -> (r: Vec<CommentResponse>)
    ensures
        r@.len() == comments@.filter(on_post(post_id)).len(),
        forall|j: int|
            0 <= j < r@.len() ==> comment_shown_as(
                #[trigger] r@[j],
                comments@.filter(on_post(post_id))[j],
                commenters@,
            ),
{
    let mut out: Vec<CommentResponse> = Vec::new();
    let mut k: usize = 0;
    assert(comments@.take(0) =~= Seq::<post_comment::Model>::empty());
    while k < comments.len()
        invariant
            k <= comments.len(),
            out@.len() == comments@.take(k as int).filter(on_post(post_id)).len(),
            forall|j: int|
                0 <= j < out@.len() ==> comment_shown_as(
                    #[trigger] out@[j],
                    comments@.take(k as int).filter(on_post(post_id))[j],
                    commenters@,
                ),
        decreases comments.len() - k,
    {
        let ghost before = out@;
        let ghost t = comments@.take(k + 1);
        assert(t.drop_last() == comments@.take(k as int));
        assert(t.last() == comments@[k as int]);
        proof {
            reveal_with_fuel(Seq::<post_comment::Model>::filter, 1);
        }
        if comments[k].post_id == post_id {
            let c = comment_response(&comments[k], commenters);
            out.push(c);
            assert(t.filter(on_post(post_id)) == comments@.take(k as int).filter(on_post(post_id)).push(comments@[k as int]));
            assert forall|j: int| 0 <= j < out@.len() implies comment_shown_as(
                #[trigger] out@[j],
                t.filter(on_post(post_id))[j],
                commenters@,
            ) by {
                if j < before.len() {
                    assert(out@[j] == before[j]);
                }
            }
        } else {
            assert(t.filter(on_post(post_id)) == comments@.take(k as int).filter(on_post(post_id)));
        }
        k = k + 1;
    }
    assert(comments@.take(comments.len() as int) == comments@);
    out
}

/// A stored post as the feed shows it.
pub fn post_response(
    p: &post::Model,
    users: &Vec<user::Model>,
    comments: &Vec<post_comment::Model>,
    commenters: &Vec<user::Model>,
) -> (r: PostResponse)
    ensures
        post_shown_as(r, *p, users@, comments@, commenters@),
{
    let id = uuid_to_string(p.id);
    let image_url = match &p.image_path {
        Some(_) => Some(concat3("/api/posts/", id.as_str(), "/image")),
        None => None,
    };
    PostResponse {
        id,
        content: p.content.clone(),
        image_url,
        author: author_or_unknown(users, p.user_id),
        created_at: p.created_at.clone(),
        comments: comments_for_post(p.id, comments, commenters),
    }
}

/// The feed: every post in the order given, each with its author and with
/// the comments on it.
pub fn assemble_posts(
    posts: &Vec<post::Model>,
    users: &Vec<user::Model>,
    comments: &Vec<post_comment::Model>,
    commenters: &Vec<user::Model>,
) -> (r: Vec<PostResponse>)
    ensures
        r@.len() == posts@.len(),
        forall|i: int|
            0 <= i < posts@.len() ==> post_shown_as(
                #[trigger] r@[i],
                posts@[i],
                users@,
                comments@,
                commenters@,
            ),
{
    let mut out: Vec<PostResponse> = Vec::new();
    let mut i: usize = 0;
    while i < posts.len()
        invariant
            i <= posts.len(),
            out@.len() == i,
            forall|k: int|
                0 <= k < i ==> post_shown_as(
                    #[trigger] out@[k],
                    posts@[k],
                    users@,
                    comments@,
                    commenters@,
                ),
        decreases posts.len() - i,
    {
        let pr = post_response(&posts[i], users, comments, commenters);
        out.push(pr);
        i = i + 1;
    }
    out
}

/// How a form field of a new post is read.
#[derive(Debug, Clone, Copy, PartialEq, Eq)]
pub enum FieldKind {
    /// Read as text.
    Text,
    /// Read as bytes.
    Bytes,
    /// Not read.
    Skip,
}

/// A new post as its form has been read so far.
#[derive(Debug, PartialEq, Eq)]
pub struct PostDraft {
    pub content: String,
    pub image: Option<Vec<u8>>,
}

/// What every draft read from a form keeps: an image it holds is neither
/// empty nor over 10 MB.
pub open spec fn post_draft_ok(d: PostDraft) -> bool {
    match d.image {
        Some(i) => 0 < i@.len() <= MAX_IMAGE_SIZE,
        None => true,
    }
}

/// A draft with nothing read yet.
pub fn empty_post_draft() -> (d: PostDraft)
    ensures
        d.content@.len() == 0,
        d.image is None,
        post_draft_ok(d),
{
    PostDraft { content: String::new(), image: None }
}

/// How the field of the given name is read: `content` as text, `image` as
/// bytes, any other not at all.
pub fn post_field_kind(name: &str) -> (k: FieldKind)
    ensures
        k == (if name@ == "content"@ {
            FieldKind::Text
        } else if name@ == "image"@ {
            FieldKind::Bytes
        } else {
            FieldKind::Skip
        }),
{
    if same_text(name, "content") {
        FieldKind::Text
    } else if same_text(name, "image") {
        FieldKind::Bytes
    } else {
        FieldKind::Skip
    }
}

/// Takes in the `content` field: its trimmed text, where it could be read.
pub fn apply_post_text(draft: &mut PostDraft, text: Option<String>)
    ensures
        match text {
            Some(t) => final(draft).content@ == trim_seq(t@),
            None => final(draft).content == old(draft).content,
        },
        final(draft).image == old(draft).image,
        post_draft_ok(*old(draft)) ==> post_draft_ok(*final(draft)),
{
    match text {
        Some(t) => {
            draft.content = trim(t.as_str());
        },
        None => {},
    }
}

/// Takes in the `image` field. `data` is `None` where it could not be read.
/// An empty image is ignored; one over 10 MB, or one whose content type does
/// not start with `image/`, is refused.
pub fn apply_post_image(draft: &mut PostDraft, content_type: Option<String>, data: Option<Vec<u8>>) -> (r:
    Result<(), AppError>)
    ensures
        final(draft).content == old(draft).content,
        post_draft_ok(*old(draft)) ==> post_draft_ok(*final(draft)),
        match data {
            None => r matches Err(e) && is_bad_request(e, "Failed to read image"@)
                && final(draft).image == old(draft).image,
            Some(d) => if d@.len() == 0 {
                r is Ok && final(draft).image == old(draft).image
            } else if d@.len() > MAX_IMAGE_SIZE {
                r matches Err(e) && is_bad_request(e, "Image too large (max 10MB)"@)
                    && final(draft).image == old(draft).image
            } else if content_type matches Some(ct) && !starts_with_seq(ct@, "image/"@) {
                r matches Err(e) && is_bad_request(e, "File must be an image"@)
                    && final(draft).image == old(draft).image
            } else {
                r is Ok && final(draft).image == Some(d)
            },
        },
{
    match data {
        None => Err(bad_request("Failed to read image")),
        Some(d) => {
            if d.len() == 0 {
                return Ok(());
            }
            if d.len() > MAX_IMAGE_SIZE {
                return Err(bad_request("Image too large (max 10MB)"));
            }
            match &content_type {
                Some(ct) => {
                    if !text_starts_with(ct.as_str(), "image/") {
                        return Err(bad_request("File must be an image"));
                    }
                },
                None => {},
            }
            draft.image = Some(d);
            Ok(())
        },
    }
}

/// A fully read form: the content must not be empty.
pub fn finish_post(draft: PostDraft) -> (r: Result<PostDraft, AppError>)
    ensures
        if draft.content@.len() == 0 {
            r matches Err(e) && is_bad_request(e, "Content is required"@)
        } else {
            r == Ok::<PostDraft, AppError>(draft)
        },
{
    if draft.content.as_str().is_empty() {
        return Err(bad_request("Content is required"));
    }
    Ok(draft)
}

/// Where a new post's image is stored, under the upload directory.
pub fn post_image_path(id: u128) -> (r: String)
    ensures
        r@ == "posts/"@ + uuid_text(id) + ".jpg"@,
{
    let id_s = uuid_to_string(id);
    concat3("posts/", id_s.as_str(), ".jpg")
}

/// The name shown for the author of something just created: their name
/// where the user is found, else their id.
pub fn author_or_id(u: &Option<user::Model>, id: u128) -> (r: String)
    ensures
        r@ == match u {
            Some(x) => author_of(*x),
            None => uuid_text(id),
        },
{
    match u {
        Some(x) => get_author(x),
        None => uuid_to_string(id),
    }
}

/// A post just created, as the feed shows it: no comments yet.
pub fn new_post_response(id: u128, content: String, has_image: bool, author: String, created_at: String) -> (r:
    PostResponse)
    ensures
        r.id@ == uuid_text(id),
        r.content == content,
        match r.image_url {
            Some(u) => has_image && u@ == post_image_url(id),
            None => !has_image,
        },
        r.author == author,
        r.created_at == created_at,
        r.comments@.len() == 0,
{
    let id_s = uuid_to_string(id);
    let image_url = if has_image {
        Some(concat3("/api/posts/", id_s.as_str(), "/image"))
    } else {
        None
    };
    PostResponse { id: id_s, content, image_url, author, created_at, comments: Vec::new() }
}

/// The text of a new comment: trimmed, and not empty.
pub fn validate_comment(req: &CreateCommentRequest) -> (r: Result<String, AppError>)
    ensures
        if trim_seq(req.content@).len() == 0 {
            r matches Err(e) && is_bad_request(e, "Content is required"@)
        } else {
            r matches Ok(t) && t@ == trim_seq(req.content@)
        },
{
    match trimmed_non_empty(req.content.as_str()) {
        Some(t) => Ok(t),
        None => Err(bad_request("Content is required")),
    }
}

/// A comment just created, as the feed shows it.
pub fn new_comment_response(id: u128, content: String, author: String, created_at: String) -> (r:
    CommentResponse)
    ensures
        r.id@ == uuid_text(id),
        r.content == content,
        r.author == author,
        r.created_at == created_at,
{
    CommentResponse { id: uuid_to_string(id), content, author, created_at }
}

/// The stored image of a post, which it must have.
pub fn image_of(p: &post::Model) -> (r: Result<String, AppError>)
    ensures
        match p.image_path {
            Some(path) => r == Ok::<String, AppError>(path),
            None => r matches Err(e) && is_not_found(e, "Post has no image"@),
        },
{
    match &p.image_path {
        Some(path) => Ok(path.clone()),
        None => Err(not_found("Post has no image")),
    }
}

proof fn lemma_filter_members(s: Seq<post_comment::Model>, pred: spec_fn(post_comment::Model) -> bool)
    ensures
        forall|i: int| 0 <= i < s.filter(pred).len() ==> s.contains(#[trigger] s.filter(pred)[i]),
    decreases s.len(),
{
    reveal_with_fuel(Seq::<post_comment::Model>::filter, 1);
    if s.len() > 0 {
        let t = s.drop_last();
        lemma_filter_members(t, pred);
        let out = s.filter(pred);
        assert forall|i: int| 0 <= i < out.len() implies s.contains(#[trigger] out[i]) by {
            if pred(s.last()) && i == out.len() - 1 {
                assert(out[i] == s[s.len() - 1]);
            } else {
                assert(out[i] == t.filter(pred)[i]);
                assert(t.contains(t.filter(pred)[i]));
                let k = choose|k: int| 0 <= k < t.len() && t[k] == t.filter(pred)[i];
                assert(s[k] == out[i]);
            }
        }
    }
}

/// Whether `r` shows one of the comments written on the post with the given id.
pub open spec fn shows_comment_on(
    r: CommentResponse,
    comments: Seq<post_comment::Model>,
    post_id: u128,
    commenters: Seq<user::Model>,
) -> bool {
    exists|k: int|
        0 <= k < comments.len() && (#[trigger] comments[k]).post_id == post_id && comment_shown_as(
            r,
            comments[k],
            commenters,
        )
}

/// Whether one of `shown` shows the comment `c`.
pub open spec fn is_shown_among(
    shown: Seq<CommentResponse>,
    c: post_comment::Model,
    commenters: Seq<user::Model>,
) -> bool {
    exists|j: int| 0 <= j < shown.len() && comment_shown_as(#[trigger] shown[j], c, commenters)
}

/// Under a post shown in the feed stand exactly the comments written on it:
/// each comment shown there was written on that post, and each comment
/// written on that post is shown there.
pub proof fn law_comments_stand_under_their_post(
    r: PostResponse,
    p: post::Model,
    users: Seq<user::Model>,
    comments: Seq<post_comment::Model>,
    commenters: Seq<user::Model>,
)
    requires
        post_shown_as(r, p, users, comments, commenters),
    ensures
        forall|j: int|
            0 <= j < r.comments@.len() ==> shows_comment_on(
                #[trigger] r.comments@[j],
                comments,
                p.id,
                commenters,
            ),
        forall|k: int|
            0 <= k < comments.len() && (#[trigger] comments[k]).post_id == p.id ==> is_shown_among(
                r.comments@,
                comments[k],
                commenters,
            ),
{
    broadcast use vstd::seq_lib::group_filter_ensures;
    let own = comments.filter(on_post(p.id));
    lemma_filter_members(comments, on_post(p.id));
    assert forall|j: int| 0 <= j < r.comments@.len() implies shows_comment_on(
        #[trigger] r.comments@[j],
        comments,
        p.id,
        commenters,
    ) by {
        assert(comment_shown_as(r.comments@[j], own[j], commenters));
        assert(comments.contains(own[j]));
        let k = choose|k: int| 0 <= k < comments.len() && comments[k] == own[j];
        assert(on_post(p.id)(own[j]));
        assert(comments[k].post_id == p.id);
        assert(comment_shown_as(r.comments@[j], comments[k], commenters));
    }
    assert forall|k: int| 0 <= k < comments.len() && (#[trigger] comments[k]).post_id == p.id implies is_shown_among(
        r.comments@,
        comments[k],
        commenters,
    ) by {
        assert(on_post(p.id)(comments[k]));
        assert(own.contains(comments[k]));
        let j = choose|j: int| 0 <= j < own.len() && own[j] == comments[k];
        assert(comment_shown_as(r.comments@[j], own[j], commenters));
    }
}

} // verus!
