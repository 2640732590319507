//! The post routes: showing one post of a user, and the decisions of the
//! post upload (where the uploaded file goes, what the post records, and
//! where the browser is sent afterwards).
use vstd::prelude::*;
use vstd::string::*;
use crate::http::Status;
use crate::jpeg::{jpeg_asset, jpeg_asset_of};
use crate::text::{ascii_lower, eq_uncased, owned, same_uncased};
use crate::user_routes::{Pagination, User};

verus! {

/// What a post holds.
#[derive(PartialEq, Eq, Structural, Clone, Copy, Debug)]
pub enum PostType {
    Text,
    Photo,
}

/// A post of a user.
pub struct Post {
    pub uuid: String,
    pub user_uuid: String,
    pub post_type: PostType,
    pub content: String,
}

/// The last decision of `GET /users/<user_uuid>/posts/<uuid>` (see
/// `get_post_step`), once the user and the post are found: the template that
/// shows them, or `500` when the post belongs to another user.
pub fn post_page_answer(user: &User, post: &Post) -> (res: Result<&'static str, Status>)
    ensures
        if post.user_uuid@ == user.uuid@ {
            res matches Ok(t) && t@ == "posts/show"@
        } else {
            res matches Err(s) && s == Status::InternalServerError
        },
{
    if !crate::text::same_text(post.user_uuid.as_str(), user.uuid.as_str()) {
        return Err(Status::InternalServerError);
    }
    Ok("posts/show")
}

/// Where a `GET /users/<user_uuid>/posts/<uuid>` request stands: waiting for
/// a connection for the user lookup (with the requested uuids), for the user
/// lookup (with the requested post uuid), for a connection for the post
/// lookup (with the user found and the post uuid), for the post lookup (with
/// the user found), or answered.
pub enum GetPostStage {
    AwaitUserConnection { user_uuid: String, uuid: String },
    AwaitUser { uuid: String },
    AwaitPostConnection { user: User, uuid: String },
    AwaitPost(User),
    Finished,
}

/// What the outside work of a `GET /users/<user_uuid>/posts/<uuid>` request
/// reports: a connection was or was not had, a record was found, or the
/// lookup failed with a status.
pub enum GetPostEvent {
    Connected,
    ConnectionFailed,
    UserFound(User),
    PostFound(Post),
    LookupFailed(Status),
}

/// What a `GET /users/<user_uuid>/posts/<uuid>` request does next: acquire a
/// connection, look up the user or the post with the given uuid, or end it
/// with `Render` or `Fail`.
pub enum GetPostAction {
    Acquire,
    FindUser { uuid: String },
    FindPost { uuid: String },
    Render { template: &'static str, user: User, post: Post },
    Fail(Status),
}

/// Handler of `GET /users/<user_uuid>/posts/<uuid>` for the requested user
/// and post: starts the request, whose first step acquires a connection;
/// `get_post_step` takes it from there.
pub fn get_post(user_uuid: &str, uuid: &str) -> (res: (GetPostStage, GetPostAction))
    ensures
        res.0 matches GetPostStage::AwaitUserConnection { user_uuid: u, uuid: p } && u@ == user_uuid@ && p@ == uuid@,
        res.1 is Acquire,
{
    (GetPostStage::AwaitUserConnection { user_uuid: owned(user_uuid), uuid: owned(uuid) }, GetPostAction::Acquire)
}

/// The next step of `GET /users/<user_uuid>/posts/<uuid>` after `event`. The
/// requested user is looked up once a connection was had, then a second
/// connection is acquired and the requested post looked up; the found user
/// and post are rendered with `posts/show` when the post is the user's. A
/// failed connection answers `500` and a failed lookup its own status, and
/// nothing follows them: the post is never looked up after the user lookup
/// failed. A post of another user answers `500`. An event that does not
/// report on the last action, or comes after the answer, answers `500`; an
/// answered request stays answered.
pub fn get_post_step(stage: GetPostStage, event: GetPostEvent) -> (res: (GetPostStage, GetPostAction))
    ensures
        match (stage, event) {
            (GetPostStage::AwaitUserConnection { user_uuid, uuid }, GetPostEvent::Connected) => (res.0 matches GetPostStage::AwaitUser { uuid: p } && p@ == uuid@) && (res.1 matches GetPostAction::FindUser { uuid: q } && q@ == user_uuid@),
            (GetPostStage::AwaitUserConnection { .. }, GetPostEvent::ConnectionFailed) => res.0 is Finished && (res.1 matches GetPostAction::Fail(s) && s == Status::InternalServerError),
            (GetPostStage::AwaitUser { uuid }, GetPostEvent::UserFound(u)) => (res.0 matches GetPostStage::AwaitPostConnection { user, uuid: p } && user == u && p@ == uuid@) && res.1 is Acquire,
            (GetPostStage::AwaitUser { .. }, GetPostEvent::LookupFailed(st)) => res.0 is Finished && (res.1 matches GetPostAction::Fail(s) && s == st),
            (GetPostStage::AwaitPostConnection { user, uuid }, GetPostEvent::Connected) => (res.0 matches GetPostStage::AwaitPost(v) && v == user) && (res.1 matches GetPostAction::FindPost { uuid: q } && q@ == uuid@),
            (GetPostStage::AwaitPostConnection { .. }, GetPostEvent::ConnectionFailed) => res.0 is Finished && (res.1 matches GetPostAction::Fail(s) && s == Status::InternalServerError),
            (GetPostStage::AwaitPost(u), GetPostEvent::PostFound(p)) => res.0 is Finished && if p.user_uuid@ == u.uuid@ {
                res.1 matches GetPostAction::Render { template, user, post } && template@ == "posts/show"@ && user == u && post == p
            } else {
                res.1 matches GetPostAction::Fail(s) && s == Status::InternalServerError
            },
            (GetPostStage::AwaitPost(_), GetPostEvent::LookupFailed(st)) => res.0 is Finished && (res.1 matches GetPostAction::Fail(s) && s == st),
            _ => res.0 is Finished && (res.1 matches GetPostAction::Fail(s) && s == Status::InternalServerError),
        },
{
    match (stage, event) {
        (GetPostStage::AwaitUserConnection { user_uuid, uuid }, GetPostEvent::Connected) => (GetPostStage::AwaitUser { uuid }, GetPostAction::FindUser { uuid: user_uuid }),
        (GetPostStage::AwaitUser { uuid }, GetPostEvent::UserFound(u)) => (GetPostStage::AwaitPostConnection { user: u, uuid }, GetPostAction::Acquire),
        (GetPostStage::AwaitUser { .. }, GetPostEvent::LookupFailed(st)) => (GetPostStage::Finished, GetPostAction::Fail(st)),
        (GetPostStage::AwaitPostConnection { user, uuid }, GetPostEvent::Connected) => (GetPostStage::AwaitPost(user), GetPostAction::FindPost { uuid }),
        (GetPostStage::AwaitPost(u), GetPostEvent::PostFound(p)) => match post_page_answer(&u, &p) {
            Ok(template) => (GetPostStage::Finished, GetPostAction::Render { template, user: u, post: p }),
            Err(st) => (GetPostStage::Finished, GetPostAction::Fail(st)),
        },
        (GetPostStage::AwaitPost(_), GetPostEvent::LookupFailed(st)) => (GetPostStage::Finished, GetPostAction::Fail(st)),
        _ => (GetPostStage::Finished, GetPostAction::Fail(Status::InternalServerError)),
    }
}

/// Where a `GET /users/<user_uuid>/posts` request stands: waiting for the
/// user lookup (with the flash message, the requested user and the requested
/// page), for the post list lookup (with the flash message and the user
/// found), or answered.
pub enum GetPostsStage {
    AwaitUser { flash: Option<String>, user_uuid: String, pagination: Option<Pagination> },
    AwaitPosts(Option<String>, User),
    Finished,
}

/// What the lookups of a `GET /users/<user_uuid>/posts` request report.
pub enum GetPostsEvent {
    UserFound(User),
    PostsFound(Vec<Post>, Option<Pagination>),
    LookupFailed(Status),
}

/// What a `GET /users/<user_uuid>/posts` request does next: look up the user
/// with the given uuid, look up the page of that user's posts, or end it with
/// `Render` or `Fail`.
pub enum GetPostsAction {
    FindUser { uuid: String },
    FindPosts { user_uuid: String, pagination: Option<Pagination> },
    Render {
        template: &'static str,
        flash: Option<String>,
        user: User,
        posts: Vec<Post>,
        pagination: Option<Pagination>,
    },
    Fail(Status),
}

/// Handler of `GET /users/<user_uuid>/posts` for a request carrying the flash
/// message `flash`, for the user `user_uuid` and the page `pagination`:
/// starts the request, whose first step looks the user up; `get_posts_step`
/// takes it from there.
pub fn get_posts(flash: Option<String>, user_uuid: &str, pagination: Option<Pagination>) -> (res: (
    GetPostsStage,
    GetPostsAction,
))
    ensures
        res.0 matches GetPostsStage::AwaitUser { flash: f, user_uuid: u, pagination: pg } && f == flash
            && u@ == user_uuid@ && pg == pagination,
        res.1 matches GetPostsAction::FindUser { uuid } && uuid@ == user_uuid@,
{
    (
        GetPostsStage::AwaitUser { flash, user_uuid: owned(user_uuid), pagination },
        GetPostsAction::FindUser { uuid: owned(user_uuid) },
    )
}

/// The next step of `GET /users/<user_uuid>/posts` after `event`: after the
/// user is found, the requested page of the requested user's posts is looked
/// up; after it is found, the flash message, the user, the posts and the next
/// page are rendered with `posts/index`. A failed lookup answers its own
/// status and nothing follows it: the posts are never looked up after the
/// user lookup failed. An event that does not report on the last action, or
/// comes after the answer, answers `500`; an answered request stays answered.
pub fn get_posts_step(stage: GetPostsStage, event: GetPostsEvent) -> (res: (GetPostsStage, GetPostsAction))
    ensures
        match (stage, event) {
            (GetPostsStage::AwaitUser { flash, user_uuid, pagination }, GetPostsEvent::UserFound(u)) => (res.0 matches GetPostsStage::AwaitPosts(f2, v) && f2 == flash && v == u)
                && (res.1 matches GetPostsAction::FindPosts { user_uuid: q, pagination: pg } && q@ == user_uuid@ && pg == pagination),
            (GetPostsStage::AwaitUser { .. }, GetPostsEvent::LookupFailed(st)) => res.0 is Finished && (res.1 matches GetPostsAction::Fail(s) && s == st),
            (GetPostsStage::AwaitPosts(f, u), GetPostsEvent::PostsFound(ps, pg)) => res.0 is Finished && (res.1 matches GetPostsAction::Render { template, flash, user, posts, pagination }
                && template@ == "posts/index"@ && flash == f && user == u && posts == ps && pagination == pg),
            (GetPostsStage::AwaitPosts(_, _), GetPostsEvent::LookupFailed(st)) => res.0 is Finished && (res.1 matches GetPostsAction::Fail(s) && s == st),
            _ => res.0 is Finished && (res.1 matches GetPostsAction::Fail(s) && s == Status::InternalServerError),
        },
{
    match (stage, event) {
        (GetPostsStage::AwaitUser { flash, user_uuid, pagination }, GetPostsEvent::UserFound(u)) => (
            GetPostsStage::AwaitPosts(flash, u),
            GetPostsAction::FindPosts { user_uuid, pagination },
        ),
        (GetPostsStage::AwaitUser { .. }, GetPostsEvent::LookupFailed(st)) => (GetPostsStage::Finished, GetPostsAction::Fail(st)),
        (GetPostsStage::AwaitPosts(f, u), GetPostsEvent::PostsFound(ps, pg)) => (
            GetPostsStage::Finished,
            GetPostsAction::Render { template: "posts/index", flash: f, user: u, posts: ps, pagination: pg },
        ),
        (GetPostsStage::AwaitPosts(_, _), GetPostsEvent::LookupFailed(st)) => (GetPostsStage::Finished, GetPostsAction::Fail(st)),
        _ => (GetPostsStage::Finished, GetPostsAction::Fail(Status::InternalServerError)),
    }
}

/// How the media type of an uploaded file is classified.
#[derive(PartialEq, Eq, Structural, Clone, Copy, Debug)]
pub enum MediaKind {
    /// `text/plain`
    Text,
    Bmp,
    Jpeg,
    Png,
    Gif,
    /// `image/svg+xml`
    Svg,
    Other,
}

/// The media type of an uploaded file: its kind and its usual file extension.
pub struct UploadMedia {
    pub kind: MediaKind,
    pub extension: Option<String>,
}

/// The kind of the media type `top`/`sub` (parameters aside), as Rocket's
/// `is_text`, `is_bmp`, `is_jpeg`, `is_png`, `is_gif` and `is_svg` tell it:
/// the top and sub types compared with ASCII case ignored.
pub open spec fn media_kind_of(top: Seq<char>, sub: Seq<char>) -> MediaKind {
    if same_uncased(top, "text"@) && same_uncased(sub, "plain"@) {
        MediaKind::Text
    } else if same_uncased(top, "image"@) && same_uncased(sub, "bmp"@) {
        MediaKind::Bmp
    } else if same_uncased(top, "image"@) && same_uncased(sub, "jpeg"@) {
        MediaKind::Jpeg
    } else if same_uncased(top, "image"@) && same_uncased(sub, "png"@) {
        MediaKind::Png
    } else if same_uncased(top, "image"@) && same_uncased(sub, "gif"@) {
        MediaKind::Gif
    } else if same_uncased(top, "image"@) && same_uncased(sub, "svg+xml"@) {
        MediaKind::Svg
    } else {
        MediaKind::Other
    }
}

/// The kinds of the known upload media types, whatever the ASCII case of
/// their names: `text/plain` is text, `image/bmp`, `image/jpeg`, `image/png`
/// and `image/gif` are those raster formats, `image/svg+xml` is SVG, and
/// every other media type is none of them.
pub proof fn lemma_media_kinds(top: Seq<char>, sub: Seq<char>)
    ensures
        same_uncased(top, "text"@) && same_uncased(sub, "plain"@) ==> media_kind_of(top, sub) == MediaKind::Text,
        same_uncased(top, "image"@) && same_uncased(sub, "bmp"@) ==> media_kind_of(top, sub) == MediaKind::Bmp,
        same_uncased(top, "image"@) && same_uncased(sub, "jpeg"@) ==> media_kind_of(top, sub) == MediaKind::Jpeg,
        same_uncased(top, "image"@) && same_uncased(sub, "png"@) ==> media_kind_of(top, sub) == MediaKind::Png,
        same_uncased(top, "image"@) && same_uncased(sub, "gif"@) ==> media_kind_of(top, sub) == MediaKind::Gif,
        same_uncased(top, "image"@) && same_uncased(sub, "svg+xml"@) ==> media_kind_of(top, sub) == MediaKind::Svg,
        !(same_uncased(top, "text"@) && same_uncased(sub, "plain"@)) && !(same_uncased(top, "image"@) && (
        same_uncased(sub, "bmp"@) || same_uncased(sub, "jpeg"@) || same_uncased(sub, "png"@) || same_uncased(sub, "gif"@)
            || same_uncased(sub, "svg+xml"@))) ==> media_kind_of(top, sub) == MediaKind::Other,
{
    reveal_strlit("text");
    reveal_strlit("plain");
    reveal_strlit("image");
    reveal_strlit("bmp");
    reveal_strlit("jpeg");
    reveal_strlit("png");
    reveal_strlit("gif");
    reveal_strlit("svg+xml");
    if same_uncased(top, "image"@) {
        // "text" and "image" differ in length, so an image type is never text/plain
        assert(!same_uncased(top, "text"@));
    }
    if same_uncased(sub, "png"@) {
        assert(ascii_lower(sub[0]) == ascii_lower('p'));
        assert(!same_uncased(sub, "bmp"@)) by {
            if same_uncased(sub, "bmp"@) {
                assert(ascii_lower(sub[0]) == ascii_lower('b'));
            }
        }
    }
    if same_uncased(sub, "gif"@) {
        assert(ascii_lower(sub[0]) == ascii_lower('g'));
        assert(!same_uncased(sub, "bmp"@)) by {
            if same_uncased(sub, "bmp"@) {
                assert(ascii_lower(sub[0]) == ascii_lower('b'));
            }
        }
        assert(!same_uncased(sub, "png"@)) by {
            if same_uncased(sub, "png"@) {
                assert(ascii_lower(sub[0]) == ascii_lower('p'));
            }
        }
    }
}

/// The file extension that Rocket knows for the media type `top`/`sub`, if any.
pub uninterp spec fn known_extension(top: Seq<char>, sub: Seq<char>) -> Option<Seq<char>>;

/// The usual extension of the media type `top`/`sub`
/// (`rocket::http::ContentType::extension`; its parameters do not count).
/// Trusted: the result is Rocket's table entry for that media type.
#[verifier::external_body]
fn media_extension(top: &str, sub: &str) -> (res: Option<String>)
    ensures
        match res {
            Some(e) => known_extension(top@, sub@) == Some(e@),
            None => known_extension(top@, sub@) is None,
        },
{
    rocket::http::ContentType::new(top.to_string(), sub.to_string()).extension().map(|e| e.to_string())
}

/// The media type of an upload whose content type is `top`/`sub`.
pub fn upload_media(top: &str, sub: &str) -> (m: UploadMedia)
    ensures
        m.kind == media_kind_of(top@, sub@),
        same_uncased(top@, "text"@) && same_uncased(sub@, "plain"@) ==> m.kind == MediaKind::Text,
        same_uncased(top@, "image"@) && same_uncased(sub@, "bmp"@) ==> m.kind == MediaKind::Bmp,
        same_uncased(top@, "image"@) && same_uncased(sub@, "jpeg"@) ==> m.kind == MediaKind::Jpeg,
        same_uncased(top@, "image"@) && same_uncased(sub@, "png"@) ==> m.kind == MediaKind::Png,
        same_uncased(top@, "image"@) && same_uncased(sub@, "gif"@) ==> m.kind == MediaKind::Gif,
        same_uncased(top@, "image"@) && same_uncased(sub@, "svg+xml"@) ==> m.kind == MediaKind::Svg,
        match m.extension {
            Some(e) => known_extension(top@, sub@) == Some(e@),
            None => known_extension(top@, sub@) is None,
        },
{
    let kind = if eq_uncased(top, "text") && eq_uncased(sub, "plain") {
        MediaKind::Text
    } else if eq_uncased(top, "image") && eq_uncased(sub, "bmp") {
        MediaKind::Bmp
    } else if eq_uncased(top, "image") && eq_uncased(sub, "jpeg") {
        MediaKind::Jpeg
    } else if eq_uncased(top, "image") && eq_uncased(sub, "png") {
        MediaKind::Png
    } else if eq_uncased(top, "image") && eq_uncased(sub, "gif") {
        MediaKind::Gif
    } else if eq_uncased(top, "image") && eq_uncased(sub, "svg+xml") {
        MediaKind::Svg
    } else {
        MediaKind::Other
    };
    proof {
        lemma_media_kinds(top@, sub@);
    }
    UploadMedia { kind, extension: media_extension(top, sub) }
}

/// The file work an upload calls for.
pub enum UploadAction {
    /// Read the uploaded file as the text of the post.
    ReadText,
    /// Decode the image and store it as a JPEG of the given quality under
    /// the static assets.
    ConvertToJpeg { dest_filename: String, quality: u8 },
    /// Copy the SVG file to the static assets.
    CopySvg { dest_filename: String },
    /// The media type is not accepted: the upload fails.
    Reject,
}

/// The plan of an upload: the uploaded file is first kept at `tmp_filename`,
/// then `action` is carried out, then a post of `post_type` with `content`
/// is recorded.
pub struct UploadPlan {
    pub file_uuid: String,
    pub tmp_filename: String,
    pub post_type: PostType,
    pub content: String,
    pub action: UploadAction,
}

#[derive(PartialEq, Eq, Structural, Clone, Copy, Debug)]
pub enum FlashKind {
    Success,
    Error,
}

/// A redirect carrying a one-time flash message.
pub struct FlashRedirect {
    pub kind: FlashKind,
    pub to: String,
    pub message: String,
}

/// The post list of a user, where every upload ends.
pub open spec fn posts_url(user_uuid: Seq<char>) -> Seq<char> {
    "/users/"@ + user_uuid + "/posts"@
}

pub open spec fn error_message() -> Seq<char> {
    "Something went wrong when uploading file"@
}

pub open spec fn success_message() -> Seq<char> {
    "Successfully created post"@
}

fn posts_redirect(user_uuid: &str) -> (res: String)
    ensures
        res@ == posts_url(user_uuid@),
{
    let mut to = owned("/users/");
    to.append(user_uuid);
    to.append("/posts");
    to
}

/// The answer to a failed upload.
pub fn upload_failed(user_uuid: &str) -> (f: FlashRedirect)
    ensures
        f.kind == FlashKind::Error,
        f.to@ == posts_url(user_uuid@),
        f.message@ == error_message(),
{
    FlashRedirect {
        kind: FlashKind::Error,
        to: posts_redirect(user_uuid),
        message: owned("Something went wrong when uploading file"),
    }
}

/// The answer to an upload whose post was recorded.
pub fn post_created(user_uuid: &str) -> (f: FlashRedirect)
    ensures
        f.kind == FlashKind::Success,
        f.to@ == posts_url(user_uuid@),
        f.message@ == success_message(),
{
    FlashRedirect {
        kind: FlashKind::Success,
        to: posts_redirect(user_uuid),
        message: owned("Successfully created post"),
    }
}

/// A raster image format that uploads are converted from.
pub open spec fn is_raster(kind: MediaKind) -> bool {
    kind == MediaKind::Bmp || kind == MediaKind::Jpeg || kind == MediaKind::Png || kind
        == MediaKind::Gif
}

/// The quality of the JPEG files that images are stored as.
pub const JPEG_QUALITY: u8 = 75;

/// `p` is the plan for an upload of a file of media `kind` with extension
/// `ext`, named after `file_uuid`.
pub open spec fn planned(p: UploadPlan, file_uuid: Seq<char>, kind: MediaKind, ext: Seq<char>) -> bool {
    &&& p.file_uuid@ == file_uuid
    &&& p.tmp_filename@ == "/tmp/"@ + file_uuid + "."@ + ext
    &&& kind == MediaKind::Text ==> p.post_type == PostType::Text && p.content@ == Seq::<char>::empty()
        && p.action is ReadText
    &&& is_raster(kind) ==> p.post_type == PostType::Photo && p.content@ == "/assets/"@ + file_uuid
        + ".jpg"@ && (p.action matches UploadAction::ConvertToJpeg { dest_filename, quality }
        && dest_filename@ == file_uuid + ".jpg"@ && quality == 75)
    &&& kind == MediaKind::Svg ==> p.post_type == PostType::Photo && p.content@ == "/assets/"@
        + file_uuid + ".svg"@ && (p.action matches UploadAction::CopySvg { dest_filename }
        && dest_filename@ == file_uuid + ".svg"@)
    &&& kind == MediaKind::Other ==> p.post_type == PostType::Text && p.content@ == Seq::<
        char,
    >::empty() && p.action is Reject
}

/// The plan of an upload of a file of media `kind` with extension `ext`,
/// named after `file_uuid`.
pub fn upload_plan(file_uuid: &str, kind: MediaKind, ext: &str) -> (p: UploadPlan)
    ensures
        planned(p, file_uuid@, kind, ext@),
{
    let mut tmp_filename = owned("/tmp/");
    tmp_filename.append(file_uuid);
    tmp_filename.append(".");
    tmp_filename.append(ext);
    assert(tmp_filename@ =~= "/tmp/"@ + file_uuid@ + "."@ + ext@);
    let mut content = String::new();
    let mut post_type = PostType::Text;
    let action = if kind == MediaKind::Text {
        UploadAction::ReadText
    } else if kind == MediaKind::Bmp || kind == MediaKind::Jpeg || kind == MediaKind::Png || kind
        == MediaKind::Gif {
        post_type = PostType::Photo;
        let mut dest_filename = owned(file_uuid);
        dest_filename.append(".jpg");
        content.append("/assets/");
        content.append(dest_filename.as_str());
        assert(content@ =~= "/assets/"@ + file_uuid@ + ".jpg"@);
        UploadAction::ConvertToJpeg { dest_filename, quality: JPEG_QUALITY }
    } else if kind == MediaKind::Svg {
        post_type = PostType::Photo;
        let mut dest_filename = owned(file_uuid);
        dest_filename.append(".svg");
        content.append("/assets/");
        content.append(dest_filename.as_str());
        assert(content@ =~= "/assets/"@ + file_uuid@ + ".svg"@);
        UploadAction::CopySvg { dest_filename }
    } else {
        UploadAction::Reject
    };
    UploadPlan { file_uuid: owned(file_uuid), tmp_filename, post_type, content, action }
}

/// The shape of `Uuid::to_string` for a version-4 uuid: 36 characters,
/// hyphens at 8, 13, 18 and 23, lower-case hexadecimal digits elsewhere,
/// the version digit `4` at 14 and a variant digit `8`, `9`, `a` or `b` at 19.
pub open spec fn is_v4_uuid_text(s: Seq<char>) -> bool {
    &&& s.len() == 36
    &&& forall|i: int|
        0 <= i < 36 ==> if i == 8 || i == 13 || i == 18 || i == 23 {
            #[trigger] s[i] == '-'
        } else {
            ('0' <= s[i] && s[i] <= '9') || ('a' <= s[i] && s[i] <= 'f')
        }
    &&& s[14] == '4'
    &&& (s[19] == '8' || s[19] == '9' || s[19] == 'a' || s[19] == 'b')
}

/// A fresh random uuid in its hyphenated form (`Uuid::new_v4().to_string()`).
/// Trusted: the value is random; its text has the version-4 hyphenated shape.
#[verifier::external_body]
fn new_v4_uuid() -> (s: String)
    ensures
        is_v4_uuid_text(s@),
{
    uuid::Uuid::new_v4().to_string()
}

/// `f` is the answer to a failed upload of `user_uuid`.
pub open spec fn is_failure(f: FlashRedirect, user_uuid: Seq<char>) -> bool {
    f.kind == FlashKind::Error && f.to@ == posts_url(user_uuid) && f.message@ == error_message()
}

/// `f` is the answer to a recorded upload of `user_uuid`.
pub open spec fn is_success(f: FlashRedirect, user_uuid: Seq<char>) -> bool {
    f.kind == FlashKind::Success && f.to@ == posts_url(user_uuid) && f.message@ == success_message()
}

/// Where an upload stands: waiting for the uploaded file to be kept at the
/// plan's temporary name; for the text to be read or the SVG to be copied;
/// for the bytes of an uploaded image (with the asset's name and JPEG
/// quality); for the JPEG asset to be written; for a database connection;
/// for the post to be recorded; or answered.
pub enum UploadStage {
    AwaitPersist(UploadPlan),
    AwaitWork { post_type: PostType, content: String, reads_text: bool },
    AwaitImage { post_type: PostType, content: String, dest_filename: String, quality: u8 },
    AwaitWrite { post_type: PostType, content: String },
    AwaitConnection { post_type: PostType, content: String },
    AwaitRecord,
    Finished,
}

/// An upload of the user `user_uuid` in progress.
pub struct Upload {
    pub user_uuid: String,
    pub stage: UploadStage,
}

/// What the outside work of an upload reports: the last step failed, it
/// succeeded, the file was read as this text, or the file's bytes were read.
pub enum UploadEvent {
    Failed,
    Succeeded,
    ReadText(String),
    ReadBytes(Vec<u8>),
}

/// What an upload does next. Every step but `Answer` is outside work whose
/// outcome is reported back; `Answer` ends the upload.
pub enum UploadStep {
    /// Keep the uploaded file under this name.
    Persist { tmp_filename: String },
    /// Read the uploaded file as the text of the post.
    ReadText,
    /// Read the bytes of the uploaded file.
    ReadUpload,
    /// Write these bytes as the static asset `dest_filename`.
    WriteAsset { dest_filename: String, bytes: Vec<u8> },
    /// Copy the uploaded file to the static asset `dest_filename`.
    CopySvg { dest_filename: String },
    /// Acquire a database connection.
    Acquire,
    /// Record the post for the user `user_uuid`.
    Record { user_uuid: String, post_type: PostType, content: String },
    /// Answer the request.
    Answer(Result<FlashRedirect, FlashRedirect>),
}

/// The stages of an upload, without their data.
pub enum UploadPhase {
    Persist,
    Work,
    Image,
    Write,
    Connect,
    Record,
    Done,
}

/// The steps of an upload, without their data: `Work` is reading the text
/// or copying the SVG; answers are split by outcome.
pub enum UploadMove {
    Persist,
    Work,
    ReadUpload,
    WriteAsset,
    Acquire,
    Record,
    AnswerOk,
    AnswerErr,
}

pub open spec fn stage_phase(s: UploadStage) -> UploadPhase {
    match s {
        UploadStage::AwaitPersist(_) => UploadPhase::Persist,
        UploadStage::AwaitWork { .. } => UploadPhase::Work,
        UploadStage::AwaitImage { .. } => UploadPhase::Image,
        UploadStage::AwaitWrite { .. } => UploadPhase::Write,
        UploadStage::AwaitConnection { .. } => UploadPhase::Connect,
        UploadStage::AwaitRecord => UploadPhase::Record,
        UploadStage::Finished => UploadPhase::Done,
    }
}

pub open spec fn step_move(a: UploadStep) -> UploadMove {
    match a {
        UploadStep::Persist { .. } => UploadMove::Persist,
        UploadStep::ReadText => UploadMove::Work,
        UploadStep::CopySvg { .. } => UploadMove::Work,
        UploadStep::ReadUpload => UploadMove::ReadUpload,
        UploadStep::WriteAsset { .. } => UploadMove::WriteAsset,
        UploadStep::Acquire => UploadMove::Acquire,
        UploadStep::Record { .. } => UploadMove::Record,
        UploadStep::Answer(Ok(_)) => UploadMove::AnswerOk,
        UploadStep::Answer(Err(_)) => UploadMove::AnswerErr,
    }
}

/// The stage holds a plan whose media type is not accepted.
pub open spec fn stage_rejects(s: UploadStage) -> bool {
    s matches UploadStage::AwaitPersist(plan) && plan.action is Reject
}

/// The stage holds a plan that converts the upload to a JPEG.
pub open spec fn stage_converts(s: UploadStage) -> bool {
    s matches UploadStage::AwaitPersist(plan) && plan.action is ConvertToJpeg
}

/// Whether `event` is a success for `stage`: for an image being read, the
/// bytes were read and make a JPEG asset; otherwise the step did not fail.
pub open spec fn step_ok(stage: UploadStage, event: UploadEvent) -> bool {
    match stage {
        UploadStage::AwaitImage { quality, .. } => event matches UploadEvent::ReadBytes(b) && jpeg_asset_of(b@, quality) is Some,
        _ => !(event is Failed),
    }
}

/// The upload machine without its data: from a phase, given whether the
/// last step succeeded, whether the media type is rejected and whether the
/// upload is converted to a JPEG, the next phase and step. Any failure, and
/// any report after the answer, ends the upload with the failure answer.
pub open spec fn upload_next(p: UploadPhase, ok: bool, reject: bool, convert: bool) -> (UploadPhase, UploadMove) {
    if p is Done || !ok {
        (UploadPhase::Done, UploadMove::AnswerErr)
    } else {
        match p {
            UploadPhase::Persist => if reject {
                (UploadPhase::Done, UploadMove::AnswerErr)
            } else if convert {
                (UploadPhase::Image, UploadMove::ReadUpload)
            } else {
                (UploadPhase::Work, UploadMove::Work)
            },
            UploadPhase::Work => (UploadPhase::Connect, UploadMove::Acquire),
            UploadPhase::Image => (UploadPhase::Write, UploadMove::WriteAsset),
            UploadPhase::Write => (UploadPhase::Connect, UploadMove::Acquire),
            UploadPhase::Connect => (UploadPhase::Record, UploadMove::Record),
            UploadPhase::Record => (UploadPhase::Done, UploadMove::AnswerOk),
            UploadPhase::Done => (UploadPhase::Done, UploadMove::AnswerErr),
        }
    }
}

/// The steps an upload takes from phase `p` when the reported outcomes are
/// `oks`, up to and including its answer.
pub open spec fn upload_run(p: UploadPhase, reject: bool, convert: bool, oks: Seq<bool>) -> Seq<UploadMove>
    decreases oks.len(),
{
    if oks.len() == 0 {
        Seq::empty()
    } else {
        let next = upload_next(p, oks[0], reject && p is Persist, convert && p is Persist);
        if next.1 is AnswerOk || next.1 is AnswerErr {
            seq![next.1]
        } else {
            seq![next.1] + upload_run(next.0, reject, convert, oks.drop_first())
        }
    }
}

/// Every run of an upload after its file was planned, with the outcomes of
/// its steps in `oks`: persisting, then the text read or SVG copy, the
/// connection and the recording; or, for an image, persisting, reading the
/// bytes and making the JPEG, writing the asset, the connection and the
/// recording. The first failure (or a rejected media type) ends the run with
/// the failure answer and nothing runs after it; the asset is written only
/// after the image was read and converted; the post is recorded at most
/// once, and only when every earlier step succeeded; the success answer
/// comes exactly when the recording succeeded too; a run that recorded and
/// still failed failed at the recording, so no post was stored; a rejected
/// media type records nothing.
pub proof fn lemma_upload_runs(reject: bool, convert: bool, oks: Seq<bool>)
    requires
        oks.len() >= 5,
    ensures
        ({
            let run = upload_run(UploadPhase::Persist, reject, convert, oks);
            &&& !convert ==> run == (if !oks[0] || reject {
                seq![UploadMove::AnswerErr]
            } else if !oks[1] {
                seq![UploadMove::Work, UploadMove::AnswerErr]
            } else if !oks[2] {
                seq![UploadMove::Work, UploadMove::Acquire, UploadMove::AnswerErr]
            } else if !oks[3] {
                seq![UploadMove::Work, UploadMove::Acquire, UploadMove::Record, UploadMove::AnswerErr]
            } else {
                seq![UploadMove::Work, UploadMove::Acquire, UploadMove::Record, UploadMove::AnswerOk]
            })
            &&& convert ==> run == (if !oks[0] || reject {
                seq![UploadMove::AnswerErr]
            } else if !oks[1] {
                seq![UploadMove::ReadUpload, UploadMove::AnswerErr]
            } else if !oks[2] {
                seq![UploadMove::ReadUpload, UploadMove::WriteAsset, UploadMove::AnswerErr]
            } else if !oks[3] {
                seq![UploadMove::ReadUpload, UploadMove::WriteAsset, UploadMove::Acquire, UploadMove::AnswerErr]
            } else if !oks[4] {
                seq![UploadMove::ReadUpload, UploadMove::WriteAsset, UploadMove::Acquire, UploadMove::Record, UploadMove::AnswerErr]
            } else {
                seq![UploadMove::ReadUpload, UploadMove::WriteAsset, UploadMove::Acquire, UploadMove::Record, UploadMove::AnswerOk]
            })
            &&& run.len() >= 1
            &&& (run.last() is AnswerOk || run.last() is AnswerErr)
            &&& forall|i: int| 0 <= i < run.len() - 1 ==> !(#[trigger] run[i] is AnswerOk) && !(run[i] is AnswerErr)
            &&& (run.contains(UploadMove::WriteAsset) <==> (convert && !reject && oks[0] && oks[1]))
            &&& !convert ==> (run.contains(UploadMove::Record) <==> (!reject && oks[0] && oks[1] && oks[2]))
            &&& convert ==> (run.contains(UploadMove::Record) <==> (!reject && oks[0] && oks[1] && oks[2] && oks[3]))
            &&& !convert ==> (run.last() is AnswerOk <==> (!reject && oks[0] && oks[1] && oks[2] && oks[3]))
            &&& convert ==> (run.last() is AnswerOk <==> (!reject && oks[0] && oks[1] && oks[2] && oks[3] && oks[4]))
            &&& (run.last() is AnswerErr && run.contains(UploadMove::Record) ==> !oks[if convert { 4int } else { 3int }])
            &&& (reject ==> !run.contains(UploadMove::Record) && !run.contains(UploadMove::WriteAsset))
        }),
{
    let o1 = oks.drop_first();
    let o2 = o1.drop_first();
    let o3 = o2.drop_first();
    let o4 = o3.drop_first();
    assert(o1[0] == oks[1] && o2[0] == oks[2] && o3[0] == oks[3] && o4[0] == oks[4]);
    reveal_with_fuel(upload_run, 6);
    let run = upload_run(UploadPhase::Persist, reject, convert, oks);
    let w = UploadMove::Work;
    let r = UploadMove::ReadUpload;
    let a = UploadMove::WriteAsset;
    let c = UploadMove::Acquire;
    let d = UploadMove::Record;
    let ok = UploadMove::AnswerOk;
    let er = UploadMove::AnswerErr;
    if !oks[0] || reject {
        assert(run =~= seq![er]);
    } else if !convert {
        if !oks[1] {
            assert(run =~= seq![w, er]);
        } else if !oks[2] {
            assert(run =~= seq![w, c, er]);
        } else if !oks[3] {
            assert(run =~= seq![w, c, d, er]);
            assert(run[2] == d);
        } else {
            assert(run =~= seq![w, c, d, ok]);
            assert(run[2] == d);
        }
        assert(!run.contains(a));
    } else {
        if !oks[1] {
            assert(run =~= seq![r, er]);
        } else if !oks[2] {
            assert(run =~= seq![r, a, er]);
            assert(run[1] == a);
        } else if !oks[3] {
            assert(run =~= seq![r, a, c, er]);
            assert(run[1] == a);
        } else if !oks[4] {
            assert(run =~= seq![r, a, c, d, er]);
            assert(run[1] == a && run[3] == d);
        } else {
            assert(run =~= seq![r, a, c, d, ok]);
            assert(run[1] == a && run[3] == d);
        }
    }
}

/// Handler of `POST /users/<user_uuid>/posts`, first step: names the upload
/// after a fresh random uuid and plans it by its media type. Without a media
/// type the upload is answered with the failure at once and nothing is kept,
/// written or recorded; otherwise its first step keeps the uploaded file at
/// the plan's temporary name.
pub fn create_post(user_uuid: &str, media: &Option<UploadMedia>) -> (res: (Upload, UploadStep))
    requires
        media matches Some(m) ==> m.extension is Some,
    ensures
        res.0.user_uuid@ == user_uuid@,
        match media {
            None => res.0.stage is Finished && (res.1 matches UploadStep::Answer(Err(f)) && is_failure(f, user_uuid@)),
            Some(m) => res.0.stage matches UploadStage::AwaitPersist(p) && is_v4_uuid_text(p.file_uuid@)
                && planned(p, p.file_uuid@, m.kind, m.extension.unwrap()@) && (
            res.1 matches UploadStep::Persist { tmp_filename } && tmp_filename@ == p.tmp_filename@),
        },
{
    let file_uuid = new_v4_uuid();
    match media {
        None => (
            Upload { user_uuid: owned(user_uuid), stage: UploadStage::Finished },
            UploadStep::Answer(Err(upload_failed(user_uuid))),
        ),
        Some(m) => {
            let ext = m.extension.as_ref().unwrap();
            let plan = upload_plan(file_uuid.as_str(), m.kind, ext.as_str());
            let tmp_filename = owned(plan.tmp_filename.as_str());
            (
                Upload { user_uuid: owned(user_uuid), stage: UploadStage::AwaitPersist(plan) },
                UploadStep::Persist { tmp_filename },
            )
        },
    }
}

impl Upload {
    /// The next step of the upload after `event` reports on the last one.
    /// The data-free course is `upload_next`. Every answer is the failure
    /// answer or, after a recorded post, the success answer. Once the file
    /// was kept, the plan's file work follows (a rejected media type is
    /// answered with the failure instead): the text is read, the SVG copied,
    /// or the image's bytes read; the bytes of an image are turned into the
    /// JPEG asset of the plan's quality (`jpeg_asset_of`), which is written
    /// under the plan's asset name, and an image that does not make one fails
    /// the upload. Then a connection is acquired, and the post is recorded
    /// for the upload's user with the plan's type and content (for a text
    /// upload, the content followed by the text read); after the recording,
    /// the success answer.
    pub fn step(self, event: UploadEvent) -> (res: (Upload, UploadStep))
        ensures
            res.0.user_uuid@ == self.user_uuid@,
            (stage_phase(res.0.stage), step_move(res.1)) == upload_next(
                stage_phase(self.stage),
                step_ok(self.stage, event),
                stage_rejects(self.stage),
                stage_converts(self.stage),
            ),
            res.1 matches UploadStep::Answer(Err(f)) ==> is_failure(f, self.user_uuid@),
            res.1 matches UploadStep::Answer(Ok(f)) ==> is_success(f, self.user_uuid@),
            step_ok(self.stage, event) ==> match self.stage {
                UploadStage::AwaitPersist(plan) => match plan.action {
                    UploadAction::ReadText => res.1 is ReadText && (res.0.stage matches UploadStage::AwaitWork { post_type, content, reads_text }
                        && post_type == plan.post_type && content@ == plan.content@ && reads_text),
                    UploadAction::CopySvg { dest_filename } => (res.1 matches UploadStep::CopySvg { dest_filename: d } && d@ == dest_filename@) && (
                    res.0.stage matches UploadStage::AwaitWork { post_type, content, reads_text }
                        && post_type == plan.post_type && content@ == plan.content@ && !reads_text),
                    UploadAction::ConvertToJpeg { dest_filename, quality } => res.1 is ReadUpload && (
                    res.0.stage matches UploadStage::AwaitImage { post_type, content, dest_filename: d, quality: q }
                        && post_type == plan.post_type && content@ == plan.content@ && d@ == dest_filename@ && q == quality),
                    UploadAction::Reject => true,
                },
                UploadStage::AwaitWork { post_type, content, reads_text } => res.0.stage matches UploadStage::AwaitConnection { post_type: pt, content: c }
                    && pt == post_type && c@ == (match event {
                        UploadEvent::ReadText(t) => if reads_text { content@ + t@ } else { content@ },
                        _ => content@,
                    }),
                UploadStage::AwaitImage { post_type, content, dest_filename, quality } => (event matches UploadEvent::ReadBytes(b)
                    && (res.1 matches UploadStep::WriteAsset { dest_filename: d, bytes } && d@ == dest_filename@ && Some(bytes@) == jpeg_asset_of(b@, quality)))
                    && (res.0.stage matches UploadStage::AwaitWrite { post_type: pt, content: c } && pt == post_type && c@ == content@),
                UploadStage::AwaitWrite { post_type, content } => res.0.stage matches UploadStage::AwaitConnection { post_type: pt, content: c }
                    && pt == post_type && c@ == content@,
                UploadStage::AwaitConnection { post_type, content } => res.1 matches UploadStep::Record { user_uuid: u, post_type: pt, content: c }
                    && u@ == self.user_uuid@ && pt == post_type && c@ == content@,
                _ => true,
            },
    {
        let Upload { user_uuid, stage } = self;
        let failed = match event {
            UploadEvent::Failed => true,
            _ => false,
        };
        if failed {
            let f = upload_failed(user_uuid.as_str());
            return (Upload { user_uuid, stage: UploadStage::Finished }, UploadStep::Answer(Err(f)));
        }
        match stage {
            UploadStage::AwaitPersist(plan) => {
                let UploadPlan { file_uuid: _, tmp_filename: _, post_type, content, action } = plan;
                match action {
                    UploadAction::Reject => {
                        let f = upload_failed(user_uuid.as_str());
                        (Upload { user_uuid, stage: UploadStage::Finished }, UploadStep::Answer(Err(f)))
                    },
                    UploadAction::ReadText => (
                        Upload { user_uuid, stage: UploadStage::AwaitWork { post_type, content, reads_text: true } },
                        UploadStep::ReadText,
                    ),
                    UploadAction::CopySvg { dest_filename } => (
                        Upload { user_uuid, stage: UploadStage::AwaitWork { post_type, content, reads_text: false } },
                        UploadStep::CopySvg { dest_filename },
                    ),
                    UploadAction::ConvertToJpeg { dest_filename, quality } => (
                        Upload { user_uuid, stage: UploadStage::AwaitImage { post_type, content, dest_filename, quality } },
                        UploadStep::ReadUpload,
                    ),
                }
            },
            UploadStage::AwaitWork { post_type, content, reads_text } => {
                let mut content = content;
                match event {
                    UploadEvent::ReadText(t) => {
                        if reads_text {
                            content.append(t.as_str());
                        }
                    },
                    _ => {},
                }
                (Upload { user_uuid, stage: UploadStage::AwaitConnection { post_type, content } }, UploadStep::Acquire)
            },
            UploadStage::AwaitImage { post_type, content, dest_filename, quality } => {
                let asset = match event {
                    UploadEvent::ReadBytes(b) => jpeg_asset(b.as_slice(), quality),
                    _ => None,
                };
                match asset {
                    Some(bytes) => (
                        Upload { user_uuid, stage: UploadStage::AwaitWrite { post_type, content } },
                        UploadStep::WriteAsset { dest_filename, bytes },
                    ),
                    None => {
                        let f = upload_failed(user_uuid.as_str());
                        (Upload { user_uuid, stage: UploadStage::Finished }, UploadStep::Answer(Err(f)))
                    },
                }
            },
            UploadStage::AwaitWrite { post_type, content } => (
                Upload { user_uuid, stage: UploadStage::AwaitConnection { post_type, content } },
                UploadStep::Acquire,
            ),
            UploadStage::AwaitConnection { post_type, content } => {
                let owner = owned(user_uuid.as_str());
                (
                    Upload { user_uuid, stage: UploadStage::AwaitRecord },
                    UploadStep::Record { user_uuid: owner, post_type, content },
                )
            },
            UploadStage::AwaitRecord => {
                let f = post_created(user_uuid.as_str());
                (Upload { user_uuid, stage: UploadStage::Finished }, UploadStep::Answer(Ok(f)))
            },
            UploadStage::Finished => {
                let f = upload_failed(user_uuid.as_str());
                (Upload { user_uuid, stage: UploadStage::Finished }, UploadStep::Answer(Err(f)))
            },
        }
    }
}

} // verus!
