use rocket_guide::guards::RawContentType;
use rocket_guide::hello;
use rocket_guide::http::Status;
use rocket_guide::jpeg::{decode_image, jpeg_asset, PixelLayout};
use rocket_guide::post_routes::{
    create_post, get_post, get_post_step, get_posts, get_posts_step, post_page_answer, upload_media,
    post_created, upload_failed, upload_plan, FlashKind, FlashRedirect, GetPostAction, GetPostEvent,
    GetPostStage, GetPostsAction, GetPostsEvent, GetPostsStage, MediaKind, Post, PostType, Upload,
    UploadAction, UploadEvent, UploadMedia, UploadStage, UploadStep,
};
use rocket_guide::user_routes::{
    get_user, get_user_step, get_users, new_user, user_page_answer, GetUserAction, GetUserEvent,
    Lookup, Pagination, User, UserStatus,
};

const PREFIX: &str = "<!DOCTYPE html>\n<html lang=\"en\">\n<head>\n<meta charset=\"utf-8\" />\n<title> Our Application User </title>\n</head>\n<body>";
const SUFFIX: &str = "</body></html>";

fn account(uuid: &str) -> User {
    User {
        uuid: uuid.to_string(),
        username: "ann".to_string(),
        email: "ann@example.com".to_string(),
        description: "hi".to_string(),
        status: UserStatus::Active,
    }
}

#[test]
fn hello_index_and_launch() {
    assert_eq!(hello::index(), "Hello, rocket");
    let l = hello::rocket();
    assert_eq!(l.base, "/");
    assert_eq!(l.routes, vec!["index".to_string()]);
}

#[test]
fn raw_content_type_guard() {
    assert_eq!(RawContentType::from_request(Some("text/plain")).0, "text/plain");
    assert_eq!(RawContentType::from_request(None).0, "");
}

#[test]
fn user_page() {
    let html = user_page_answer(Lookup::Found(account("u-1"))).ok().unwrap();
    let expected = format!(
        "{}{}{}{}",
        PREFIX,
        "\n            <a href=\"/users/edit/u-1\">Edit user</a>\n        ",
        "\n        <a href=\"/users\">User list</a>\n    ",
        SUFFIX
    );
    assert_eq!(html, expected);
    assert!(matches!(user_page_answer(Lookup::ConnectionFailed), Err(Status::InternalServerError)));
    assert!(matches!(user_page_answer(Lookup::Failed(Status::InternalServerError)), Err(Status::NotFound)));
}

#[test]
fn user_list_page() {
    let html = get_users(Ok((vec![account("u-1")], Some(Pagination { next: -5, limit: 10 })))).ok().unwrap();
    let fragment = "<div><span class=\"label\">UUID: </span>u-1</div><div><span class=\"label\">Username: </span>ann</div><div><span class=\"label\">Email: </span>ann@example.com</div><div><span class=\"label\">Description: </span>hi</div><div><span class=\"label\">Status: </span>Active</div>";
    let expected = format!(
        "{}{}{}{}{}{}{}",
        PREFIX,
        fragment,
        "\n                <a href=\"users/u-1\">See user<a/><br/>\n            ",
        "\n                <a href=\"/users/edit/u-1\">Edit user</a><br/>\n            ",
        "\n                    <a href=\"/users?pagination.next=-5&pagination.limit=10\">Next</a></br>\n                ",
        "\n        <a href=\"/users/new\">New user</a>\n    ",
        SUFFIX
    );
    assert_eq!(html, expected);

    let empty = get_users(Ok((vec![], Some(Pagination { next: 1, limit: 1 })))).ok().unwrap();
    assert_eq!(empty, format!("{}{}{}", PREFIX, "\n        <a href=\"/users/new\">New user</a>\n    ", SUFFIX));
    assert!(matches!(get_users(Err(Status::InternalServerError)), Err(Status::NotFound)));

    let two = get_users(Ok((vec![account("a"), account("b")], None))).ok().unwrap();
    assert_eq!(two.matches("See user").count(), 2);
    assert!(!two.contains("Next"));
    let paged = get_users(Ok((vec![account("a"), account("b")], Some(Pagination { next: i64::MIN, limit: 3 })))).ok().unwrap();
    assert_eq!(paged.matches("pagination.next=-9223372036854775808&pagination.limit=3").count(), 2);
}

#[test]
fn new_user_form() {
    let html = new_user();
    assert!(html.starts_with(PREFIX));
    assert!(html.contains("<form accept-chartset=\"UTF-8\" action=\"/users\""));
    assert!(!html.ends_with(SUFFIX));
}

#[test]
fn post_owner_check() {
    let owner = account("u-1");
    let post = Post {
        uuid: "p-1".to_string(),
        user_uuid: "u-1".to_string(),
        post_type: PostType::Text,
        content: "x".to_string(),
    };
    assert_eq!(post_page_answer(&owner, &post), Ok("posts/show"));
    assert_eq!(post_page_answer(&account("u-2"), &post), Err(Status::InternalServerError));
}

#[test]
fn upload_plans() {
    let p = upload_plan("abc", MediaKind::Png, "png");
    assert_eq!(p.tmp_filename, "/tmp/abc.png");
    assert_eq!(p.post_type, PostType::Photo);
    assert_eq!(p.content, "/assets/abc.jpg");
    match &p.action {
        UploadAction::ConvertToJpeg { dest_filename, quality } => {
            assert_eq!(dest_filename, "abc.jpg");
            assert_eq!(*quality, 75);
        }
        _ => panic!("wrong action"),
    }
    let p = upload_plan("abc", MediaKind::Svg, "svg");
    assert_eq!(p.content, "/assets/abc.svg");
    assert!(matches!(&p.action, UploadAction::CopySvg { dest_filename } if dest_filename == "abc.svg"));
    let p = upload_plan("abc", MediaKind::Text, "txt");
    assert_eq!(p.post_type, PostType::Text);
    assert_eq!(p.content, "");
    assert!(matches!(p.action, UploadAction::ReadText));
    let p = upload_plan("abc", MediaKind::Other, "pdf");
    assert!(matches!(p.action, UploadAction::Reject));
}

fn plan_of(upload: &Upload) -> &rocket_guide::post_routes::UploadPlan {
    match &upload.stage {
        UploadStage::AwaitPersist(p) => p,
        _ => panic!("not awaiting the persist step"),
    }
}

fn assert_failure(step: &UploadStep, user_uuid: &str) {
    match step {
        UploadStep::Answer(Err(f)) => {
            assert_eq!(f.kind, FlashKind::Error);
            assert_eq!(f.to, format!("/users/{}/posts", user_uuid));
            assert_eq!(f.message, "Something went wrong when uploading file");
        }
        _ => panic!("not the failure answer"),
    }
}

#[test]
fn create_post_names_file_after_random_uuid() {
    let media = Some(UploadMedia { kind: MediaKind::Jpeg, extension: Some("jpeg".to_string()) });
    let (up, step) = create_post("u-1", &media);
    let p = plan_of(&up);
    let id = p.file_uuid.clone();
    assert_eq!(id.len(), 36);
    assert_eq!(id.chars().nth(14), Some('4'));
    assert!(matches!(&step, UploadStep::Persist { tmp_filename } if *tmp_filename == format!("/tmp/{}.jpeg", id)));
    assert_eq!(p.content, format!("/assets/{}.jpg", id));
    let (up2, _) = create_post("u-1", &media);
    assert_ne!(plan_of(&up2).file_uuid, id);

    let (up, step) = create_post("u-1", &None);
    assert!(matches!(up.stage, UploadStage::Finished));
    assert_failure(&step, "u-1");
}

fn png_bytes(width: u32, height: u32) -> Vec<u8> {
    let img = image::RgbImage::from_fn(width, height, |x, y| image::Rgb([(x * 40) as u8, (y * 40) as u8, 200]));
    let mut out = std::io::Cursor::new(Vec::new());
    img.write_to(&mut out, image::ImageOutputFormat::Png).unwrap();
    out.into_inner()
}

#[test]
fn jpeg_asset_of_an_image() {
    let jpeg = jpeg_asset(&png_bytes(5, 3), 75).unwrap();
    let back = image::load_from_memory_with_format(&jpeg, image::ImageFormat::Jpeg).unwrap();
    assert_eq!((back.width(), back.height()), (5, 3));
    assert_eq!(back.color(), image::ColorType::Rgb8);
    assert!(jpeg_asset(b"not an image", 75).is_none());
    let decoded = decode_image(&png_bytes(2, 2)).unwrap();
    assert_eq!((decoded.width, decoded.height, decoded.layout), (2, 2, PixelLayout::Rgb8));
    assert_eq!(decoded.pixels.len(), 12);
}

#[test]
fn upload_media_kinds() {
    assert_eq!(upload_media("text", "plain").kind, MediaKind::Text);
    assert_eq!(upload_media("IMAGE", "Png").kind, MediaKind::Png);
    assert_eq!(upload_media("image", "svg+xml").kind, MediaKind::Svg);
    assert_eq!(upload_media("image", "jpeg").extension.as_deref(), Some("jpeg"));
    assert_eq!(upload_media("application", "pdf").kind, MediaKind::Other);
    assert_eq!(upload_media("application", "pdf").extension.as_deref(), Some("pdf"));
    assert!(upload_media("foo", "bar").extension.is_none());
    assert_eq!(upload_media("text", "html").kind, MediaKind::Other);
}

#[test]
fn upload_happy_path_records_once() {
    let media = Some(UploadMedia { kind: MediaKind::Png, extension: Some("png".to_string()) });
    let (up, step) = create_post("u-1", &media);
    assert!(matches!(step, UploadStep::Persist { .. }));
    let id = plan_of(&up).file_uuid.clone();
    let (up, step) = up.step(UploadEvent::Succeeded);
    assert!(matches!(step, UploadStep::ReadUpload));
    let png = png_bytes(4, 4);
    let (up, step) = up.step(UploadEvent::ReadBytes(png.clone()));
    match &step {
        UploadStep::WriteAsset { dest_filename, bytes } => {
            assert_eq!(*dest_filename, format!("{}.jpg", id));
            assert_eq!(Some(bytes.clone()), jpeg_asset(&png, 75));
        }
        _ => panic!("expected the asset write"),
    }
    let (up, step) = up.step(UploadEvent::Succeeded);
    assert!(matches!(step, UploadStep::Acquire));
    let (up, step) = up.step(UploadEvent::Succeeded);
    match &step {
        UploadStep::Record { user_uuid, post_type, content } => {
            assert_eq!(user_uuid, "u-1");
            assert_eq!(*post_type, PostType::Photo);
            assert_eq!(*content, format!("/assets/{}.jpg", id));
        }
        _ => panic!("expected the record step"),
    }
    let (up, step) = up.step(UploadEvent::Succeeded);
    match step {
        UploadStep::Answer(Ok(f)) => {
            assert_eq!(f.kind, FlashKind::Success);
            assert_eq!(f.to, "/users/u-1/posts");
            assert_eq!(f.message, "Successfully created post");
        }
        _ => panic!("expected the success answer"),
    }
    assert!(matches!(up.stage, UploadStage::Finished));
}

#[test]
fn upload_of_undecodable_image_fails_without_writing() {
    let media = Some(UploadMedia { kind: MediaKind::Gif, extension: Some("gif".to_string()) });
    let (up, _) = create_post("u-4", &media);
    let (up, _) = up.step(UploadEvent::Succeeded);
    let (up, step) = up.step(UploadEvent::ReadBytes(b"GIF89a broken".to_vec()));
    assert_failure(&step, "u-4");
    assert!(matches!(up.stage, UploadStage::Finished));
}

#[test]
fn upload_text_records_text_read() {
    let media = Some(UploadMedia { kind: MediaKind::Text, extension: Some("txt".to_string()) });
    let (up, _) = create_post("u-2", &media);
    let (up, step) = up.step(UploadEvent::Succeeded);
    assert!(matches!(step, UploadStep::ReadText));
    let (up, _) = up.step(UploadEvent::ReadText("hello".to_string()));
    let (_, step) = up.step(UploadEvent::Succeeded);
    assert!(matches!(&step, UploadStep::Record { user_uuid, post_type: PostType::Text, content } if content == "hello" && user_uuid == "u-2"));
}

#[test]
fn upload_failures_stop_and_answer_failure() {
    let media = Some(UploadMedia { kind: MediaKind::Svg, extension: Some("svg".to_string()) });
    for fail_at in 0..4 {
        let (mut up, _) = create_post("u-3", &media);
        let mut recorded = 0;
        let mut answer = None;
        for i in 0..5 {
            let ev = if i == fail_at { UploadEvent::Failed } else { UploadEvent::Succeeded };
            let (next, step) = up.step(ev);
            up = next;
            match step {
                UploadStep::Record { .. } => recorded += 1,
                UploadStep::Answer(a) => {
                    answer = Some(a);
                    break;
                }
                _ => {}
            }
        }
        let a: Result<FlashRedirect, FlashRedirect> = answer.unwrap();
        assert_failure(&UploadStep::Answer(a), "u-3");
        assert_eq!(recorded, if fail_at == 3 { 1 } else { 0 });
    }
    let media = Some(UploadMedia { kind: MediaKind::Other, extension: Some("pdf".to_string()) });
    let (up, _) = create_post("u-3", &media);
    let (up, step) = up.step(UploadEvent::Succeeded);
    assert_failure(&step, "u-3");
    let (_, step) = up.step(UploadEvent::Succeeded);
    assert_failure(&step, "u-3");
}

#[test]
fn get_user_steps() {
    let (stage, action) = get_user("u-1");
    assert!(matches!(action, GetUserAction::Acquire));
    let (stage, action) = get_user_step(stage, GetUserEvent::Connected);
    assert!(matches!(action, GetUserAction::FindUser { ref uuid } if uuid == "u-1"));
    let (_, action) = get_user_step(stage, GetUserEvent::UserFound(account("u-1")));
    assert!(matches!(action, GetUserAction::Answer(Ok(ref html)) if html.contains("/users/edit/u-1")));
    let (stage, _) = get_user("u-1");
    let (_, action) = get_user_step(stage, GetUserEvent::ConnectionFailed);
    assert!(matches!(action, GetUserAction::Answer(Err(Status::InternalServerError))));
}

#[test]
fn get_post_steps() {
    let post = Post { uuid: "p".to_string(), user_uuid: "u-1".to_string(), post_type: PostType::Text, content: String::new() };
    let (stage, action) = get_post("u-1", "p");
    assert!(matches!(action, GetPostAction::Acquire));
    let (stage, action) = get_post_step(stage, GetPostEvent::Connected);
    assert!(matches!(action, GetPostAction::FindUser { ref uuid } if uuid == "u-1"));
    let (stage, action) = get_post_step(stage, GetPostEvent::UserFound(account("u-1")));
    assert!(matches!(action, GetPostAction::Acquire));
    let (stage, action) = get_post_step(stage, GetPostEvent::Connected);
    assert!(matches!(action, GetPostAction::FindPost { ref uuid } if uuid == "p"));
    let (stage, action) = get_post_step(stage, GetPostEvent::PostFound(post));
    assert!(matches!(action, GetPostAction::Render { template: "posts/show", .. }));
    assert!(matches!(stage, GetPostStage::Finished));

    let (stage, _) = get_post("u-1", "p");
    let (stage, action) = get_post_step(stage, GetPostEvent::ConnectionFailed);
    assert!(matches!(action, GetPostAction::Fail(Status::InternalServerError)));
    let (_, action) = get_post_step(stage, GetPostEvent::Connected);
    assert!(matches!(action, GetPostAction::Fail(_)));

    let (stage, _) = get_post("u-1", "p");
    let (stage, _) = get_post_step(stage, GetPostEvent::Connected);
    let (_, action) = get_post_step(stage, GetPostEvent::LookupFailed(Status::Other(418)));
    assert!(matches!(action, GetPostAction::Fail(Status::Other(418))));
    assert_eq!(Status::Other(418).code(), 418);
}

#[test]
fn get_posts_steps() {
    let page = Some(Pagination { next: 7, limit: 2 });
    let (stage, action) = get_posts(Some("hi".to_string()), "u-1", page);
    assert!(matches!(action, GetPostsAction::FindUser { ref uuid } if uuid == "u-1"));
    let (stage, action) = get_posts_step(stage, GetPostsEvent::UserFound(account("u-1")));
    match action {
        GetPostsAction::FindPosts { user_uuid, pagination } => {
            assert_eq!(user_uuid, "u-1");
            assert!(matches!(pagination, Some(Pagination { next: 7, limit: 2 })));
        }
        _ => panic!("expected the post list lookup"),
    }
    let (stage, action) = get_posts_step(stage, GetPostsEvent::PostsFound(vec![], None));
    match action {
        GetPostsAction::Render { template, flash, user, posts, pagination } => {
            assert_eq!(template, "posts/index");
            assert_eq!(flash.as_deref(), Some("hi"));
            assert_eq!(user.uuid, "u-1");
            assert!(posts.is_empty());
            assert!(pagination.is_none());
        }
        _ => panic!("expected rendering"),
    }
    assert!(matches!(stage, GetPostsStage::Finished));
    let (stage, _) = get_posts(None, "u-1", None);
    let (_, action) = get_posts_step(stage, GetPostsEvent::LookupFailed(Status::NotFound));
    assert!(matches!(action, GetPostsAction::Fail(Status::NotFound)));
}

#[test]
fn upload_outcome_redirects() {
    let ok = post_created("u-9");
    assert_eq!(ok.kind, FlashKind::Success);
    assert_eq!(ok.to, "/users/u-9/posts");
    assert_eq!(ok.message, "Successfully created post");
    let bad = upload_failed("u-9");
    assert_eq!(bad.kind, FlashKind::Error);
    assert_eq!(bad.to, ok.to);
}
