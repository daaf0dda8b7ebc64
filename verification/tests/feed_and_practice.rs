use maps_backend::error::AppError;
use maps_backend::handlers::posts::{
    apply_post_image, apply_post_text, assemble_posts, author_or_id, empty_post_draft, finish_post, get_author,
    image_of, new_post_response, post_field_kind, post_image_path, validate_comment, CreateCommentRequest, FieldKind,
};
use maps_backend::handlers::reels::{
    apply_reel_caption, apply_reel_video, assemble_reels, empty_reel_draft, finish_reel, reel_field_kind,
    reel_video_path, MAX_VIDEO_SIZE,
};
use maps_backend::handlers::rust_practice::{
    build_prompt, check_delete_topic, clean_ai_reply, get_header, kilo_authorization, parse_failure, plan_generation,
    validate_topic_title, AiCall, AiHeaders, GenerateMode, GenerateRequest, SaveTopicRequest, Step1Payload,
    Step2Payload, Step3Payload, Step4Payload, FULL_PROMPT_HEAD, FULL_PROMPT_TAIL, GEMINI_KEY_MISSING,
    KILO_KEY_MISSING, KILO_MODEL_MISSING, STUDY_PROMPT_HEAD, STUDY_PROMPT_TAIL, TOPIC_MISSING,
};
use maps_backend::models::{post, post_comment, reel, user};
use maps_backend::services::auth::AuthUser;

fn bad(msg: &str) -> AppError {
    AppError::BadRequest(msg.to_string())
}

fn person(id: u128, email: &str, name: Option<&str>) -> user::Model {
    user::Model {
        id,
        email: email.to_string(),
        display_name: name.map(|s| s.to_string()),
        role: "member".to_string(),
        created_at: "c".to_string(),
    }
}

fn comment(id: u128, post_id: u128, user_id: u128, text: &str) -> post_comment::Model {
    post_comment::Model { id, post_id, user_id, content: text.to_string(), created_at: format!("t{}", id) }
}

#[test]
fn author_names() {
    assert_eq!(get_author(&person(1, "a@x", Some("Ann"))), "Ann");
    assert_eq!(get_author(&person(1, "a@x", Some(""))), "a@x");
    assert_eq!(get_author(&person(1, "a@x", None)), "a@x");
    assert_eq!(author_or_id(&None, 1), "00000000-0000-0000-0000-000000000001");
}

#[test]
fn feed_groups_comments_under_their_posts_in_order() {
    let posts = vec![
        post::Model { id: 10, user_id: 1, content: "first".to_string(), image_path: Some("posts/x.jpg".to_string()), created_at: "p10".to_string() },
        post::Model { id: 11, user_id: 9, content: "second".to_string(), image_path: None, created_at: "p11".to_string() },
    ];
    let users = vec![person(1, "a@x", Some("Ann"))];
    let comments = vec![comment(1, 11, 2, "c1"), comment(2, 10, 2, "c2"), comment(3, 11, 3, "c3")];
    let commenters = vec![person(2, "b@x", None)];
    let feed = assemble_posts(&posts, &users, &comments, &commenters);
    assert_eq!(feed.len(), 2);
    assert_eq!(feed[0].author, "Ann");
    assert_eq!(feed[0].image_url.as_deref(), Some("/api/posts/00000000-0000-0000-0000-00000000000a/image"));
    assert_eq!(feed[0].comments.len(), 1);
    assert_eq!(feed[0].comments[0].content, "c2");
    assert_eq!(feed[0].comments[0].author, "b@x");
    assert_eq!(feed[1].author, "Unknown");
    assert_eq!(feed[1].image_url, None);
    let texts: Vec<&str> = feed[1].comments.iter().map(|c| c.content.as_str()).collect();
    assert_eq!(texts, vec!["c1", "c3"]);
    assert_eq!(feed[1].comments[1].author, "Unknown");
}

#[test]
fn post_form_fields() {
    assert_eq!(post_field_kind("content"), FieldKind::Text);
    assert_eq!(post_field_kind("image"), FieldKind::Bytes);
    assert_eq!(post_field_kind("other"), FieldKind::Skip);
    let mut d = empty_post_draft();
    apply_post_text(&mut d, Some("  hi there ".to_string()));
    assert_eq!(d.content, "hi there");
    apply_post_text(&mut d, None);
    assert_eq!(d.content, "hi there");
    assert_eq!(apply_post_image(&mut d, None, None), Err(bad("Failed to read image")));
    assert_eq!(apply_post_image(&mut d, Some("image/png".to_string()), Some(vec![])), Ok(()));
    assert_eq!(d.image, None);
    assert_eq!(apply_post_image(&mut d, Some("text/plain".to_string()), Some(vec![1])), Err(bad("File must be an image")));
    assert_eq!(apply_post_image(&mut d, None, Some(vec![0; 10 * 1024 * 1024 + 1])), Err(bad("Image too large (max 10MB)")));
    assert_eq!(apply_post_image(&mut d, None, Some(vec![1, 2])), Ok(()));
    assert_eq!(d.image, Some(vec![1, 2]));
    let done = finish_post(d).ok().unwrap();
    assert_eq!(done.content, "hi there");
    assert_eq!(finish_post(empty_post_draft()), Err(bad("Content is required")));
}

#[test]
fn new_posts_and_comments() {
    assert_eq!(post_image_path(255), "posts/00000000-0000-0000-0000-0000000000ff.jpg");
    let p = new_post_response(1, "x".to_string(), true, "me".to_string(), "now".to_string());
    assert_eq!(p.image_url.as_deref(), Some("/api/posts/00000000-0000-0000-0000-000000000001/image"));
    assert!(p.comments.is_empty());
    assert_eq!(validate_comment(&CreateCommentRequest { content: "  ".to_string() }), Err(bad("Content is required")));
    assert_eq!(validate_comment(&CreateCommentRequest { content: " ok ".to_string() }), Ok("ok".to_string()));
    let bare = post::Model { id: 1, user_id: 1, content: String::new(), image_path: None, created_at: String::new() };
    assert_eq!(image_of(&bare), Err(AppError::NotFound("Post has no image".to_string())));
}

#[test]
fn reel_uploads() {
    assert_eq!(reel_field_kind("video"), FieldKind::Bytes);
    assert_eq!(reel_field_kind("caption"), FieldKind::Text);
    let mut d = empty_reel_draft();
    assert_eq!(apply_reel_video(&mut d, None), Err(bad("Failed to read video")));
    assert_eq!(apply_reel_video(&mut d, Some(vec![])), Err(bad("Video file is empty")));
    assert_eq!(apply_reel_video(&mut d, Some(vec![0; MAX_VIDEO_SIZE + 1])), Err(bad("Video too large (max 100MB)")));
    assert_eq!(finish_reel(empty_reel_draft()), Err(bad("Missing video file")));
    assert_eq!(apply_reel_video(&mut d, Some(vec![7])), Ok(()));
    let (v, caption) = finish_reel(d).ok().unwrap();
    assert_eq!(v, vec![7]);
    assert_eq!(caption, "วิดีโอของฉัน");
    let mut d2 = empty_reel_draft();
    apply_reel_caption(&mut d2, Some(" trip ".to_string()));
    assert_eq!(apply_reel_video(&mut d2, Some(vec![1])), Ok(()));
    assert_eq!(finish_reel(d2).ok().unwrap().1, "trip");
    assert_eq!(reel_video_path(1), "reels/00000000-0000-0000-0000-000000000001.mp4");
    let reels = vec![reel::Model { id: 2, user_id: 1, caption: "c".to_string(), video_path: "v".to_string(), created_at: "t".to_string() }];
    let out = assemble_reels(&reels, &vec![]);
    assert_eq!(out[0].video_url, "/api/reels/00000000-0000-0000-0000-000000000002/video");
    assert_eq!(out[0].uploaded_by, "Unknown");
}

fn headers() -> AiHeaders {
    AiHeaders { provider: None, api_key: None, kilo_api_key: None, model: None, gemini_api_key: None, gemini_model: None }
}

#[test]
fn prompts_wrap_the_trimmed_topic() {
    let p = build_prompt("  ownership  ", GenerateMode::Study);
    assert_eq!(p, format!("{}ownership{}", STUDY_PROMPT_HEAD, STUDY_PROMPT_TAIL));
    let f = build_prompt("traits", GenerateMode::Full);
    assert_eq!(f, format!("{}traits{}", FULL_PROMPT_HEAD, FULL_PROMPT_TAIL));
    assert!(f.contains("หัวข้อ: traits\n"));
}

#[test]
fn ai_replies_lose_their_code_fences() {
    assert_eq!(clean_ai_reply("  ```json\n{\"a\": 1}\n```  "), "{\"a\": 1}");
    assert_eq!(clean_ai_reply("```\n{}\n```"), "{}");
    assert_eq!(clean_ai_reply("{\"b\":2}"), "{\"b\":2}");
}

#[test]
fn generation_plans() {
    let req = |t: &str| GenerateRequest { topic: t.to_string(), mode: GenerateMode::Study };
    let none: Option<String> = None;
    assert_eq!(plan_generation(&req("  "), &headers(), &none, &none, &none), Err(bad(TOPIC_MISSING)));
    assert_eq!(plan_generation(&req("x"), &headers(), &none, &none, &none), Err(bad(GEMINI_KEY_MISSING)));
    let plan = plan_generation(&req("x"), &headers(), &Some("K".to_string()), &None, &none).ok().unwrap();
    match plan {
        AiCall::Gemini { url, .. } => assert_eq!(
            url,
            "https://generativelanguage.googleapis.com/v1beta/models/gemini-2.0-flash:generateContent?key=K"
        ),
        _ => panic!("expected Gemini"),
    }
    let mut h = headers();
    h.gemini_api_key = Some(" mine".to_string());
    h.gemini_model = Some("  ".to_string());
    match plan_generation(&req("x"), &h, &Some("K".to_string()), &Some("m2".to_string()), &none).ok().unwrap() {
        AiCall::Gemini { url, .. } => assert!(url.ends_with("/m2:generateContent?key= mine")),
        _ => panic!("expected Gemini"),
    }
    let mut k = headers();
    k.provider = Some(" KILO ".to_string());
    assert_eq!(plan_generation(&req("x"), &k, &none, &none, &none), Err(bad(KILO_KEY_MISSING)));
    k.kilo_api_key = Some(" secret ".to_string());
    assert_eq!(plan_generation(&req("x"), &k, &none, &none, &none), Err(bad(KILO_MODEL_MISSING)));
    match plan_generation(&req("x"), &k, &none, &none, &Some("server/model".to_string())).ok().unwrap() {
        AiCall::Kilo { key, model, prompt } => {
            assert_eq!(key, "secret");
            assert_eq!(model, "server/model");
            assert!(prompt.contains("หัวข้อ: x\n"));
        }
        _ => panic!("expected Kilo"),
    }
    k.model = Some(" vendor/model ".to_string());
    match plan_generation(&req("x"), &k, &none, &none, &Some("server/model".to_string())).ok().unwrap() {
        AiCall::Kilo { model, .. } => assert_eq!(model, "vendor/model"),
        _ => panic!("expected Kilo"),
    }
    // the Kelvin sign lower-cases to a plain k
    k.provider = Some("\u{212A}ilo".to_string());
    k.model = Some("m".to_string());
    assert!(matches!(plan_generation(&req("x"), &k, &none, &none, &none), Ok(AiCall::Kilo { .. })));
}

#[test]
fn practice_small_rules() {
    assert_eq!(get_header(&Some("  v ".to_string())), Some("v".to_string()));
    assert_eq!(get_header(&Some("   ".to_string())), None);
    assert_eq!(kilo_authorization(" k "), Ok("Bearer k".to_string()));
    assert_eq!(kilo_authorization("  "), Err(bad("กรุณากรอก Kilo API Key ในหน้าตั้งค่า")));
    assert_eq!(
        parse_failure(GenerateMode::Study, "eof"),
        bad("ไม่สามารถ parse คำตอบจาก AI: eof (คำตอบอาจถูกตัดกลางทาง ลองกดสร้างใหม่อีกครั้ง)")
    );
    let member = AuthUser { id: 1, email: String::new(), display_name: None, role: "member".to_string() };
    assert_eq!(check_delete_topic(&member, "x"), Err(AppError::Forbidden));
    let admin = AuthUser { role: "admin".to_string(), ..member };
    assert_eq!(check_delete_topic(&admin, "x"), Err(bad("Invalid topic id")));
    let save = SaveTopicRequest {
        title: "  ".to_string(),
        step1: Step1Payload { title: String::new(), content: String::new(), code: None },
        step2: Step2Payload { title: String::new(), description: String::new(), code: String::new() },
        step3: Step3Payload { title: String::new(), description: String::new(), code_with_blanks: String::new(), solution: String::new() },
        step4: Step4Payload { title: String::new(), task: String::new(), hint: None, solution: String::new() },
    };
    assert_eq!(validate_topic_title(&save), Err(bad("title ต้องไม่ว่าง")));
}
