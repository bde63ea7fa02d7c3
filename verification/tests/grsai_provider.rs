use canvas_ai::grsai::{
    build_generate_body, classify_reference, decode_file_url_path, interpret_poll_payload,
    is_gpt_image_2_model, next_poll_action, normalize_drive_path, poll_interval_ms,
    resolve_generate_sizing, resolve_gpt_image_2_vip_dimensions, result_request_failed,
    generate_request_failed, generate_step, submission_from_generate_response, GenerateStep,
    GrsaiProvider, PollAction, ReferenceSource,
};
use canvas_ai::json::JsonValue;
use canvas_ai::provider::{AIError, GenerateRequest, ProviderTaskPollResult, ProviderTaskSubmission};

fn s(x: &str) -> String {
    x.to_string()
}

fn obj(entries: Vec<(&str, JsonValue)>) -> JsonValue {
    JsonValue::Object(entries.into_iter().map(|(k, v)| (k.to_string(), v)).collect())
}

fn request(model: &str, ratio: &str, size: &str) -> GenerateRequest {
    GenerateRequest {
        prompt: s("a cat"),
        model: s(model),
        size: s(size),
        aspect_ratio: s(ratio),
        reference_images: None,
        extra_params: None,
        draft_task_id: None,
    }
}

fn invalid_request_text(e: AIError) -> String {
    match e {
        AIError::InvalidRequest(m) => m,
        _ => panic!("expected InvalidRequest"),
    }
}

#[test]
fn gpt_image_2_family_is_recognised_with_or_without_prefix() {
    assert!(is_gpt_image_2_model("gpt-image-2"));
    assert!(is_gpt_image_2_model("gpt-image-2-vip"));
    assert!(is_gpt_image_2_model("grsai/gpt-image-2"));
    assert!(is_gpt_image_2_model("grsai/gpt-image-2-vip"));
    assert!(!is_gpt_image_2_model("nano-banana-pro"));
    assert!(!is_gpt_image_2_model("gpt-image-2-pro"));
}

#[test]
fn vip_dimensions_follow_the_table() {
    assert_eq!(resolve_gpt_image_2_vip_dimensions("16:9", "2K").ok(), Some(s("2048x1152")));
    assert_eq!(resolve_gpt_image_2_vip_dimensions("1:1", "1K").ok(), Some(s("1024x1024")));
    assert_eq!(resolve_gpt_image_2_vip_dimensions("3:2", "2K").ok(), Some(s("2048x1360")));
    assert_eq!(resolve_gpt_image_2_vip_dimensions("1:2", "4K").ok(), Some(s("1920x3840")));
    assert_eq!(resolve_gpt_image_2_vip_dimensions("21:9", "4K").ok(), Some(s("3840x1648")));
}

#[test]
fn vip_one_to_three_and_three_to_one_have_no_4k() {
    for ratio in ["1:3", "3:1"] {
        assert!(resolve_gpt_image_2_vip_dimensions(ratio, "1K").is_ok());
        assert!(resolve_gpt_image_2_vip_dimensions(ratio, "2K").is_ok());
        let err = resolve_gpt_image_2_vip_dimensions(ratio, "4K").err().unwrap();
        assert_eq!(
            invalid_request_text(err),
            format!("Unsupported aspect ratio / resolution combination for gpt-image-2-vip: {} 4K", ratio)
        );
    }
}

#[test]
fn vip_fifteen_ratios_cover_the_documented_sizes() {
    let full = ["1:1", "16:9", "9:16", "4:3", "3:4", "3:2", "2:3", "5:4", "4:5", "21:9", "9:21", "2:1", "1:2"];
    for ratio in full {
        for size in ["1K", "2K", "4K"] {
            assert!(resolve_gpt_image_2_vip_dimensions(ratio, size).is_ok(), "{} {}", ratio, size);
        }
    }
    assert!(resolve_gpt_image_2_vip_dimensions("1:4", "1K").is_err());
    assert!(resolve_gpt_image_2_vip_dimensions("16:9", "8K").is_err());
}

#[test]
fn file_urls_become_local_paths() {
    assert_eq!(decode_file_url_path("file:///C:/Users/a%20b/x.png"), "C:/Users/a b/x.png");
    assert_eq!(decode_file_url_path("file:///home/u/%E5%9B%BE.png"), "/home/u/图.png");
    assert_eq!(decode_file_url_path("file://file:///tmp/x"), "/tmp/x");
    assert_eq!(decode_file_url_path("file:///tmp/a+b%zz"), "/tmp/a+b%zz");
    assert_eq!(decode_file_url_path("file:///tmp/%FF"), "/tmp/%FF");
}

#[test]
fn drive_paths_lose_their_leading_slash_only() {
    assert_eq!(normalize_drive_path("/D:/img.png"), "D:/img.png");
    assert_eq!(normalize_drive_path("/home/x"), "/home/x");
    assert_eq!(normalize_drive_path("/é:/x"), "/é:/x");
    assert_eq!(normalize_drive_path("/C"), "/C");
}

fn inline(r: ReferenceSource) -> Option<String> {
    match r {
        ReferenceSource::Inline(t) => Some(t),
        _ => None,
    }
}

fn local(r: ReferenceSource) -> Option<String> {
    match r {
        ReferenceSource::LocalFile(p) => Some(p),
        _ => None,
    }
}

#[test]
fn references_are_classified() {
    assert!(matches!(classify_reference("   "), ReferenceSource::Skip));
    assert_eq!(inline(classify_reference("  https://x.com/a.png ")), Some(s("https://x.com/a.png")));
    assert_eq!(inline(classify_reference("http://x")), Some(s("http://x")));
    assert_eq!(inline(classify_reference("data:image/png;base64,QUJD")), Some(s("QUJD")));
    assert_eq!(local(classify_reference("data:image/png;base64,")), Some(s("data:image/png;base64,")));
    assert_eq!(local(classify_reference("data:text/plain,abc")), Some(s("data:text/plain,abc")));
    let long = "A".repeat(300);
    assert_eq!(inline(classify_reference(&long)), Some(long.clone()));
    let short = "A".repeat(256);
    assert_eq!(local(classify_reference(&short)), Some(short.clone()));
    assert_eq!(local(classify_reference("file:///C:/a%20b.png")), Some(s("C:/a b.png")));
    assert_eq!(local(classify_reference("/tmp/x.png")), Some(s("/tmp/x.png")));
}

#[test]
fn provider_basics() {
    let p = GrsaiProvider::new();
    assert_eq!(p.name(), "grsai");
    assert!(p.supports_task_resume());
    assert_eq!(p.base_url, "https://grsai.dakka.com.cn");
    assert_eq!(p.generate_endpoint(), "https://grsai.dakka.com.cn/v1/api/generate");
    assert_eq!(p.result_endpoint(), "https://grsai.dakka.com.cn/v1/api/result");
    assert_eq!(
        p.list_models(),
        vec![s("grsai/nano-banana-2"), s("grsai/nano-banana-pro"), s("grsai/gpt-image-2"), s("grsai/gpt-image-2-vip")]
    );
    assert_eq!(poll_interval_ms(), 2000);
}

#[test]
fn api_key_is_read_back_after_it_is_set() {
    let mut p = GrsaiProvider::new();
    assert_eq!(invalid_request_text(p.authorization().err().unwrap()), "API key not set");
    p.set_api_key(s("sk-123"));
    assert_eq!(p.authorization().ok(), Some(s("Bearer sk-123")));
}

#[test]
fn listed_models_are_supported() {
    let p = GrsaiProvider::new();
    for m in p.list_models() {
        assert!(p.supports_model(&m));
    }
    assert!(p.supports_model("grsai/anything"));
    assert!(p.supports_model("nano-banana-pro-4k-vip"));
    assert!(p.supports_model("gpt-image-2"));
    assert!(!p.supports_model("dall-e-3"));
    assert!(!p.supports_model("nano-banana"));
}

#[test]
fn requested_models_are_normalized() {
    let p = GrsaiProvider::new();
    let norm = |model: &str, pro: Option<JsonValue>| {
        let mut r = request(model, "1:1", "1K");
        r.extra_params = pro.map(|v| vec![(s("grsai_pro_model"), v)]);
        p.normalize_requested_model(&r)
    };
    assert_eq!(norm("grsai/gpt-image-2", None), "gpt-image-2");
    assert_eq!(norm("gpt-image-2-vip", None), "gpt-image-2-vip");
    assert_eq!(norm("grsai/nano-banana-2", None), "nano-banana-2");
    assert_eq!(norm("grsai/nano-banana-pro", None), "nano-banana-pro");
    assert_eq!(norm("nano-banana-pro-vt", None), "nano-banana-pro-vt");
    assert_eq!(norm("grsai/nano-banana-pro", Some(JsonValue::Str(s("  Nano-Banana-Pro-VIP ")))), "nano-banana-pro-vip");
    assert_eq!(norm("grsai/nano-banana-pro", Some(JsonValue::Str(s("something-else")))), "nano-banana-pro");
    assert_eq!(norm("grsai/nano-banana-pro-cl", Some(JsonValue::Int(3))), "nano-banana-pro-cl");
    assert_eq!(norm("grsai/unknown", None), "nano-banana-pro");
    assert_eq!(norm("a/b/c", None), "nano-banana-pro");
}

#[test]
fn pro_variant_is_trimmed_and_lowercased() {
    assert_eq!(GrsaiProvider::normalize_pro_variant(" NANO-BANANA-PRO "), "nano-banana-pro");
    assert_eq!(GrsaiProvider::normalize_pro_variant("nano-banana-pro-4K-VIP"), "nano-banana-pro-4k-vip");
    assert_eq!(GrsaiProvider::normalize_pro_variant("banana"), "nano-banana-pro");
}

#[test]
fn result_url_is_first_result() {
    let payload = obj(vec![(
        "results",
        JsonValue::Array(vec![
            obj(vec![("url", JsonValue::Str(s("https://img/1.png")))]),
            obj(vec![("url", JsonValue::Str(s("https://img/2.png")))]),
        ]),
    )]);
    assert_eq!(GrsaiProvider::extract_result_url(&payload), Some(s("https://img/1.png")));
    assert_eq!(GrsaiProvider::extract_result_url(&obj(vec![("results", JsonValue::Array(vec![]))])), None);
    assert_eq!(GrsaiProvider::extract_result_url(&obj(vec![("results", JsonValue::Str(s("x")))])), None);
    assert_eq!(GrsaiProvider::extract_result_url(&JsonValue::Null), None);
}

fn poll(payload: JsonValue) -> Result<ProviderTaskPollResult, AIError> {
    interpret_poll_payload(&payload)
}

fn failed_text(r: Result<ProviderTaskPollResult, AIError>) -> String {
    match r {
        Ok(ProviderTaskPollResult::Failed(m)) => m,
        _ => panic!("expected Failed"),
    }
}

#[test]
fn poll_replies_are_interpreted() {
    assert!(matches!(poll(obj(vec![])), Ok(ProviderTaskPollResult::Running)));
    assert!(matches!(poll(obj(vec![("status", JsonValue::Str(s("running")))])), Ok(ProviderTaskPollResult::Running)));
    assert!(matches!(poll(obj(vec![("status", JsonValue::Int(1))])), Ok(ProviderTaskPollResult::Running)));
    match poll(obj(vec![
        ("status", JsonValue::Str(s("running"))),
        ("results", JsonValue::Array(vec![obj(vec![("url", JsonValue::Str(s("u")))])])),
    ])) {
        Ok(ProviderTaskPollResult::Succeeded(u)) => assert_eq!(u, "u"),
        _ => panic!("expected success"),
    }
}

#[test]
fn violation_without_error_is_content_violation() {
    assert_eq!(failed_text(poll(obj(vec![("status", JsonValue::Str(s("violation")))]))), "content violation");
    assert_eq!(
        failed_text(poll(obj(vec![("status", JsonValue::Str(s("violation"))), ("error", JsonValue::Str(s("nsfw")))]))),
        "nsfw"
    );
}

#[test]
fn failed_task_reports_error_or_unknown_failure() {
    assert_eq!(failed_text(poll(obj(vec![("status", JsonValue::Str(s("failed")))]))), "unknown failure");
    assert_eq!(
        failed_text(poll(obj(vec![("status", JsonValue::Str(s("failed"))), ("error", JsonValue::Str(s("")))]))),
        "unknown failure"
    );
    assert_eq!(
        failed_text(poll(obj(vec![("status", JsonValue::Str(s("failed"))), ("error", JsonValue::Str(s("boom")))]))),
        "boom"
    );
}

#[test]
fn unexpected_status_is_a_provider_error() {
    match poll(obj(vec![("status", JsonValue::Str(s("queued")))])) {
        Err(AIError::Provider(m)) => assert_eq!(m, "GRSAI unexpected task status: queued"),
        _ => panic!("expected provider error"),
    }
}

#[test]
fn generate_replies_become_submissions() {
    match submission_from_generate_response(&obj(vec![("id", JsonValue::Str(s("task-1")))])) {
        Ok(ProviderTaskSubmission::Queued(h)) => {
            assert_eq!(h.task_id, "task-1");
            assert!(h.metadata.is_none());
        }
        _ => panic!("expected queued"),
    }
    let done = obj(vec![("results", JsonValue::Array(vec![obj(vec![("url", JsonValue::Str(s("u")))])]))]);
    assert!(matches!(submission_from_generate_response(&done), Ok(ProviderTaskSubmission::Succeeded(u)) if u == "u"));
    match submission_from_generate_response(&obj(vec![("id", JsonValue::Int(5))])) {
        Err(AIError::Provider(m)) => assert_eq!(m, "GRSAI response missing task id"),
        _ => panic!("expected provider error"),
    }
}

#[test]
fn sizing_depends_on_the_model_family() {
    let r = request("x", "16:9", "2K");
    let nano = resolve_generate_sizing(&r, "nano-banana-2").ok().unwrap();
    assert_eq!(nano.aspect_ratio, "16:9");
    assert_eq!(nano.image_size, Some(s("2K")));
    let gpt = resolve_generate_sizing(&r, "gpt-image-2").ok().unwrap();
    assert_eq!(gpt.aspect_ratio, "16:9");
    assert_eq!(gpt.image_size, None);
    let vip = resolve_generate_sizing(&r, "gpt-image-2-vip").ok().unwrap();
    assert_eq!(vip.aspect_ratio, "2048x1152");
    assert_eq!(vip.image_size, None);
    let bad = request("x", "1:3", "4K");
    assert!(matches!(resolve_generate_sizing(&bad, "gpt-image-2-vip"), Err(AIError::InvalidRequest(_))));
    assert!(resolve_generate_sizing(&bad, "gpt-image-2").is_ok());
}

#[test]
fn generate_bodies_carry_encoded_references() {
    let mut r = request("grsai/nano-banana-2", "1:1", "1K");
    let sizing = resolve_generate_sizing(&r, "nano-banana-2").ok().unwrap();
    let body = build_generate_body(&r, s("nano-banana-2"), sizing, vec![]).ok().unwrap();
    assert_eq!(body.model, "nano-banana-2");
    assert_eq!(body.prompt, "a cat");
    assert_eq!(body.images, None);
    assert_eq!(body.reply_type, "json");
    assert_eq!(body.image_size, Some(s("1K")));

    r.reference_images = Some(vec![s("a"), s("b"), s("c")]);
    let sizing = resolve_generate_sizing(&r, "nano-banana-2").ok().unwrap();
    let body = build_generate_body(&r, s("nano-banana-2"), sizing, vec![Some(s("A")), None, Some(s("C"))])
        .ok()
        .unwrap();
    assert_eq!(body.images, Some(vec![s("A"), s("C")]));

    let sizing = resolve_generate_sizing(&r, "nano-banana-2").ok().unwrap();
    match build_generate_body(&r, s("nano-banana-2"), sizing, vec![None, None, None]) {
        Err(AIError::InvalidRequest(m)) => {
            assert_eq!(m, "Reference images are present but none could be encoded for GRSAI")
        }
        _ => panic!("expected refusal"),
    }

    r.reference_images = Some(vec![]);
    let sizing = resolve_generate_sizing(&r, "nano-banana-2").ok().unwrap();
    let body = build_generate_body(&r, s("nano-banana-2"), sizing, vec![]).ok().unwrap();
    assert_eq!(body.images, None);
}

#[test]
fn failure_statuses_become_provider_errors() {
    match generate_request_failed("400 Bad Request", "oops") {
        AIError::Provider(m) => assert_eq!(m, "GRSAI generate request failed 400 Bad Request: oops"),
        _ => panic!(),
    }
    match result_request_failed("500 Internal Server Error", "") {
        AIError::Provider(m) => assert_eq!(m, "GRSAI result request failed 500 Internal Server Error: "),
        _ => panic!(),
    }
}

#[test]
fn polling_stops_unless_running() {
    assert!(matches!(next_poll_action(Ok(ProviderTaskPollResult::Running)), PollAction::WaitAndRetry));
    assert!(matches!(
        next_poll_action(Ok(ProviderTaskPollResult::Succeeded(s("u")))),
        PollAction::Finish(Ok(u)) if u == "u"
    ));
    assert!(matches!(
        next_poll_action(Ok(ProviderTaskPollResult::SucceededWithMeta { url: s("v"), seed: Some(3) })),
        PollAction::Finish(Ok(u)) if u == "v"
    ));
    assert!(matches!(
        next_poll_action(Ok(ProviderTaskPollResult::Failed(s("bad")))),
        PollAction::Finish(Err(AIError::TaskFailed(m))) if m == "bad"
    ));
    assert!(matches!(
        next_poll_action(Err(AIError::Http(s("timeout")))),
        PollAction::Finish(Err(AIError::Http(m))) if m == "timeout"
    ));
}

#[test]
fn error_messages_name_their_kind() {
    assert_eq!(AIError::InvalidRequest(s("x")).message(), "Invalid request: x");
    assert_eq!(AIError::Provider(s("x")).message(), "Provider error: x");
    assert_eq!(AIError::TaskFailed(s("x")).message(), "Task failed: x");
    assert_eq!(AIError::Http(s("x")).message(), "HTTP error: x");
}

#[test]
fn blocking_generation_returns_or_polls() {
    let done = obj(vec![
        ("id", JsonValue::Str(s("task-9"))),
        ("results", JsonValue::Array(vec![obj(vec![("url", JsonValue::Str(s("https://img/1.png")))])])),
    ]);
    assert!(matches!(generate_step(&done), Ok(GenerateStep::Done(u)) if u == "https://img/1.png"));
    assert!(matches!(
        generate_step(&obj(vec![("id", JsonValue::Str(s("task-2")))])),
        Ok(GenerateStep::Poll(t)) if t == "task-2"
    ));
    match generate_step(&obj(vec![("status", JsonValue::Str(s("running")))])) {
        Err(AIError::Provider(m)) => assert_eq!(m, "GRSAI response missing task id"),
        _ => panic!("expected provider error"),
    }
}

#[test]
fn lowercased_pro_variants_are_kept_or_replaced() {
    assert_eq!(GrsaiProvider::pro_variant_from_lowercased(s("nano-banana-pro")), "nano-banana-pro");
    assert_eq!(GrsaiProvider::pro_variant_from_lowercased(s("nano-banana-pro-vip")), "nano-banana-pro-vip");
    assert_eq!(GrsaiProvider::pro_variant_from_lowercased(s("nano-banana-pro2")), "nano-banana-pro");
    assert_eq!(GrsaiProvider::pro_variant_from_lowercased(s("")), "nano-banana-pro");
}

#[test]
fn vip_sizes_swap_with_the_ratio_and_grow_with_the_resolution() {
    let ratios = [
        ("1", "1"), ("16", "9"), ("9", "16"), ("4", "3"), ("3", "4"), ("3", "2"), ("2", "3"), ("5", "4"),
        ("4", "5"), ("21", "9"), ("9", "21"), ("1", "3"), ("3", "1"), ("2", "1"), ("1", "2"),
    ];
    let dims = |r: &str, k: &str| -> Option<(u32, u32)> {
        resolve_gpt_image_2_vip_dimensions(r, k).ok().map(|d| {
            let (w, h) = d.split_once('x').unwrap();
            (w.parse().unwrap(), h.parse().unwrap())
        })
    };
    for (a, b) in ratios {
        let ratio = format!("{}:{}", a, b);
        let swapped = format!("{}:{}", b, a);
        for k in ["1K", "2K", "4K"] {
            assert_eq!(dims(&ratio, k).map(|(w, h)| (h, w)), dims(&swapped, k), "{} {}", ratio, k);
        }
        let (w1, h1) = dims(&ratio, "1K").unwrap();
        let (w2, h2) = dims(&ratio, "2K").unwrap();
        assert!(w1 < w2 && h1 < h2, "{}", ratio);
        if let Some((w4, h4)) = dims(&ratio, "4K") {
            assert!(w2 < w4 && h2 < h4, "{}", ratio);
        }
    }
    assert_eq!(resolve_gpt_image_2_vip_dimensions("9:16", "4K").ok(), Some(s("2160x3840")));
}
