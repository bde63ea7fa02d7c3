use canvas_ai::polish::{
    api_error_message, build_video_metadata_prefix, chat_reply, network_error_message,
    parse_error_message, plan_polish, plan_text_api_test, responses_reply, test_reply, ChatContent,
    ChatResponse, Choice, PolishBody, PolishTextRequest, ResponseMessage, ResponsesChoice,
    ResponsesMessage, ResponsesOutput, ResponsesResponse, TEXT_POLISH_TEMPLATE, VIDEO_POLISH_TEMPLATE,
};

fn s(x: &str) -> String {
    x.to_string()
}

fn base_request(base_url: &str) -> PolishTextRequest {
    PolishTextRequest {
        text: s("一只猫"),
        model: s("doubao"),
        api_key: s("k"),
        base_url: s(base_url),
        reference_images: None,
        custom_prompt: None,
        video_duration: None,
        video_resolution: None,
        video_aspect_ratio: None,
        video_shot_type: None,
        video_shot_size: None,
        video_angle: None,
        video_camera_movement: None,
        video_camera_speed: None,
        is_video_frame: None,
        prompt_type: None,
    }
}

#[test]
fn prefix_is_empty_without_parameters() {
    assert_eq!(build_video_metadata_prefix(None, None, None, false), "");
    assert_eq!(build_video_metadata_prefix(Some(""), Some(""), None, false), "");
}

#[test]
fn prefix_lists_the_given_parameters() {
    assert_eq!(
        build_video_metadata_prefix(Some("5"), None, Some("16:9"), true),
        "当前视频生成固定参数（由用户选择，AI需遵循）：\n- 时长：5秒\n- 画面宽高比：16:9\n- 模式：首尾帧视频（图1为首帧，图2为尾帧）\n以上为用户已选择的固定参数，AI在优化提示词时必须遵循。"
    );
    assert_eq!(
        build_video_metadata_prefix(None, Some("1080p"), None, false),
        "当前视频生成固定参数（由用户选择，AI需遵循）：\n- 分辨率：1080p\n以上为用户已选择的固定参数，AI在优化提示词时必须遵循。"
    );
}

#[test]
fn chat_plan_for_plain_prompts() {
    let req = base_request("https://ark.cn/api/coding/");
    let plan = plan_polish(&req);
    assert_eq!(plan.endpoint, "https://ark.cn/api/coding/v3/chat/completions");
    match plan.body {
        PolishBody::Chat(body) => {
            assert_eq!(body.model, "doubao");
            assert_eq!(body.stream, Some(false));
            assert_eq!(body.messages.len(), 2);
            assert_eq!(body.messages[0].role, "system");
            assert!(matches!(&body.messages[0].content, ChatContent::Text(t) if t == VIDEO_POLISH_TEMPLATE));
            assert_eq!(body.messages[1].role, "user");
            assert!(matches!(&body.messages[1].content, ChatContent::Text(t) if t == "请润色这个提示词：一只猫"));
        }
        _ => panic!("expected chat"),
    }
}

#[test]
fn chat_plan_keeps_only_usable_references() {
    let mut req = base_request("https://ark.cn/api");
    req.reference_images = Some(vec![s("https://a/1.png"), s("/local/x.png"), s("data:image/png;base64,AA")]);
    req.custom_prompt = Some(s("  my template  "));
    req.prompt_type = Some(s("image"));
    let plan = plan_polish(&req);
    match plan.body {
        PolishBody::Chat(body) => {
            assert!(matches!(&body.messages[0].content, ChatContent::Text(t) if t == "my template"));
            match &body.messages[1].content {
                ChatContent::Array(parts) => {
                    assert_eq!(parts.len(), 3);
                    assert_eq!(parts[0].part_type, "image_url");
                    assert_eq!(parts[0].image_url.as_ref().unwrap().url, "https://a/1.png");
                    assert_eq!(parts[1].image_url.as_ref().unwrap().url, "data:image/png;base64,AA");
                    assert_eq!(parts[2].part_type, "text");
                    assert_eq!(parts[2].text.as_deref(), Some("请润色这个提示词：一只猫\n\n参考图片已提供。"));
                }
                _ => panic!("expected parts"),
            }
        }
        _ => panic!("expected chat"),
    }
}

#[test]
fn responses_plan_for_v3_base_urls() {
    let mut req = base_request("https://ark.cn/api/v3//");
    req.prompt_type = Some(s("image"));
    req.reference_images = Some(vec![s("/x.png")]);
    req.video_duration = Some(s("5"));
    let plan = plan_polish(&req);
    assert_eq!(plan.endpoint, "https://ark.cn/api/v3/responses");
    match plan.body {
        PolishBody::Responses(body) => {
            assert_eq!(body.input.len(), 1);
            assert_eq!(body.input[0].role, "user");
            let parts = &body.input[0].content;
            assert_eq!(parts.len(), 2);
            assert_eq!(parts[0].part_type, "input_image");
            assert_eq!(parts[0].image_url.as_deref(), Some("/x.png"));
            assert_eq!(parts[1].part_type, "input_text");
            let prefix = build_video_metadata_prefix(Some("5"), None, None, false);
            let expected = format!(
                "{}\n\n请根据参考图片润色这个提示词：{}\n\n{}\n\n参考图片已提供。",
                TEXT_POLISH_TEMPLATE, prefix, "一只猫"
            );
            assert_eq!(parts[1].text.as_deref(), Some(expected.as_str()));
        }
        _ => panic!("expected responses"),
    }
}

#[test]
fn blank_custom_template_falls_back_to_default() {
    let mut req = base_request("https://ark.cn/api/v3");
    req.custom_prompt = Some(s("   "));
    match plan_polish(&req).body {
        PolishBody::Responses(body) => {
            let expected = format!("{}\n\n请润色这个提示词：一只猫", VIDEO_POLISH_TEMPLATE);
            assert_eq!(body.input[0].content[0].text.as_deref(), Some(expected.as_str()));
        }
        _ => panic!("expected responses"),
    }
    req.custom_prompt = Some(s(" mine "));
    match plan_polish(&req).body {
        PolishBody::Responses(body) => {
            assert_eq!(body.input[0].content[0].text.as_deref(), Some(" mine \n\n请润色这个提示词：一只猫"));
        }
        _ => panic!("expected responses"),
    }
}

#[test]
fn coding_base_urls_use_chat_even_under_v3() {
    let plan = plan_polish(&base_request("https://ark.cn/api/v3/coding"));
    assert!(matches!(plan.body, PolishBody::Chat(_)));
    assert_eq!(plan.endpoint, "https://ark.cn/api/v3/coding/v3/chat/completions");
}

#[test]
fn replies_are_read_from_the_first_choice() {
    let chat = ChatResponse {
        choices: Some(vec![Choice { message: Some(ResponseMessage { content: Some(s("polished")) }) }]),
    };
    assert_eq!(chat_reply(&chat), Ok(s("polished")));
    assert_eq!(test_reply(&chat), Ok(s("API连接成功！测试回复: polished")));
    let empty = ChatResponse { choices: Some(vec![]) };
    assert_eq!(chat_reply(&empty), Err(s("API返回内容为空")));
    assert_eq!(test_reply(&ChatResponse { choices: None }), Err(s("API返回内容为空")));
    let resp = ResponsesResponse {
        output: Some(ResponsesOutput {
            choices: Some(vec![ResponsesChoice { message: Some(ResponsesMessage { content: Some(s("r")) }) }]),
        }),
    };
    assert_eq!(responses_reply(&resp), Ok(s("r")));
    assert_eq!(responses_reply(&ResponsesResponse { output: None }), Err(s("API返回内容为空")));
    let no_content = ResponsesResponse {
        output: Some(ResponsesOutput { choices: Some(vec![ResponsesChoice { message: None }]) }),
    };
    assert_eq!(responses_reply(&no_content), Err(s("API返回内容为空")));
}

#[test]
fn failure_statuses_are_explained() {
    assert_eq!(
        api_error_message(401, "401 Unauthorized", "{}"),
        "API调用失败 [401 Unauthorized]: API密钥无效或已过期 | 错误详情: {}"
    );
    assert!(api_error_message(503, "503", "").contains("服务器内部错误，请稍后重试"));
    assert!(api_error_message(403, "403", "").contains("API访问被拒绝，请检查密钥权限"));
    assert!(api_error_message(429, "429", "").contains("请求过于频繁，请稍后重试"));
    assert!(api_error_message(400, "400", "").contains("请求参数有误"));
    assert_eq!(network_error_message("dns"), "网络请求失败，请检查网络连接: dns");
    assert_eq!(parse_error_message("eof"), "响应格式解析失败: eof");
}

#[test]
fn text_api_test_asks_one_question() {
    let (endpoint, body) = plan_text_api_test(&base_request("https://x.y/api/"));
    assert_eq!(endpoint, "https://x.y/api/v3/chat/completions");
    assert_eq!(body.messages.len(), 1);
    assert_eq!(body.messages[0].role, "user");
    assert!(matches!(&body.messages[0].content, ChatContent::Text(t) if t == "你是什么模型？请简单介绍一下你自己。"));
    assert_eq!(body.stream, Some(false));
}

#[test]
fn text_api_key_is_sent_as_bearer() {
    assert_eq!(canvas_ai::polish::authorization_header("sk-1"), "Bearer sk-1");
}
