//! Prompt polishing: the video-parameter preamble, the chat and responses
//! request bodies, and the reading of the model's reply.

use vstd::prelude::*;
use crate::text::{
    concat2, concat3, contains_str, has_substring, owned, starts_with, str_eq, strip_trailing_char,
    trim, trim_end_matches_char, trim_ws,
};
use crate::provider::opt_view;

verus! {

/// The default system prompt for polishing image prompts.
pub const TEXT_POLISH_TEMPLATE: &'static str = "你是专业的AI绘画提示词润色专家。我将为你提供待优化的原始AI绘画提示词（可能包含参考图片的@引用标记），请按照以下要求进行深度优化：
核心任务：深度理解原始提示词的核心语义和用户期望的视觉目标
视觉增强：从画面构图、风格流派、色彩调性、光影效果、主体元素、质感表现、氛围情绪等维度进行专业增强
AI适配：结合AI绘画工具的生成逻辑进行优化补充
输出要求：直接输出润色后的提示词，不需要任何解释或前缀说明
请直接输出优化后的提示词文本。";

/// The default system prompt for polishing video prompts.
pub const VIDEO_POLISH_TEMPLATE: &'static str = "你是专业的 AI 视频生成提示词润色专家，具备丰富的镜头语言、视觉美学和 AI 生成适配经验。我将为你提供参考图片和待优化的原始 AI 视频提示词（可能为空），请严格遵循以下要求，完成深度优化，确保优化后的提示词精准适配 AI 视频生成工具，能直接生成符合预期的视觉效果：
核心前提：深度拆解原始提示词的核心语义、镜头逻辑、动态需求和视觉预期，不偏离用户核心诉求，不添加无关元素，同时弥补原始提示词的细节缺失。
优化核心维度（按需精准融入，不冗余，贴合 AI 生成特性）：
场景：明确环境、具体地点、背景细节（如天气、植被、建筑风格、空间层次），补充环境动态变化（如风吹，光影流动、烟雾飘动）；
时长：根据视频总时长，可拆分关键镜头时长分配；
景别：精准标注每段镜头景别（远景 / 全景 / 中景 / 近景 / 特写），明确景别切换逻辑，贴合内容节奏；
运镜：适配 AI 工具可实现的运镜方式（固定镜头、缓慢推进 / 拉远、平稳跟随、缓慢环绕、柔和摇镜等），标注运镜速度和幅度，避免复杂难实现的运镜；
角色 / 主体：详细描述外观细节、色彩、纹理、状态，明确表情、连贯动作及运动轨迹，突出主体辨识度；
情绪基调：精准定位整体情绪（紧张、压抑、温馨、科幻、惊悚等），并通过光影、色彩、动作强化情绪表达；
光影：明确光源类型（自然光 / 人工光 / 特殊光源）、光线方向、明暗对比，补充光影动态效果（如光斑移动、反光变化），增强画面层次感；
动作：细化主体及环境的连贯动作，标注动作速度、幅度，确保动态流畅自然，符合逻辑；
氛围：强化整体视觉氛围（写实、科幻、复古、梦幻、末日等），通过色彩、光影、环境细节统一氛围基调；
台词 / 旁白（按需）：简洁适配视频时长，贴合内容节奏，语言自然，符合整体情绪；
音效 / 配乐（按需）：明确背景音乐风格、环境音细节、特效音，贴合画面节奏和情绪，增强沉浸感。
AI 适配优化：结合主流 AI 视频生成工具的特性（时长限制、运镜兼容性、动态效果上限、细节渲染能力），优化提示词表述，避免模糊化描述，确保 AI 能精准解析，减少生成偏差；优先选择 AI 易实现的动态和光影效果，同时保留核心视觉诉求。
输出规范：仅输出润色后的完整视频提示词，无任何多余解释、前缀或后缀，语言简洁精准、逻辑清晰，镜头和动态描述连贯，可直接复制用于 AI 视频生成。";

/// The first line of the video-parameter preamble.
pub const VIDEO_PARAMS_TITLE: &'static str = "当前视频生成固定参数（由用户选择，AI需遵循）：";

/// The last line of the video-parameter preamble.
pub const VIDEO_PARAMS_FOOTER: &'static str = "以上为用户已选择的固定参数，AI在优化提示词时必须遵循。";

/// The preamble line for first/last-frame videos.
pub const VIDEO_FRAME_LINE: &'static str = "- 模式：首尾帧视频（图1为首帧，图2为尾帧）";

/// A request to polish a prompt (or to test a text API).
pub struct PolishTextRequest {
    pub text: String,
    pub model: String,
    pub api_key: String,
    pub base_url: String,
    pub reference_images: Option<Vec<String>>,
    pub custom_prompt: Option<String>,
    pub video_duration: Option<String>,
    pub video_resolution: Option<String>,
    pub video_aspect_ratio: Option<String>,
    pub video_shot_type: Option<String>,
    pub video_shot_size: Option<String>,
    pub video_angle: Option<String>,
    pub video_camera_movement: Option<String>,
    pub video_camera_speed: Option<String>,
    /// Whether the video is generated from a first and a last frame.
    pub is_video_frame: Option<bool>,
    /// `image` or `video`: which default template applies.
    pub prompt_type: Option<String>,
}

/// An optional slice read by its view.
pub open spec fn opt_str_view(o: Option<&str>) -> Option<Seq<char>> {
    match o {
        Some(s) => Some(s@),
        None => None,
    }
}

/// A preamble line for a parameter that is given and not empty.
pub open spec fn param_line(value: Option<Seq<char>>, before: Seq<char>, after: Seq<char>) -> Seq<Seq<char>> {
    match value {
        Some(v) => if v.len() > 0 {
            seq![before + v + after]
        } else {
            seq![]
        },
        None => seq![],
    }
}

/// The preamble lines for the chosen video parameters.
pub open spec fn video_param_lines(
    duration: Option<Seq<char>>,
    resolution: Option<Seq<char>>,
    aspect_ratio: Option<Seq<char>>,
    is_video_frame: bool,
) -> Seq<Seq<char>> {
    param_line(duration, "- 时长："@, "秒"@) + param_line(resolution, "- 分辨率："@, Seq::empty())
        + param_line(aspect_ratio, "- 画面宽高比："@, Seq::empty()) + if is_video_frame {
        seq![VIDEO_FRAME_LINE@]
    } else {
        seq![]
    }
}

/// Lines joined with `\n` between them.
pub open spec fn join_lines(lines: Seq<Seq<char>>) -> Seq<char>
    decreases lines.len(),
{
    if lines.len() == 0 {
        seq![]
    } else if lines.len() == 1 {
        lines[0]
    } else {
        join_lines(lines.drop_last()) + "\n"@ + lines.last()
    }
}

/// The video-parameter preamble: empty where no parameter is given, else the
/// title, one line per given parameter, and the closing line, joined by newlines.
pub open spec fn video_metadata_prefix(
    duration: Option<Seq<char>>,
    resolution: Option<Seq<char>>,
    aspect_ratio: Option<Seq<char>>,
    is_video_frame: bool,
) -> Seq<char> {
    let lines = video_param_lines(duration, resolution, aspect_ratio, is_video_frame);
    if lines.len() == 0 {
        seq![]
    } else {
        join_lines(seq![VIDEO_PARAMS_TITLE@] + lines + seq![VIDEO_PARAMS_FOOTER@])
    }
}

/// Adds the preamble line for a parameter that is given and not empty.
fn push_param_line(lines: &mut Vec<String>, value: Option<&str>, before: &str, after: &str)
    ensures
        views(final(lines)@) == views(old(lines)@) + param_line(opt_str_view(value), before@, after@),
{
    let ghost start = old(lines)@;
    match value {
        Some(v) => {
            if !v.is_empty() {
                lines.push(concat3(before, v, after));
                assert(views(lines@) =~= views(start) + seq![before@ + v@ + after@]);
            } else {
                assert(views(lines@) =~= views(start) + Seq::<Seq<char>>::empty());
            }
        },
        None => {
            assert(views(lines@) =~= views(start) + Seq::<Seq<char>>::empty());
        },
    }
}

/// The views of a list of strings.
pub open spec fn views(v: Seq<String>) -> Seq<Seq<char>> {
    v.map_values(|s: String| s@)
}

/// Lines joined with `\n` between them.
pub fn join_with_newlines(lines: &Vec<String>) -> (r: String)
    ensures
        r@ == join_lines(views(lines@)),
{
    let mut out = String::new();
    let mut i: usize = 0;
    while i < lines.len()
        invariant
            i <= lines@.len(),
            out@ == join_lines(views(lines@).take(i as int)),
        decreases lines@.len() - i,
    {
        assert(views(lines@).take(i + 1).drop_last() =~= views(lines@).take(i as int));
        if i > 0 {
            out.append("\n");
        }
        out.append(lines[i].as_str());
        i = i + 1;
    }
    assert(views(lines@).take(lines@.len() as int) =~= views(lines@));
    out
}

/// The preamble that tells the model which video parameters the user fixed:
/// empty where none is given.
pub fn build_video_metadata_prefix(
    duration: Option<&str>,
    resolution: Option<&str>,
    aspect_ratio: Option<&str>,
    is_video_frame: bool,
) -> (r: String)
    ensures
        r@ == video_metadata_prefix(
            opt_str_view(duration),
            opt_str_view(resolution),
            opt_str_view(aspect_ratio),
            is_video_frame,
        ),
{
    let mut params: Vec<String> = Vec::new();
    assert(views(params@) =~= Seq::<Seq<char>>::empty());
    push_param_line(&mut params, duration, "- 时长：", "秒");
    push_param_line(&mut params, resolution, "- 分辨率：", "");
    push_param_line(&mut params, aspect_ratio, "- 画面宽高比：", "");
    let ghost three = views(params@);
    assert(three =~= param_line(opt_str_view(duration), "- 时长："@, "秒"@) + param_line(
        opt_str_view(resolution),
        "- 分辨率："@,
        ""@,
    ) + param_line(opt_str_view(aspect_ratio), "- 画面宽高比："@, ""@));
    proof {
        reveal_strlit("");
    }
    assert(""@ =~= Seq::<char>::empty());
    if is_video_frame {
        params.push(owned(VIDEO_FRAME_LINE));
        assert(views(params@) =~= three + seq![VIDEO_FRAME_LINE@]);
    } else {
        assert(views(params@) =~= three + Seq::<Seq<char>>::empty());
    }
    let ghost items = video_param_lines(
        opt_str_view(duration),
        opt_str_view(resolution),
        opt_str_view(aspect_ratio),
        is_video_frame,
    );
    assert(views(params@) =~= items);
    if params.len() == 0 {
        return String::new();
    }
    let mut lines: Vec<String> = Vec::new();
    lines.push(owned(VIDEO_PARAMS_TITLE));
    lines.append(&mut params);
    lines.push(owned(VIDEO_PARAMS_FOOTER));
    assert(views(lines@) =~= seq![VIDEO_PARAMS_TITLE@] + items + seq![VIDEO_PARAMS_FOOTER@]);
    join_with_newlines(&lines)
}

} // verus!

verus! {

/// A chat message's image reference.
pub struct ImageUrl {
    pub url: String,
}

/// A part of a chat message with several parts.
pub struct ContentPart {
    pub part_type: String,
    pub text: Option<String>,
    pub image_url: Option<ImageUrl>,
}

/// A chat message's content: plain text, or several parts.
pub enum ChatContent {
    Text(String),
    Array(Vec<ContentPart>),
}

/// A chat message.
pub struct ChatMessage {
    pub role: String,
    pub content: ChatContent,
}

/// A chat-completions request body.
pub struct ChatRequest {
    pub model: String,
    pub messages: Vec<ChatMessage>,
    pub stream: Option<bool>,
}

/// A part of a responses-API input.
pub struct ResponsesInputContent {
    pub part_type: String,
    pub image_url: Option<String>,
    pub text: Option<String>,
}

/// One responses-API input.
pub struct ResponsesInput {
    pub role: String,
    pub content: Vec<ResponsesInputContent>,
}

/// A responses-API request body.
pub struct ResponsesRequest {
    pub model: String,
    pub input: Vec<ResponsesInput>,
}

/// A part of a message, read by its views: type, text, image URL.
pub struct PartView {
    pub part_type: Seq<char>,
    pub text: Option<Seq<char>>,
    pub image_url: Option<Seq<char>>,
}

/// A chat content read by its views.
pub enum ChatContentView {
    Text(Seq<char>),
    Array(Seq<PartView>),
}

/// A chat part read by its views.
pub open spec fn chat_part_view(p: ContentPart) -> PartView {
    PartView {
        part_type: p.part_type@,
        text: opt_view(p.text),
        image_url: match p.image_url {
            Some(u) => Some(u.url@),
            None => None,
        },
    }
}

/// A chat content read by its views.
pub open spec fn chat_content_view(c: ChatContent) -> ChatContentView {
    match c {
        ChatContent::Text(t) => ChatContentView::Text(t@),
        ChatContent::Array(parts) => ChatContentView::Array(parts@.map_values(|p: ContentPart| chat_part_view(p))),
    }
}

/// Chat messages read by their views: role and content.
pub open spec fn chat_messages_view(m: Seq<ChatMessage>) -> Seq<(Seq<char>, ChatContentView)> {
    m.map_values(|x: ChatMessage| (x.role@, chat_content_view(x.content)))
}

/// A responses part read by its views.
pub open spec fn responses_part_view(p: ResponsesInputContent) -> PartView {
    PartView { part_type: p.part_type@, text: opt_view(p.text), image_url: opt_view(p.image_url) }
}

/// Responses inputs read by their views: role and parts.
pub open spec fn responses_input_view(i: Seq<ResponsesInput>) -> Seq<(Seq<char>, Seq<PartView>)> {
    i.map_values(
        |x: ResponsesInput| (x.role@, x.content@.map_values(|p: ResponsesInputContent| responses_part_view(p))),
    )
}

/// The request names at least one reference image.
pub open spec fn has_reference(req: PolishTextRequest) -> bool {
    match req.reference_images {
        Some(v) => v@.len() > 0,
        None => false,
    }
}

/// The request's reference images (none where absent).
pub open spec fn references(req: PolishTextRequest) -> Seq<String> {
    match req.reference_images {
        Some(v) => v@,
        None => seq![],
    }
}

/// A base URL under `/api/v3` and not under `/coding` is served by the responses API.
pub open spec fn uses_responses_api(base_url: Seq<char>) -> bool {
    has_substring(base_url, "/api/v3"@) && !has_substring(base_url, "/coding"@)
}

/// The video-parameter preamble of a request.
pub open spec fn request_prefix(req: PolishTextRequest) -> Seq<char> {
    video_metadata_prefix(
        opt_view(req.video_duration),
        opt_view(req.video_resolution),
        opt_view(req.video_aspect_ratio),
        match req.is_video_frame {
            Some(b) => b,
            None => false,
        },
    )
}

/// The prompt to polish, after the preamble where there is one.
pub open spec fn enhanced_text(req: PolishTextRequest) -> Seq<char> {
    let p = request_prefix(req);
    if p.len() > 0 {
        p + "\n\n"@ + req.text@
    } else {
        req.text@
    }
}

/// The default template: the image template for `image` prompts, else the video one.
pub open spec fn default_template(req: PolishTextRequest) -> Seq<char> {
    if opt_view(req.prompt_type) == Some("image"@) {
        TEXT_POLISH_TEMPLATE@
    } else {
        VIDEO_POLISH_TEMPLATE@
    }
}

/// The user's own template, where it is not blank.
pub open spec fn custom_template(req: PolishTextRequest) -> Option<Seq<char>> {
    match req.custom_prompt {
        Some(c) => if trim_ws(c@).len() > 0 {
            Some(c@)
        } else {
            None
        },
        None => None,
    }
}

/// The instruction that asks for the prompt to be polished, mentioning the
/// references where the user's template does not.
pub open spec fn polish_instruction(req: PolishTextRequest) -> Seq<char> {
    let e = enhanced_text(req);
    if has_reference(req) {
        if custom_template(req) is Some {
            "请润色这个提示词："@ + e + "\n\n参考图片已提供。"@
        } else {
            "请根据参考图片润色这个提示词："@ + e + "\n\n参考图片已提供。"@
        }
    } else {
        "请润色这个提示词："@ + e
    }
}

/// The responses-API user text: the template (the user's own where given), a
/// blank line, and the instruction.
pub open spec fn responses_user_text(req: PolishTextRequest) -> Seq<char> {
    let template = match custom_template(req) {
        Some(c) => c,
        None => default_template(req),
    };
    template + "\n\n"@ + polish_instruction(req)
}

/// The chat system prompt: the user's template trimmed, else the default template.
pub open spec fn chat_system_text(req: PolishTextRequest) -> Seq<char> {
    match custom_template(req) {
        Some(c) => trim_ws(c),
        None => default_template(req),
    }
}

/// A reference that a chat request can carry: an HTTP(S) URL or a data URL.
pub open spec fn is_chat_image(url: Seq<char>) -> bool {
    "http://"@.is_prefix_of(url) || "https://"@.is_prefix_of(url) || "data:"@.is_prefix_of(url)
}

/// The image parts of a chat request, in order.
pub open spec fn chat_image_parts(refs: Seq<String>) -> Seq<PartView>
    decreases refs.len(),
{
    if refs.len() == 0 {
        seq![]
    } else {
        let rest = chat_image_parts(refs.drop_last());
        if is_chat_image(refs.last()@) {
            rest.push(PartView { part_type: "image_url"@, text: None, image_url: Some(refs.last()@) })
        } else {
            rest
        }
    }
}

/// The image parts of a responses request, in order.
pub open spec fn responses_image_parts(refs: Seq<String>) -> Seq<PartView> {
    refs.map_values(|r: String| PartView { part_type: "input_image"@, text: None, image_url: Some(r@) })
}

/// The endpoint under a base URL, trailing slashes of the base removed.
pub open spec fn endpoint_under(base_url: Seq<char>, path: Seq<char>) -> Seq<char> {
    strip_trailing_char(base_url, '/') + path
}

/// What is sent to polish a prompt.
pub enum PolishBody {
    Responses(ResponsesRequest),
    Chat(ChatRequest),
}

/// Where and what to send to polish a prompt.
pub struct PolishPlan {
    pub endpoint: String,
    pub body: PolishBody,
}

/// The responses body for a request, as the plan must hold it.
pub open spec fn is_responses_body(req: PolishTextRequest, body: ResponsesRequest) -> bool {
    &&& body.model@ == req.model@
    &&& responses_input_view(body.input@) == seq![
        (
            "user"@,
            (if has_reference(req) {
                responses_image_parts(references(req))
            } else {
                seq![]
            }) + seq![PartView { part_type: "input_text"@, text: Some(responses_user_text(req)), image_url: None }],
        ),
    ]
}

/// The chat body for a request, as the plan must hold it.
pub open spec fn is_chat_body(req: PolishTextRequest, body: ChatRequest) -> bool {
    let user = if has_reference(req) {
        ChatContentView::Array(
            chat_image_parts(references(req)) + seq![
                PartView { part_type: "text"@, text: Some(polish_instruction(req)), image_url: None },
            ],
        )
    } else {
        ChatContentView::Text(polish_instruction(req))
    };
    &&& body.model@ == req.model@
    &&& body.stream == Some(false)
    &&& chat_messages_view(body.messages@) == seq![
        ("system"@, ChatContentView::Text(chat_system_text(req))),
        ("user"@, user),
    ]
}

/// The plan to polish a prompt: a responses-API request for responses base URLs,
/// else a chat-completions request.
pub open spec fn is_polish_plan(req: PolishTextRequest, plan: PolishPlan) -> bool {
    if uses_responses_api(req.base_url@) {
        &&& plan.endpoint@ == endpoint_under(req.base_url@, "/responses"@)
        &&& plan.body matches PolishBody::Responses(b) && is_responses_body(req, b)
    } else {
        &&& plan.endpoint@ == endpoint_under(req.base_url@, "/v3/chat/completions"@)
        &&& plan.body matches PolishBody::Chat(b) && is_chat_body(req, b)
    }
}

} // verus!

verus! {

fn as_opt_str(o: &Option<String>) -> (r: Option<&str>)
    ensures
        opt_str_view(r) == opt_view(*o),
{
    match o {
        Some(s) => Some(s.as_str()),
        None => None,
    }
}

/// Whether the request names at least one reference image.
pub fn request_has_reference(req: &PolishTextRequest) -> (r: bool)
    ensures
        r == has_reference(*req),
{
    match &req.reference_images {
        Some(v) => v.len() > 0,
        None => false,
    }
}

/// Whether a base URL is served by the responses API.
pub fn is_responses_api(base_url: &str) -> (r: bool)
    ensures
        r == uses_responses_api(base_url@),
{
    contains_str(base_url, "/api/v3") && !contains_str(base_url, "/coding")
}

/// The prompt to polish, after the request's video-parameter preamble where it has one.
pub fn enhanced_prompt(req: &PolishTextRequest) -> (r: String)
    ensures
        r@ == enhanced_text(*req),
{
    let is_frame = match req.is_video_frame {
        Some(b) => b,
        None => false,
    };
    let prefix = build_video_metadata_prefix(
        as_opt_str(&req.video_duration),
        as_opt_str(&req.video_resolution),
        as_opt_str(&req.video_aspect_ratio),
        is_frame,
    );
    if !prefix.as_str().is_empty() {
        concat3(prefix.as_str(), "\n\n", req.text.as_str())
    } else {
        req.text.clone()
    }
}

/// The default template for the request's prompt type.
pub fn default_template_for(req: &PolishTextRequest) -> (r: &'static str)
    ensures
        r@ == default_template(*req),
{
    match &req.prompt_type {
        Some(p) => if str_eq(p.as_str(), "image") {
            TEXT_POLISH_TEMPLATE
        } else {
            VIDEO_POLISH_TEMPLATE
        },
        None => VIDEO_POLISH_TEMPLATE,
    }
}

/// The user's own template where it is not blank, with its trimmed form.
fn custom_template_of(req: &PolishTextRequest) -> (r: Option<(String, String)>)
    ensures
        match r {
            Some(p) => custom_template(*req) == Some(p.0@) && p.1@ == trim_ws(p.0@),
            None => custom_template(*req) is None,
        },
{
    match &req.custom_prompt {
        Some(c) => {
            let t = trim(c.as_str());
            if t.as_str().is_empty() {
                None
            } else {
                Some((c.clone(), t))
            }
        },
        None => None,
    }
}

/// The instruction that asks for the prompt to be polished.
fn instruction_for(has_ref: bool, has_custom: bool, enhanced: &str) -> (r: String)
    ensures
        r@ == (if has_ref {
            if has_custom {
                "请润色这个提示词："@ + enhanced@ + "\n\n参考图片已提供。"@
            } else {
                "请根据参考图片润色这个提示词："@ + enhanced@ + "\n\n参考图片已提供。"@
            }
        } else {
            "请润色这个提示词："@ + enhanced@
        }),
{
    if has_ref {
        if has_custom {
            concat3("请润色这个提示词：", enhanced, "\n\n参考图片已提供。")
        } else {
            concat3("请根据参考图片润色这个提示词：", enhanced, "\n\n参考图片已提供。")
        }
    } else {
        concat2("请润色这个提示词：", enhanced)
    }
}

/// The responses-API parts for the reference images.
fn responses_images(refs: &Vec<String>) -> (r: Vec<ResponsesInputContent>)
    ensures
        r@.map_values(|p: ResponsesInputContent| responses_part_view(p)) == responses_image_parts(refs@),
{
    let mut out: Vec<ResponsesInputContent> = Vec::new();
    let mut i: usize = 0;
    while i < refs.len()
        invariant
            i <= refs@.len(),
            out@.len() == i,
            out@.map_values(|p: ResponsesInputContent| responses_part_view(p)) == responses_image_parts(
                refs@.take(i as int),
            ),
        decreases refs@.len() - i,
    {
        let ghost prev = out@;
        out.push(
            ResponsesInputContent {
                part_type: owned("input_image"),
                image_url: Some(refs[i].clone()),
                text: None,
            },
        );
        assert forall|j: int| 0 <= j < i implies responses_part_view(#[trigger] out@[j])
            == responses_image_parts(refs@.take(i + 1))[j] by {
            assert(out@[j] == prev[j]);
            assert(responses_part_view(prev[j]) == responses_image_parts(refs@.take(i as int))[j]);
        }
        assert(out@.map_values(|p: ResponsesInputContent| responses_part_view(p)) =~= responses_image_parts(
            refs@.take(i + 1),
        ));
        i = i + 1;
    }
    assert(refs@.take(refs@.len() as int) =~= refs@);
    out
}

/// The chat parts for the reference images that are URLs or data URLs.
fn chat_images(refs: &Vec<String>) -> (r: Vec<ContentPart>)
    ensures
        r@.map_values(|p: ContentPart| chat_part_view(p)) == chat_image_parts(refs@),
{
    proof {
        reveal_strlit("http://");
        reveal_strlit("https://");
        reveal_strlit("data:");
    }
    let mut out: Vec<ContentPart> = Vec::new();
    let mut i: usize = 0;
    while i < refs.len()
        invariant
            i <= refs@.len(),
            out@.map_values(|p: ContentPart| chat_part_view(p)) == chat_image_parts(refs@.take(i as int)),
        decreases refs@.len() - i,
    {
        let url = refs[i].as_str();
        assert(refs@.take(i + 1).drop_last() =~= refs@.take(i as int));
        if starts_with(url, "http://") || starts_with(url, "https://") || starts_with(url, "data:") {
            out.push(
                ContentPart {
                    part_type: owned("image_url"),
                    text: None,
                    image_url: Some(ImageUrl { url: refs[i].clone() }),
                },
            );
        }
        assert(out@.map_values(|p: ContentPart| chat_part_view(p)) =~= chat_image_parts(refs@.take(i + 1)));
        i = i + 1;
    }
    assert(refs@.take(refs@.len() as int) =~= refs@);
    out
}

/// What to send to polish a prompt: to `<base>/responses` in the responses-API
/// form for responses base URLs, else to `<base>/v3/chat/completions` as a chat
/// with a system prompt and a user message (with the usable reference images).
pub fn plan_polish(req: &PolishTextRequest) -> (r: PolishPlan)
    ensures
        is_polish_plan(*req, r),
{
    let has_ref = request_has_reference(req);
    let enhanced = enhanced_prompt(req);
    let custom = custom_template_of(req);
    let has_custom = custom.is_some();
    let instruction = instruction_for(has_ref, has_custom, enhanced.as_str());
    let base = trim_end_matches_char(req.base_url.as_str(), '/');
    let no_refs: Vec<String> = Vec::new();
    let refs = match &req.reference_images {
        Some(v) => v,
        None => &no_refs,
    };
    assert(refs@ == references(*req));
    if is_responses_api(req.base_url.as_str()) {
        let template = match &custom {
            Some(c) => c.0.clone(),
            None => owned(default_template_for(req)),
        };
        let user_text = concat3(template.as_str(), "\n\n", instruction.as_str());
        let mut parts = if has_ref {
            responses_images(refs)
        } else {
            Vec::new()
        };
        let ghost images = parts@.map_values(|p: ResponsesInputContent| responses_part_view(p));
        parts.push(ResponsesInputContent { part_type: owned("input_text"), image_url: None, text: Some(user_text) });
        assert(parts@.map_values(|p: ResponsesInputContent| responses_part_view(p)) =~= images + seq![
            PartView { part_type: "input_text"@, text: Some(responses_user_text(*req)), image_url: None },
        ]);
        let mut input: Vec<ResponsesInput> = Vec::new();
        input.push(ResponsesInput { role: owned("user"), content: parts });
        let body = ResponsesRequest { model: req.model.clone(), input };
        assert(responses_input_view(body.input@) =~= seq![
            (
                "user"@,
                (if has_reference(*req) {
                    responses_image_parts(references(*req))
                } else {
                    seq![]
                }) + seq![PartView { part_type: "input_text"@, text: Some(responses_user_text(*req)), image_url: None }],
            ),
        ]);
        assert(user_text@ == responses_user_text(*req));
        assert(is_responses_body(*req, body));
        PolishPlan { endpoint: concat2(base.as_str(), "/responses"), body: PolishBody::Responses(body) }
    } else {
        let system_text = match &custom {
            Some(c) => c.1.clone(),
            None => owned(default_template_for(req)),
        };
        let user = if has_ref {
            let mut parts = chat_images(refs);
            let ghost images = parts@.map_values(|p: ContentPart| chat_part_view(p));
            parts.push(ContentPart { part_type: owned("text"), text: Some(instruction), image_url: None });
            assert(parts@.map_values(|p: ContentPart| chat_part_view(p)) =~= images + seq![
                PartView { part_type: "text"@, text: Some(polish_instruction(*req)), image_url: None },
            ]);
            ChatContent::Array(parts)
        } else {
            ChatContent::Text(instruction)
        };
        let mut messages: Vec<ChatMessage> = Vec::new();
        messages.push(ChatMessage { role: owned("system"), content: ChatContent::Text(system_text) });
        messages.push(ChatMessage { role: owned("user"), content: user });
        let body = ChatRequest { model: req.model.clone(), messages, stream: Some(false) };
        let ghost user_view = if has_reference(*req) {
            ChatContentView::Array(
                chat_image_parts(references(*req)) + seq![
                    PartView { part_type: "text"@, text: Some(polish_instruction(*req)), image_url: None },
                ],
            )
        } else {
            ChatContentView::Text(polish_instruction(*req))
        };
        assert(chat_content_view(body.messages@[1].content) == user_view);
        assert(chat_messages_view(body.messages@) =~= seq![
            ("system"@, ChatContentView::Text(chat_system_text(*req))),
            ("user"@, user_view),
        ]);
        assert(is_chat_body(*req, body));
        PolishPlan { endpoint: concat2(base.as_str(), "/v3/chat/completions"), body: PolishBody::Chat(body) }
    }
}

} // verus!

verus! {

/// A responses-API reply (only the fields that are read).
pub struct ResponsesResponse {
    pub output: Option<ResponsesOutput>,
}

/// The `output` of a responses-API reply.
pub struct ResponsesOutput {
    pub choices: Option<Vec<ResponsesChoice>>,
}

/// One choice of a responses-API reply.
pub struct ResponsesChoice {
    pub message: Option<ResponsesMessage>,
}

/// The message of a responses-API choice.
pub struct ResponsesMessage {
    pub content: Option<String>,
}

/// A chat-completions reply (only the fields that are read).
pub struct ChatResponse {
    pub choices: Option<Vec<Choice>>,
}

/// One choice of a chat-completions reply.
pub struct Choice {
    pub message: Option<ResponseMessage>,
}

/// The message of a chat-completions choice.
pub struct ResponseMessage {
    pub content: Option<String>,
}

/// The text of the first choice's message in a responses-API reply.
pub open spec fn responses_reply_text(resp: ResponsesResponse) -> Option<Seq<char>> {
    match resp.output {
        Some(o) => match o.choices {
            Some(cs) => if cs@.len() > 0 {
                match cs@[0].message {
                    Some(m) => opt_view(m.content),
                    None => None,
                }
            } else {
                None
            },
            None => None,
        },
        None => None,
    }
}

/// The text of the first choice's message in a chat-completions reply.
pub open spec fn chat_reply_text(resp: ChatResponse) -> Option<Seq<char>> {
    match resp.choices {
        Some(cs) => if cs@.len() > 0 {
            match cs@[0].message {
                Some(m) => opt_view(m.content),
                None => None,
            }
        } else {
            None
        },
        None => None,
    }
}

/// The answer when the reply carries no text.
pub open spec fn empty_reply_message() -> Seq<char> {
    "API返回内容为空"@
}

/// A text read as the polished prompt, or the empty-reply refusal.
pub open spec fn reply_outcome(text: Option<Seq<char>>) -> Result<Seq<char>, Seq<char>> {
    match text {
        Some(t) => Ok(t),
        None => Err(empty_reply_message()),
    }
}

/// A string result read by its views.
pub open spec fn string_result(r: Result<String, String>) -> Result<Seq<char>, Seq<char>> {
    match r {
        Ok(s) => Ok(s@),
        Err(e) => Err(e@),
    }
}

fn clone_content(c: &Option<String>) -> (r: Option<String>)
    ensures
        opt_view(r) == opt_view(*c),
{
    match c {
        Some(s) => Some(s.clone()),
        None => None,
    }
}

/// The polished prompt in a responses-API reply: its first choice's message.
pub fn responses_reply(resp: &ResponsesResponse) -> (r: Result<String, String>)
    ensures
        string_result(r) == reply_outcome(responses_reply_text(*resp)),
{
    let text = match &resp.output {
        Some(o) => match &o.choices {
            Some(cs) => if cs.len() > 0 {
                match &cs[0].message {
                    Some(m) => clone_content(&m.content),
                    None => None,
                }
            } else {
                None
            },
            None => None,
        },
        None => None,
    };
    match text {
        Some(t) => Ok(t),
        None => Err(owned("API返回内容为空")),
    }
}

/// The polished prompt in a chat-completions reply: its first choice's message.
pub fn chat_reply(resp: &ChatResponse) -> (r: Result<String, String>)
    ensures
        string_result(r) == reply_outcome(chat_reply_text(*resp)),
{
    let text = match &resp.choices {
        Some(cs) => if cs.len() > 0 {
            match &cs[0].message {
                Some(m) => clone_content(&m.content),
                None => None,
            }
        } else {
            None
        },
        None => None,
    };
    match text {
        Some(t) => Ok(t),
        None => Err(owned("API返回内容为空")),
    }
}

/// The answer to a text-API test: the reply's text after a success notice.
pub fn test_reply(resp: &ChatResponse) -> (r: Result<String, String>)
    ensures
        string_result(r) == match chat_reply_text(*resp) {
            Some(t) => Ok::<Seq<char>, Seq<char>>("API连接成功！测试回复: "@ + t),
            None => Err(empty_reply_message()),
        },
{
    match chat_reply(resp) {
        Ok(t) => Ok(concat2("API连接成功！测试回复: ", t.as_str())),
        Err(e) => Err(e),
    }
}

/// The explanation of a failure status.
pub open spec fn status_detail(code: u16) -> Seq<char> {
    if code >= 500 {
        "服务器内部错误，请稍后重试"@
    } else if code == 401 {
        "API密钥无效或已过期"@
    } else if code == 403 {
        "API访问被拒绝，请检查密钥权限"@
    } else if code == 429 {
        "请求过于频繁，请稍后重试"@
    } else {
        "请求参数有误"@
    }
}

/// The explanation of a failure status: server errors, an invalid key, a refused
/// key, too many requests, or otherwise a bad request.
pub fn status_detail_text(code: u16) -> (r: &'static str)
    ensures
        r@ == status_detail(code),
{
    if code >= 500 {
        "服务器内部错误，请稍后重试"
    } else if code == 401 {
        "API密钥无效或已过期"
    } else if code == 403 {
        "API访问被拒绝，请检查密钥权限"
    } else if code == 429 {
        "请求过于频繁，请稍后重试"
    } else {
        "请求参数有误"
    }
}

/// The error for a text-API call answered with a failure status; `status` is the
/// status as displayed (code and reason) and `body` the reply's text.
pub fn api_error_message(code: u16, status: &str, body: &str) -> (r: String)
    ensures
        r@ == "API调用失败 ["@ + status@ + "]: "@ + status_detail(code) + " | 错误详情: "@ + body@,
{
    let mut m = concat3("API调用失败 [", status, "]: ");
    m.append(status_detail_text(code));
    m.append(" | 错误详情: ");
    m.append(body);
    m
}

/// The error for a request that could not be sent.
pub fn network_error_message(error: &str) -> (r: String)
    ensures
        r@ == "网络请求失败，请检查网络连接: "@ + error@,
{
    concat2("网络请求失败，请检查网络连接: ", error)
}

/// The error for a reply that is not the expected JSON.
pub fn parse_error_message(error: &str) -> (r: String)
    ensures
        r@ == "响应格式解析失败: "@ + error@,
{
    concat2("响应格式解析失败: ", error)
}

/// The question a text-API test asks.
pub const TEST_QUESTION: &'static str = "你是什么模型？请简单介绍一下你自己。";

/// What to send to test a text API: the test question, as a chat-completions
/// request to `<base>/v3/chat/completions`.
pub fn plan_text_api_test(req: &PolishTextRequest) -> (r: (String, ChatRequest))
    ensures
        r.0@ == endpoint_under(req.base_url@, "/v3/chat/completions"@),
        r.1.model@ == req.model@,
        r.1.stream == Some(false),
        chat_messages_view(r.1.messages@) == seq![("user"@, ChatContentView::Text(TEST_QUESTION@))],
{
    let base = trim_end_matches_char(req.base_url.as_str(), '/');
    let mut messages: Vec<ChatMessage> = Vec::new();
    messages.push(ChatMessage { role: owned("user"), content: ChatContent::Text(owned(TEST_QUESTION)) });
    assert(chat_messages_view(messages@) =~= seq![("user"@, ChatContentView::Text(TEST_QUESTION@))]);
    (
        concat2(base.as_str(), "/v3/chat/completions"),
        ChatRequest { model: req.model.clone(), messages, stream: Some(false) },
    )
}

} // verus!

verus! {

/// The `Authorization` header value for a text-API key.
pub fn authorization_header(api_key: &str) -> (r: String)
    ensures
        r@ == "Bearer "@ + api_key@,
{
    concat2("Bearer ", api_key)
}

} // verus!
