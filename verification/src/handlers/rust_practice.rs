//! Rust practice material written by an AI model (Gemini or Kilo.ai), and
//! the topics saved from it.
use vstd::prelude::*;
use crate::error::{bad_request, is_bad_request, AppError};
use crate::ids::{parse_uuid, uuid_parse, uuid_text, uuid_to_string};
use crate::models::rust_practice_topic;
use crate::services::auth::AuthUser;
use crate::text::{
    concat3, lowercase, same_text, to_chars, to_lowercase, trim, trim_chars, trim_end_matches_chars,
    trim_end_matches_seq, trim_seq, trim_start_matches_chars, trim_start_matches_seq, from_chars,
    trimmed_non_empty, is_blank, is_ascii_text, ascii_lower,
};

verus! {

/// The text of the study-mode prompt before the topic.
pub const STUDY_PROMPT_HEAD: &'static str = r#"คุณเป็นผู้เชี่ยวชาญภาษา Rust และผู้เขียนสื่อการสอนระดับมืออาชีพ
งาน: สร้าง "ข้อมูลสำหรับอ่านศึกษา" ที่ละเอียดและครบถ้วน สำหรับหัวข้อ Rust ต่อไปนี้

หัวข้อ: "#;

/// The text of the study-mode prompt after the topic.
pub const STUDY_PROMPT_TAIL: &'static str = r#"

คำแนะนำในการเขียน:
- อธิบายให้ครบ: แนวคิดหลัก กฎที่ต้องจำ วิธีใช้ และข้อควรระวัง
- ใช้ bullet หรือหัวข้อย่อยให้อ่านง่าย ใช้ \n แยกบรรทัด
- ถ้ามี syntax หรือ pattern สำคัญ ให้อธิบายพร้อมตัวอย่างสั้นๆ ใน content
- ใน "code" ให้ใส่ตัวอย่างโค้ด Rust ที่สมบูรณ์ ถูก syntax และสาธิตการใช้งานหัวข้อนี้ได้ชัดเจน (ถ้าหัวข้อเหมาะสมมีโค้ด) ถ้าเป็นแนวคิดทั่วไปมากไม่มีตัวอย่างเฉพาะให้ใช้ null

ส่งคำตอบเป็น JSON เท่านั้น (ไม่มี markdown ไม่มี ```) รูปแบบนี้:
{ "title": "หัวข้อเรื่อง...", "content": "เนื้อหาอธิบายที่ละเอียด ครบถ้วน มีหลายย่อหน้าหรือ bullet ได้", "code": "ตัวอย่างโค้ด Rust ที่สมบูรณ์ หรือ null" }"#;

/// The text of the four-step prompt before the topic.
pub const FULL_PROMPT_HEAD: &'static str = r#"คุณเป็นผู้เชี่ยวชาญภาษา Rust และผู้เขียนโจทย์ฝึกหัดระดับมืออาชีพ
งาน: สร้างโจทย์ฝึกภาษา Rust แบบ 4 ขั้น ที่เนื้อหามากและครบถ้วน สำหรับหัวข้อต่อไปนี้

หัวข้อ: "#;

/// The text of the four-step prompt after the topic.
pub const FULL_PROMPT_TAIL: &'static str = r#"

คำแนะนำสำหรับแต่ละขั้น:
- step1 (อ่านศึกษา): "content" ต้องอธิบายหัวข้ออย่างละเอียด ครบแนวคิด ใช้ \n แยกบรรทัด มี bullet ได้ "code" ต้องเป็นตัวอย่างโค้ดที่สมบูรณ์ ถูก syntax และสาธิตการใช้งานได้ชัดเจน
- step2 (พิมพ์ตามตัวอย่าง): "code" ต้องเป็นโค้ดสมบูรณ์ที่ผู้เรียนพิมพ์ตามได้ (มี fn main() หรือครบส่วนที่จำเป็น)
- step3 (พิมพ์ตามช่องว่าง): ใช้ ___ แทนเฉพาะคำหรือ expression ที่ผู้เรียนต้องเติม "code_with_blanks" กับ "solution" ต้องตรงกัน (solution คือ code_with_blanks ที่เติม ___ ครบแล้ว)
- step4 (พิมพ์เองเลย): "task" ต้องเป็นโจทย์ที่ชัดเจน มีเงื่อนไขครบ "solution" ต้องเป็นโค้ดสมบูรณ์ที่แก้โจทย์ได้ "hint" ให้คำใบ้ที่ไม่เปิดเผยคำตอบจนเกินไป

ส่งคำตอบเป็น JSON เท่านั้น (ไม่มี markdown ไม่มี ```) ทุก field ต้องมีและเนื้อหาต้องครบถ้วน:

{
  "step1": { "title": "หัวข้ออ่านศึกษา", "content": "อธิบายละเอียด ครบแนวคิด มี bullet/ย่อหน้า", "code": "ตัวอย่างโค้ด Rust สมบูรณ์" },
  "step2": { "title": "พิมพ์ตามตัวอย่าง", "description": "อธิบายว่าต้องพิมพ์โค้ดด้านล่างให้ตรงกับตัวอย่าง", "code": "โค้ดตัวอย่างสมบูรณ์มี fn main() หรือครบ" },
  "step3": { "title": "พิมพ์ตามช่องว่าง", "description": "เติมคำในช่อง ___ ให้ถูกต้อง", "code_with_blanks": "โค้ดที่ใส่ ___ แทนคำที่ต้องเติม", "solution": "โค้ดที่เติม ___ ครบแล้ว" },
  "step4": { "title": "พิมพ์เองเลย", "task": "โจทย์ที่ชัดเจน ครบเงื่อนไข", "hint": "คำใบ้หรือ null", "solution": "โค้ดสมบูรณ์ที่แก้โจทย์" }
}

ข้อสำคัญ: โค้ด Rust ทุกที่ต้องเขียนถูก syntax ใช้ ___ เท่านั้นใน step3 สำหรับช่องว่าง"#;

/// The Gemini API's model endpoint.
pub const GEMINI_BASE: &'static str = "https://generativelanguage.googleapis.com/v1beta/models";

/// The Gemini model used where none is chosen.
pub const GEMINI_MODEL_DEFAULT: &'static str = "gemini-2.0-flash";

/// Kilo.ai's chat completion endpoint.
pub const KILO_CHAT_URL: &'static str = "https://api.kilo.ai/api/gateway/chat/completions";

/// Kilo.ai's model list.
pub const KILO_MODELS_URL: &'static str = "https://api.kilo.ai/api/gateway/models";

/// Refusal of a Kilo request when neither the request nor the server
/// chooses a model.
pub const KILO_MODEL_MISSING: &'static str = "Kilo model not set: send x-ai-model or set KILO_MODEL";

/// Refusal of an empty topic.
pub const TOPIC_MISSING: &'static str = "กรุณาระบุหัวข้อ (topic)";

/// Refusal of a Kilo request without a key.
pub const KILO_KEY_MISSING: &'static str = "เมื่อใช้ Kilo กรุณากรอก API Key ในหน้าตั้งค่า (AI Provider = Kilo)";

/// Refusal of a blank Kilo key.
pub const KILO_KEY_BLANK: &'static str = "กรุณากรอก Kilo API Key ในหน้าตั้งค่า";

/// Refusal of a Gemini request without a key.
pub const GEMINI_KEY_MISSING: &'static str = "กรุณาตั้งค่า GEMINI_API_KEY ในเซิร์ฟเวอร์ หรือกรอก API Key ในหน้าตั้งค่า";

/// The start of the message for a reply that is not the JSON asked for.
pub const PARSE_FAILURE_HEAD: &'static str = "ไม่สามารถ parse คำตอบจาก AI: ";

/// The end of that message in study mode.
pub const PARSE_FAILURE_STUDY_TAIL: &'static str = " (คำตอบอาจถูกตัดกลางทาง ลองกดสร้างใหม่อีกครั้ง)";

/// The end of that message in four-step mode.
pub const PARSE_FAILURE_FULL_TAIL: &'static str = " (คำตอบอาจถูกตัดกลางทาง ลองกดสร้างใหม่อีกครั้ง หรือเลือกโหมด Study เพื่อสร้างเฉพาะขั้นที่ 1)";

/// What to write: four practice steps, or study notes alone.
#[derive(Debug, Clone, Copy, PartialEq, Eq)]
pub enum GenerateMode {
    Full,
    Study,
}

impl Default for GenerateMode {
    fn default() -> (r: Self)
        ensures
            r == GenerateMode::Full,
    {
        GenerateMode::Full
    }
}

/// A topic to write material for.
#[derive(Debug, PartialEq, Eq)]
pub struct GenerateRequest {
    pub topic: String,
    pub mode: GenerateMode,
}

/// Step 1: reading.
#[derive(Debug, PartialEq, Eq)]
pub struct Step1Payload {
    pub title: String,
    pub content: String,
    pub code: Option<String>,
}

/// Step 2: typing along with an example.
#[derive(Debug, PartialEq, Eq)]
pub struct Step2Payload {
    pub title: String,
    pub description: String,
    pub code: String,
}

/// Step 3: filling in the blanks.
#[derive(Debug, PartialEq, Eq)]
pub struct Step3Payload {
    pub title: String,
    pub description: String,
    pub code_with_blanks: String,
    pub solution: String,
}

/// Step 4: writing it alone.
#[derive(Debug, PartialEq, Eq)]
pub struct Step4Payload {
    pub title: String,
    pub task: String,
    pub hint: Option<String>,
    pub solution: String,
}

/// The material written for a topic.
#[derive(Debug, PartialEq, Eq)]
pub struct GenerateResponse {
    pub ok: bool,
    pub step1: Option<Step1Payload>,
    pub step2: Option<Step2Payload>,
    pub step3: Option<Step3Payload>,
    pub step4: Option<Step4Payload>,
    pub error: Option<String>,
}

/// A saved topic as the client sees it.
#[derive(Debug, PartialEq, Eq)]
pub struct TopicResponse {
    pub id: String,
    pub title: String,
    pub s1_title: String,
    pub s1_content: String,
    pub s1_code: Option<String>,
    pub s2_title: String,
    pub s2_description: String,
    pub s2_code: String,
    pub s3_title: String,
    pub s3_description: String,
    pub s3_code_with_blanks: String,
    pub s3_solution: String,
    pub s4_title: String,
    pub s4_task: String,
    pub s4_hint: Option<String>,
    pub s4_solution: String,
    pub created_at: String,
}

/// A topic to save, with its four steps.
#[derive(Debug, PartialEq, Eq)]
pub struct SaveTopicRequest {
    pub title: String,
    pub step1: Step1Payload,
    pub step2: Step2Payload,
    pub step3: Step3Payload,
    pub step4: Step4Payload,
}

/// The headers that choose and configure the model, each as sent where it
/// is visible ASCII.
#[derive(Debug, PartialEq, Eq)]
pub struct AiHeaders {
    /// `x-ai-provider`
    pub provider: Option<String>,
    /// `x-ai-api-key`
    pub api_key: Option<String>,
    /// `x-kilo-api-key`
    pub kilo_api_key: Option<String>,
    /// `x-ai-model`
    pub model: Option<String>,
    /// `x-gemini-api-key`
    pub gemini_api_key: Option<String>,
    /// `x-gemini-model`
    pub gemini_model: Option<String>,
}

/// The model call a request makes.
#[derive(Debug, PartialEq, Eq)]
pub enum AiCall {
    /// A chat completion at Kilo.ai with this key and model.
    Kilo { prompt: String, key: String, model: String },
    /// A Gemini `generateContent` request to this address.
    Gemini { prompt: String, url: String },
}

/// The prompt for a topic: the template of the mode around the trimmed topic.
pub open spec fn prompt_text(topic: Seq<char>, mode: GenerateMode) -> Seq<char> {
    match mode {
        GenerateMode::Study => STUDY_PROMPT_HEAD@ + trim_seq(topic) + STUDY_PROMPT_TAIL@,
        GenerateMode::Full => FULL_PROMPT_HEAD@ + trim_seq(topic) + FULL_PROMPT_TAIL@,
    }
}

/// A header's value, trimmed; none where it is missing or blank.
pub open spec fn header_text(v: Option<String>) -> Option<Seq<char>> {
    match v {
        Some(s) => if trim_seq(s@).len() > 0 {
            Some(trim_seq(s@))
        } else {
            None
        },
        None => None,
    }
}

/// The provider asked for, Gemini by default.
pub open spec fn provider_text(h: AiHeaders) -> Seq<char> {
    match header_text(h.provider) {
        Some(p) => p,
        None => "gemini"@,
    }
}

/// Whether the request goes to Kilo.ai: the provider is `kilo` in any case.
pub open spec fn uses_kilo(h: AiHeaders) -> bool {
    lowercase(provider_text(h)) == "kilo"@
}

/// The Kilo key: `x-ai-api-key`, else `x-kilo-api-key`.
pub open spec fn kilo_key_text(h: AiHeaders) -> Option<Seq<char>> {
    match header_text(h.api_key) {
        Some(k) => Some(k),
        None => header_text(h.kilo_api_key),
    }
}

/// The Kilo model: `x-ai-model`, else the server's `KILO_MODEL`.
pub open spec fn kilo_model_text(h: AiHeaders, config_kilo_model: Option<String>) -> Option<Seq<char>> {
    match header_text(h.model) {
        Some(m) => Some(m),
        None => match config_kilo_model {
            Some(m) => Some(m@),
            None => None,
        },
    }
}

/// A Gemini override, as sent, where it is not blank.
pub open spec fn usable_override(o: Option<String>) -> Option<Seq<char>> {
    match o {
        Some(s) => if trim_seq(s@).len() > 0 {
            Some(s@)
        } else {
            None
        },
        None => None,
    }
}

/// The Gemini key: the header's where usable, else the server's.
pub open spec fn gemini_key_text(h: AiHeaders, config_key: Option<String>) -> Option<Seq<char>> {
    match usable_override(h.gemini_api_key) {
        Some(k) => Some(k),
        None => match config_key {
            Some(k) => Some(k@),
            None => None,
        },
    }
}

/// The Gemini model: the header's where usable, else the server's, else the default.
pub open spec fn gemini_model_text(h: AiHeaders, config_model: Option<String>) -> Seq<char> {
    match usable_override(h.gemini_model) {
        Some(m) => m,
        None => match config_model {
            Some(m) => m@,
            None => GEMINI_MODEL_DEFAULT@,
        },
    }
}

/// The Gemini request address for a model and key.
pub open spec fn gemini_url_text(model: Seq<char>, key: Seq<char>) -> Seq<char> {
    GEMINI_BASE@ + "/"@ + model + ":generateContent?key="@ + key
}

/// The JSON part of a model's reply: trimmed, without a leading ```` ```json ````
/// or ```` ``` ```` fence or a trailing ```` ``` ```` fence, trimmed again.
pub open spec fn ai_json_text(raw: Seq<char>) -> Seq<char> {
    let fence = seq!['`', '`', '`'];
    let json_fence = seq!['`', '`', '`', 'j', 's', 'o', 'n'];
    trim_seq(
        trim_end_matches_seq(
            trim_start_matches_seq(trim_start_matches_seq(trim_seq(raw), json_fence), fence),
            fence,
        ),
    )
}

/// The prompt for a topic and mode (`build_prompt`).
pub fn build_prompt(topic: &str, mode: GenerateMode) -> (r: String)
    ensures
        r@ == prompt_text(topic@, mode),
{
    let t = trim(topic);
    match mode {
        GenerateMode::Study => concat3(STUDY_PROMPT_HEAD, t.as_str(), STUDY_PROMPT_TAIL),
        GenerateMode::Full => concat3(FULL_PROMPT_HEAD, t.as_str(), FULL_PROMPT_TAIL),
    }
}

/// A header's value, trimmed; none where it is missing or blank (`get_header`).
pub fn get_header(v: &Option<String>) -> (r: Option<String>)
    ensures
        match r {
            Some(t) => header_text(*v) == Some(t@),
            None => header_text(*v) is None,
        },
{
    match v {
        Some(s) => trimmed_non_empty(s.as_str()),
        None => None,
    }
}

/// A Gemini override where it is not blank, else the server's setting.
fn choose_override(o: &Option<String>, fallback: &Option<String>) -> (r: Option<String>)
    ensures
        match r {
            Some(t) => match usable_override(*o) {
                Some(x) => t@ == x,
                None => *fallback == Some(t),
            },
            None => usable_override(*o) is None && fallback is None,
        },
{
    match o {
        Some(s) => {
            if !is_blank(s.as_str()) {
                return Some(s.clone());
            }
        },
        None => {},
    }
    match fallback {
        Some(f) => Some(f.clone()),
        None => None,
    }
}

/// The model call for a request: the topic must not be blank; Kilo.ai when
/// the provider says `kilo`, which needs a key and a model (from the request,
/// else the server's `KILO_MODEL`); Gemini otherwise, which needs a key from
/// the request or the server.
pub fn plan_generation(
    req: &GenerateRequest,
    h: &AiHeaders,
    config_key: &Option<String>,
    config_model: &Option<String>,
    config_kilo_model: &Option<String>,
) -> (r: Result<AiCall, AppError>)
    ensures
        trim_seq(req.topic@).len() > 0 && is_ascii_text(provider_text(*h)) ==> (uses_kilo(*h)
            <==> ascii_lower(provider_text(*h)) == "kilo"@),
        trim_seq(req.topic@).len() > 0 && uses_kilo(*h) && h.api_key is Some && trim_seq(
            h.api_key.unwrap()@,
        ).len() > 0 && h.model is Some && trim_seq(h.model.unwrap()@).len() > 0 ==> (r matches Ok(
            AiCall::Kilo { key, model, .. },
        ) && key@ == trim_seq(h.api_key.unwrap()@) && model@ == trim_seq(h.model.unwrap()@)),
        if trim_seq(req.topic@).len() == 0 {
            r matches Err(e) && is_bad_request(e, TOPIC_MISSING@)
        } else if uses_kilo(*h) {
            match kilo_key_text(*h) {
                None => r matches Err(e) && is_bad_request(e, KILO_KEY_MISSING@),
                Some(k) => match kilo_model_text(*h, *config_kilo_model) {
                    None => r matches Err(e) && is_bad_request(e, KILO_MODEL_MISSING@),
                    Some(m) => r matches Ok(AiCall::Kilo { prompt, key, model })
                        && prompt@ == prompt_text(trim_seq(req.topic@), req.mode) && key@ == k
                        && model@ == m,
                },
            }
        } else {
            match gemini_key_text(*h, *config_key) {
                None => r matches Err(e) && is_bad_request(e, GEMINI_KEY_MISSING@),
                Some(k) => r matches Ok(AiCall::Gemini { prompt, url }) && prompt@ == prompt_text(
                    trim_seq(req.topic@),
                    req.mode,
                ) && url@ == gemini_url_text(gemini_model_text(*h, *config_model), k),
            }
        },
{
    if is_blank(req.topic.as_str()) {
        return Err(bad_request(TOPIC_MISSING));
    }
    let provider = match get_header(&h.provider) {
        Some(p) => p,
        None => String::from_str("gemini"),
    };
    let topic = trim(req.topic.as_str());
    let prompt = build_prompt(topic.as_str(), req.mode);
    let lower = to_lowercase(provider.as_str());
    if same_text(lower.as_str(), "kilo") {
        let key = match get_header(&h.api_key) {
            Some(k) => k,
            None => match get_header(&h.kilo_api_key) {
                Some(k) => k,
                None => {
                    return Err(bad_request(KILO_KEY_MISSING));
                },
            },
        };
        let model = match get_header(&h.model) {
            Some(m) => m,
            None => match config_kilo_model {
                Some(m) => m.clone(),
                None => {
                    return Err(bad_request(KILO_MODEL_MISSING));
                },
            },
        };
        Ok(AiCall::Kilo { prompt, key, model })
    } else {
        let key = match choose_override(&h.gemini_api_key, config_key) {
            Some(k) => k,
            None => {
                return Err(bad_request(GEMINI_KEY_MISSING));
            },
        };
        let model = match choose_override(&h.gemini_model, config_model) {
            Some(m) => m,
            None => String::from_str(GEMINI_MODEL_DEFAULT),
        };
        let mut url = concat3(GEMINI_BASE, "/", model.as_str());
        url.append(":generateContent?key=");
        url.append(key.as_str());
        Ok(AiCall::Gemini { prompt, url })
    }
}

/// The `Authorization` header of a Kilo.ai request; the key must not be blank.
pub fn kilo_authorization(api_key: &str) -> (r: Result<String, AppError>)
    ensures
        if trim_seq(api_key@).len() == 0 {
            r matches Err(e) && is_bad_request(e, KILO_KEY_BLANK@)
        } else {
            r matches Ok(v) && v@ == "Bearer "@ + trim_seq(api_key@)
        },
{
    match trimmed_non_empty(api_key) {
        None => Err(bad_request(KILO_KEY_BLANK)),
        Some(k) => {
            let mut v = String::from_str("Bearer ");
            v.append(k.as_str());
            Ok(v)
        },
    }
}

/// The JSON part of a model's reply, without code fences.
pub fn clean_ai_reply(raw: &str) -> (r: String)
    ensures
        r@ == ai_json_text(raw@),
{
    let fence = vec!['`', '`', '`'];
    let json_fence = vec!['`', '`', '`', 'j', 's', 'o', 'n'];
    assert(fence@ == seq!['`', '`', '`']);
    assert(json_fence@ == seq!['`', '`', '`', 'j', 's', 'o', 'n']);
    let v = to_chars(raw);
    let a = trim_chars(&v);
    let b = trim_start_matches_chars(&a, &json_fence);
    let c = trim_start_matches_chars(&b, &fence);
    let d = trim_end_matches_chars(&c, &fence);
    let e = trim_chars(&d);
    from_chars(&e)
}

/// The refusal of a reply that is not the JSON asked for, with the parser's
/// message.
pub fn parse_failure(mode: GenerateMode, err: &str) -> (r: AppError)
    ensures
        is_bad_request(
            r,
            PARSE_FAILURE_HEAD@ + err@ + match mode {
                GenerateMode::Study => PARSE_FAILURE_STUDY_TAIL@,
                GenerateMode::Full => PARSE_FAILURE_FULL_TAIL@,
            },
        ),
{
    match mode {
        GenerateMode::Study => AppError::BadRequest(concat3(PARSE_FAILURE_HEAD, err, PARSE_FAILURE_STUDY_TAIL)),
        GenerateMode::Full => AppError::BadRequest(concat3(PARSE_FAILURE_HEAD, err, PARSE_FAILURE_FULL_TAIL)),
    }
}

/// The refusal of a failed model call: the service's own message where it
/// gave one, else the service's name and the status.
pub fn api_failure(message: Option<String>, service: &str, status: &str) -> (r: AppError)
    ensures
        match message {
            Some(m) => is_bad_request(r, m@),
            None => is_bad_request(r, service@ + ": "@ + status@),
        },
{
    match message {
        Some(m) => AppError::BadRequest(m),
        None => AppError::BadRequest(concat3(service, ": ", status)),
    }
}

/// The refusal when Kilo.ai's model list cannot be loaded.
pub fn kilo_models_failure(status: &str) -> (r: AppError)
    ensures
        is_bad_request(r, "โหลดรายการโมเดล Kilo ไม่ได้: "@ + status@),
{
    let mut m = String::from_str("โหลดรายการโมเดล Kilo ไม่ได้: ");
    m.append(status);
    AppError::BadRequest(m)
}

/// The answer in study mode: step 1 alone.
pub fn study_response(step1: Step1Payload) -> (r: GenerateResponse)
    ensures
        r.ok,
        r.step1 == Some(step1),
        r.step2 is None && r.step3 is None && r.step4 is None && r.error is None,
{
    GenerateResponse { ok: true, step1: Some(step1), step2: None, step3: None, step4: None, error: None }
}

/// The answer in four-step mode: all four steps.
pub fn full_response(
    step1: Step1Payload,
    step2: Step2Payload,
    step3: Step3Payload,
    step4: Step4Payload,
) -> (r: GenerateResponse)
    ensures
        r.ok,
        r.step1 == Some(step1),
        r.step2 == Some(step2),
        r.step3 == Some(step3),
        r.step4 == Some(step4),
        r.error is None,
{
    GenerateResponse {
        ok: true,
        step1: Some(step1),
        step2: Some(step2),
        step3: Some(step3),
        step4: Some(step4),
        error: None,
    }
}

/// A saved topic as the client sees it (`model_to_response`).
pub fn model_to_response(m: rust_practice_topic::Model) -> (r: TopicResponse)
    ensures
        r.id@ == uuid_text(m.id),
        r.title == m.title,
        r.s1_title == m.s1_title,
        r.s1_content == m.s1_content,
        r.s1_code == m.s1_code,
        r.s2_title == m.s2_title,
        r.s2_description == m.s2_description,
        r.s2_code == m.s2_code,
        r.s3_title == m.s3_title,
        r.s3_description == m.s3_description,
        r.s3_code_with_blanks == m.s3_code_with_blanks,
        r.s3_solution == m.s3_solution,
        r.s4_title == m.s4_title,
        r.s4_task == m.s4_task,
        r.s4_hint == m.s4_hint,
        r.s4_solution == m.s4_solution,
        r.created_at == m.created_at,
{
    TopicResponse {
        id: uuid_to_string(m.id),
        title: m.title,
        s1_title: m.s1_title,
        s1_content: m.s1_content,
        s1_code: m.s1_code,
        s2_title: m.s2_title,
        s2_description: m.s2_description,
        s2_code: m.s2_code,
        s3_title: m.s3_title,
        s3_description: m.s3_description,
        s3_code_with_blanks: m.s3_code_with_blanks,
        s3_solution: m.s3_solution,
        s4_title: m.s4_title,
        s4_task: m.s4_task,
        s4_hint: m.s4_hint,
        s4_solution: m.s4_solution,
        created_at: m.created_at,
    }
}

/// The title a topic is saved under: trimmed, and not empty.
pub fn validate_topic_title(req: &SaveTopicRequest) -> (r: Result<String, AppError>)
    ensures
        if trim_seq(req.title@).len() == 0 {
            r matches Err(e) && is_bad_request(e, "title ต้องไม่ว่าง"@)
        } else {
            r matches Ok(t) && t@ == trim_seq(req.title@)
        },
{
    match trimmed_non_empty(req.title.as_str()) {
        Some(t) => Ok(t),
        None => Err(bad_request("title ต้องไม่ว่าง")),
    }
}

/// The topic stored for a save request, under the given title.
pub fn new_topic(id: u128, title: String, req: SaveTopicRequest, created_at: String) -> (r:
    rust_practice_topic::Model)
    ensures
        r.id == id,
        r.title == title,
        r.s1_title == req.step1.title,
        r.s1_content == req.step1.content,
        r.s1_code == req.step1.code,
        r.s2_title == req.step2.title,
        r.s2_description == req.step2.description,
        r.s2_code == req.step2.code,
        r.s3_title == req.step3.title,
        r.s3_description == req.step3.description,
        r.s3_code_with_blanks == req.step3.code_with_blanks,
        r.s3_solution == req.step3.solution,
        r.s4_title == req.step4.title,
        r.s4_task == req.step4.task,
        r.s4_hint == req.step4.hint,
        r.s4_solution == req.step4.solution,
        r.created_at == created_at,
{
    rust_practice_topic::Model {
        id,
        title,
        s1_title: req.step1.title,
        s1_content: req.step1.content,
        s1_code: req.step1.code,
        s2_title: req.step2.title,
        s2_description: req.step2.description,
        s2_code: req.step2.code,
        s3_title: req.step3.title,
        s3_description: req.step3.description,
        s3_code_with_blanks: req.step3.code_with_blanks,
        s3_solution: req.step3.solution,
        s4_title: req.step4.title,
        s4_task: req.step4.task,
        s4_hint: req.step4.hint,
        s4_solution: req.step4.solution,
        created_at,
    }
}

/// The checks before a topic is deleted: only admins may, and the id must parse.
pub fn check_delete_topic(auth: &AuthUser, topic_id: &str) -> (r: Result<u128, AppError>)
    ensures
        if auth.role@ != "admin"@ {
            r == Err::<u128, AppError>(AppError::Forbidden)
        } else {
            match uuid_parse(topic_id@) {
                Some(u) => r == Ok::<u128, AppError>(u),
                None => r matches Err(e) && is_bad_request(e, "Invalid topic id"@),
            }
        },
{
    if !same_text(auth.role.as_str(), "admin") {
        return Err(AppError::Forbidden);
    }
    match parse_uuid(topic_id) {
        Some(u) => Ok(u),
        None => Err(bad_request("Invalid topic id")),
    }
}

/// A Kilo request takes its key from `x-ai-api-key` whenever that header
/// holds more than whitespace, trimmed; `x-kilo-api-key` is read only when it
/// does not, and a key is missing only when neither header holds one.
pub proof fn law_kilo_key_choice(h: AiHeaders)
    ensures
        h.api_key is Some && trim_seq(h.api_key.unwrap()@).len() > 0 ==> kilo_key_text(h) == Some(
            trim_seq(h.api_key.unwrap()@),
        ),
        !(h.api_key is Some && trim_seq(h.api_key.unwrap()@).len() > 0) && h.kilo_api_key is Some
            && trim_seq(h.kilo_api_key.unwrap()@).len() > 0 ==> kilo_key_text(h) == Some(
            trim_seq(h.kilo_api_key.unwrap()@),
        ),
        kilo_key_text(h) is None <==> !(h.api_key is Some && trim_seq(h.api_key.unwrap()@).len()
            > 0) && !(h.kilo_api_key is Some && trim_seq(h.kilo_api_key.unwrap()@).len() > 0),
{
}

} // verus!
