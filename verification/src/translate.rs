//! Translation through a remote service: which service is asked, what it is sent, and what
//! its answer means.
//!
//! Two kinds of service are known: one that speaks the chat-completions protocol of OpenAI, and
//! LibreTranslate. Nothing here sends anything: the request is described, and the answer is
//! taken as the caller received it.

use crate::json::{
    as_text, debug_text, element, element_of, json_debug, json_view, member, member_of, text_of,
    Json,
};
use crate::text::{
    chars_of, concat2, concat3, contains_chars, contains_seq, ends_with_chars, has_suffix,
    occurs_at,
};
use vstd::prelude::*;
use vstd::string::StringExecFns;

verus! {

/// The setting that holds the address of the service.
pub const BASE_URL_KEY: &'static str = "translation_base_url";

/// The setting that holds the key to the service.
pub const API_KEY_KEY: &'static str = "translation_api_key";

/// The setting that holds the model a chat service is asked for.
pub const MODEL_KEY: &'static str = "translation_model";

/// The setting that holds the instruction a chat service is given.
pub const PROMPT_KEY: &'static str = "translation_prompt";

/// The randomness a chat service is asked for, in tenths.
pub const TEMPERATURE_TENTHS: u32 = 3;

/// The settings of the translation, each with its default filled in.
#[derive(Debug, Clone)]
pub struct TranslationSettings {
    pub base_url: String,
    pub api_key: String,
    pub model: String,
    pub prompt: String,
}

/// The kind of service that is asked.
#[derive(Debug, Clone, Copy, PartialEq, Eq, Structural)]
pub enum Provider {
    OpenAi,
    LibreTranslate,
}

/// The text of a stored setting, or `default` where none is stored.
pub open spec fn setting_or(stored: Option<String>, default: Seq<char>) -> Seq<char> {
    match stored {
        Some(s) => s@,
        None => default,
    }
}

/// A stored setting, or `default` where none is stored.
pub fn stored_or(stored: Option<String>, default: &str) -> (r: String)
    ensures
        r@ == setting_or(stored, default@),
{
    match stored {
        Some(s) => s,
        None => String::from_str(default),
    }
}

/// Fills in the settings that are not stored: LibreTranslate's public address, no key, the
/// model `gpt-3.5-turbo` and an instruction to translate to Chinese.
pub fn resolve_settings(
    base_url: Option<String>,
    api_key: Option<String>,
    model: Option<String>,
    prompt: Option<String>,
) -> (s: TranslationSettings)
    ensures
        s.base_url@ == setting_or(base_url, "https://libretranslate.com"@),
        s.api_key@ == setting_or(api_key, Seq::empty()),
        s.model@ == setting_or(model, "gpt-3.5-turbo"@),
        s.prompt@ == setting_or(prompt, "Translate the following text to Chinese:"@),
{
    proof {
        reveal_strlit("");
    }
    let api_key = stored_or(api_key, "");
    TranslationSettings {
        base_url: stored_or(base_url, "https://libretranslate.com"),
        api_key,
        model: stored_or(model, "gpt-3.5-turbo"),
        prompt: stored_or(prompt, "Translate the following text to Chinese:"),
    }
}

/// Whether the service at `base_url` speaks the chat protocol: its address names `openai` or
/// ends in `/v1`, or there is a key and the address does not name `libretranslate`.
pub open spec fn speaks_chat(base_url: Seq<char>, api_key: Seq<char>) -> bool {
    ||| contains_seq(base_url, "openai"@)
    ||| has_suffix(base_url, "/v1"@)
    ||| (api_key.len() > 0 && !contains_seq(base_url, "libretranslate"@))
}

/// An address that names `openai.com` or `api.openai` names `openai`, so the service there
/// speaks the chat protocol.
pub proof fn longer_names_speak_chat(base_url: Seq<char>, api_key: Seq<char>)
    ensures
        contains_seq(base_url, "openai.com"@) ==> speaks_chat(base_url, api_key),
        contains_seq(base_url, "api.openai"@) ==> speaks_chat(base_url, api_key),
{
    reveal_strlit("openai");
    reveal_strlit("openai.com");
    reveal_strlit("api.openai");
    if contains_seq(base_url, "openai.com"@) {
        let at = choose|at: int| occurs_at(base_url, "openai.com"@, at);
        let long = base_url.subrange(at, at + 10);
        assert forall|i: int| 0 <= i < 6 implies base_url[at + i] == "openai"@[i] by {
            assert(long[i] == "openai.com"@[i]);
        }
        assert(base_url.subrange(at, at + 6) =~= "openai"@);
        assert(occurs_at(base_url, "openai"@, at));
    }
    if contains_seq(base_url, "api.openai"@) {
        let at = choose|at: int| occurs_at(base_url, "api.openai"@, at);
        let long = base_url.subrange(at, at + 10);
        assert forall|i: int| 0 <= i < 6 implies base_url[at + 4 + i] == "openai"@[i] by {
            assert(long[4 + i] == "api.openai"@[4 + i]);
        }
        assert(base_url.subrange(at + 4, at + 4 + 6) =~= "openai"@);
        assert(occurs_at(base_url, "openai"@, at + 4));
    }
}

/// The kind of the service at `base_url`.
pub open spec fn provider_of(base_url: Seq<char>, api_key: Seq<char>) -> Provider {
    if speaks_chat(base_url, api_key) {
        Provider::OpenAi
    } else {
        Provider::LibreTranslate
    }
}

/// The kind of the service at `base_url`, used with `api_key`.
pub fn provider_for(base_url: &str, api_key: &str) -> (p: Provider)
    ensures
        p == provider_of(base_url@, api_key@),
{
    let url = chars_of(base_url);
    if contains_chars(&url, &chars_of("openai")) || ends_with_chars(&url, &chars_of("/v1")) || (
    !api_key.is_empty() && !contains_chars(&url, &chars_of("libretranslate"))) {
        Provider::OpenAi
    } else {
        Provider::LibreTranslate
    }
}

/// `s` without the slashes at its end.
pub open spec fn without_trailing_slashes(s: Seq<char>) -> Seq<char>
    decreases s.len(),
{
    if s.len() > 0 && s.last() == '/' {
        without_trailing_slashes(s.drop_last())
    } else {
        s
    }
}

/// `s` without the slashes at its end.
pub fn trim_trailing_slashes(s: &str) -> (r: String)
    ensures
        r@ == without_trailing_slashes(s@),
{
    let cs = chars_of(s);
    let mut end: usize = cs.len();
    assert(s@.take(end as int) =~= s@);
    while end > 0 && cs[end - 1] == '/'
        invariant
            end <= cs.len(),
            cs@ == s@,
            without_trailing_slashes(s@) == without_trailing_slashes(s@.take(end as int)),
        decreases end,
    {
        assert(s@.take(end as int).drop_last() =~= s@.take(end - 1));
        end -= 1;
    }
    String::from_str(s.substring_char(0, end))
}

/// The path of the service, below its address.
pub open spec fn service_path(provider: Provider) -> Seq<char> {
    match provider {
        Provider::OpenAi => "/chat/completions"@,
        Provider::LibreTranslate => "/translate"@,
    }
}

/// The address that is asked: the path of the service behind the address without its trailing
/// slashes.
pub open spec fn endpoint_of(provider: Provider, base_url: Seq<char>) -> Seq<char> {
    without_trailing_slashes(base_url) + service_path(provider)
}

/// The address that is asked.
pub fn endpoint(provider: Provider, base_url: &str) -> (r: String)
    ensures
        r@ == endpoint_of(provider, base_url@),
{
    let mut r = trim_trailing_slashes(base_url);
    match provider {
        Provider::OpenAi => r.append("/chat/completions"),
        Provider::LibreTranslate => r.append("/translate"),
    }
    r
}

/// What is sent to the service, to be written as a JSON object.
#[derive(Debug, Clone)]
pub enum RequestBody {
    /// For a chat service: the members `model`, `messages` and `temperature`. The messages are
    /// two, of the roles `system` and `user` and with these contents; the temperature is
    /// `temperature_tenths` tenths.
    Chat { model: String, system: String, user: String, temperature_tenths: u32 },
    /// For LibreTranslate: the members `q`, `source`, `target` and `format`, and `api_key`
    /// where there is one.
    Translate { q: String, source: String, target: String, format: String, api_key: Option<String> },
}

/// A request to the service: a `POST` of `body` to `url`.
#[derive(Debug, Clone)]
pub struct TranslationRequest {
    pub provider: Provider,
    pub url: String,
    /// The value of the `Authorization` header, where one is sent.
    pub authorization: Option<String>,
    pub body: RequestBody,
}

/// The `Authorization` header sent to a chat service: the key as a bearer token, and no
/// header where there is no key.
pub open spec fn authorization_of(provider: Provider, api_key: Seq<char>) -> Option<Seq<char>> {
    if provider == Provider::OpenAi && api_key.len() > 0 {
        Some("Bearer "@ + api_key)
    } else {
        None
    }
}

/// Whether `body` is what is sent to `provider` to have `text` translated to `target_lang`.
pub open spec fn is_body_for(
    body: RequestBody,
    provider: Provider,
    settings: TranslationSettings,
    text: Seq<char>,
    target_lang: Seq<char>,
) -> bool {
    match provider {
        Provider::OpenAi => body matches RequestBody::Chat {
            model,
            system,
            user,
            temperature_tenths,
        } && model@ == settings.model@ && system@ == settings.prompt@ && user@ == text
            && temperature_tenths == TEMPERATURE_TENTHS,
        Provider::LibreTranslate => body matches RequestBody::Translate {
            q,
            source,
            target,
            format,
            api_key,
        } && q@ == text && source@ == "auto"@ && target@ == target_lang && format@ == "text"@ && (
        match api_key {
            Some(k) => settings.api_key@.len() > 0 && k@ == settings.api_key@,
            None => settings.api_key@.len() == 0,
        }),
    }
}

/// The request that has `text` translated to `target_lang` under `settings`.
///
/// A chat service is told by the prompt of the settings what to translate to; `target_lang`
/// goes to LibreTranslate only.
pub fn translation_request(settings: &TranslationSettings, text: String, target_lang: String) -> (r:
    TranslationRequest)
    ensures
        r.provider == provider_of(settings.base_url@, settings.api_key@),
        r.url@ == endpoint_of(r.provider, settings.base_url@),
        (match r.authorization {
            Some(a) => Some(a@),
            None => None,
        }) == authorization_of(r.provider, settings.api_key@),
        is_body_for(r.body, r.provider, *settings, text@, target_lang@),
{
    let provider = provider_for(settings.base_url.as_str(), settings.api_key.as_str());
    let url = endpoint(provider, settings.base_url.as_str());
    let has_key = !settings.api_key.as_str().is_empty();
    match provider {
        Provider::OpenAi => {
            let authorization = if has_key {
                Some(concat2("Bearer ", settings.api_key.as_str()))
            } else {
                None
            };
            TranslationRequest {
                provider,
                url,
                authorization,
                body: RequestBody::Chat {
                    model: settings.model.clone(),
                    system: settings.prompt.clone(),
                    user: text,
                    temperature_tenths: TEMPERATURE_TENTHS,
                },
            }
        },
        Provider::LibreTranslate => {
            let api_key = if has_key {
                Some(settings.api_key.clone())
            } else {
                None
            };
            TranslationRequest {
                provider,
                url,
                authorization: None,
                body: RequestBody::Translate {
                    q: text,
                    source: String::from_str("auto"),
                    target: target_lang,
                    format: String::from_str("text"),
                    api_key,
                },
            }
        },
    }
}

/// What came back for a request.
#[derive(Debug)]
pub enum Response {
    /// The request could not be sent or no response arrived, with this error.
    Unsent(String),
    /// The service answered with a status that is no success; `status` is the status as it is
    /// written (`404 Not Found`), `body` what came with it.
    Refused { status: String, body: String },
    /// The service answered with success, and its answer could not be read as JSON, with this
    /// error.
    Unreadable(String),
    /// The service answered with success and with this JSON value.
    Answer(serde_json::Value),
}

/// The translation that the answer `j` of `provider` holds, if it holds one: for a chat
/// service the text at `choices[0].message.content`, for LibreTranslate the text at
/// `translatedText`.
pub open spec fn translation_in(provider: Provider, j: Json) -> Option<Seq<char>> {
    match provider {
        Provider::OpenAi => match member_of(j, "choices"@) {
            Some(choices) => match element_of(choices, 0) {
                Some(choice) => match member_of(choice, "message"@) {
                    Some(message) => match member_of(message, "content"@) {
                        Some(content) => text_of(content),
                        None => None,
                    },
                    None => None,
                },
                None => None,
            },
            None => None,
        },
        Provider::LibreTranslate => match member_of(j, "translatedText"@) {
            Some(translated) => text_of(translated),
            None => None,
        },
    }
}

/// The translation that `answer` holds, if it holds one.
pub fn translation_of(provider: Provider, answer: &serde_json::Value) -> (r: Option<String>)
    ensures
        (match r {
            Some(t) => Some(t@),
            None => None,
        }) == translation_in(provider, json_view(*answer)),
{
    let found = match provider {
        Provider::OpenAi => match member(answer, "choices") {
            Some(choices) => match element(choices, 0) {
                Some(choice) => match member(choice, "message") {
                    Some(message) => member(message, "content"),
                    None => None,
                },
                None => None,
            },
            None => None,
        },
        Provider::LibreTranslate => member(answer, "translatedText"),
    };
    match found {
        Some(value) => match as_text(value) {
            Some(t) => Some(String::from_str(t)),
            None => None,
        },
        None => None,
    }
}

/// The error reported for a request to `url` that ended as `response`, if it is an error; the
/// translation is reported where there is none.
pub open spec fn failure_of(provider: Provider, url: Seq<char>, response: Response) -> Option<
    Seq<char>,
> {
    match (provider, response) {
        (Provider::OpenAi, Response::Unsent(e)) => Some(
            "OpenAI request failed: "@ + e@ + ". URL: "@ + url,
        ),
        (Provider::LibreTranslate, Response::Unsent(e)) => Some(
            "Translation request failed: "@ + e@,
        ),
        (Provider::OpenAi, Response::Refused { status, body }) => Some(
            "OpenAI API error ("@ + status@ + "): "@ + body@,
        ),
        (Provider::LibreTranslate, Response::Refused { status, body }) => Some(
            "Translation service error ("@ + status@ + "): "@ + body@,
        ),
        (Provider::OpenAi, Response::Unreadable(e)) => Some(
            "Parse OpenAI response failed: "@ + e@,
        ),
        (Provider::LibreTranslate, Response::Unreadable(e)) => Some(
            "Parse response failed: "@ + e@,
        ),
        (Provider::OpenAi, Response::Answer(j)) => if translation_in(provider, json_view(j))
            is Some {
            None
        } else {
            Some("Invalid OpenAI response: "@ + json_debug(j))
        },
        (Provider::LibreTranslate, Response::Answer(j)) => if translation_in(
            provider,
            json_view(j),
        ) is Some {
            None
        } else {
            Some("Invalid translation response: "@ + json_debug(j))
        },
    }
}

/// The result of a translation: the translated text, or the error to report.
///
/// `url` is the address that was asked.
pub fn translation_result(provider: Provider, url: &str, response: Response) -> (r: Result<
    String,
    String,
>)
    ensures
        match r {
            Ok(t) => response matches Response::Answer(j) && translation_in(
                provider,
                json_view(j),
            ) == Some(t@),
            Err(e) => failure_of(provider, url@, response) == Some(e@),
        },
{
    match response {
        Response::Unsent(e) => match provider {
            Provider::OpenAi => {
                let mut m = concat3("OpenAI request failed: ", e.as_str(), ". URL: ");
                m.append(url);
                Err(m)
            },
            Provider::LibreTranslate => Err(concat2("Translation request failed: ", e.as_str())),
        },
        Response::Refused { status, body } => {
            let mut m = match provider {
                Provider::OpenAi => concat3("OpenAI API error (", status.as_str(), "): "),
                Provider::LibreTranslate => concat3(
                    "Translation service error (",
                    status.as_str(),
                    "): ",
                ),
            };
            m.append(body.as_str());
            Err(m)
        },
        Response::Unreadable(e) => match provider {
            Provider::OpenAi => Err(concat2("Parse OpenAI response failed: ", e.as_str())),
            Provider::LibreTranslate => Err(concat2("Parse response failed: ", e.as_str())),
        },
        Response::Answer(j) => match translation_of(provider, &j) {
            Some(t) => Ok(t),
            None => {
                let written = debug_text(&j);
                match provider {
                    Provider::OpenAi => Err(concat2("Invalid OpenAI response: ", written.as_str())),
                    Provider::LibreTranslate => Err(
                        concat2("Invalid translation response: ", written.as_str()),
                    ),
                }
            },
        },
    }
}

} // verus!
