//! ChatJimmy provider — chatjimmy.ai (Taalas HC1 inference, no auth).
//!
//! The HTTP exchange itself happens outside this module; here stand the rules
//! that shape the request and read the reply.

use vstd::prelude::*;
use vstd::string::*;
use vstd::utf8::*;

use crate::text::{
    chars_of, is_last_occurrence, last_occurrence, occurs_at, occurs_from, occurs_from_exec,
    lemma_trim_end_char_ends_otherwise, lemma_trim_end_ws_is_prefix, str_eq, trim_end_char, trim_end_matches_char, trim_end_ws, trim_str, trim_ws, trimmed_end,
};

verus! {

/// Base URL used when none (or only whitespace) is configured.
pub open spec fn default_base_url() -> Seq<char> {
    "https://chatjimmy.ai"@
}

/// Model used when the caller names none.
pub open spec fn default_model() -> Seq<char> {
    "llama3.1-8B"@
}

/// Opening marker of the statistics block the service appends to a reply.
pub open spec fn stats_start() -> Seq<char> {
    "<|stats|>"@
}

/// Closing marker of the statistics block.
pub open spec fn stats_end() -> Seq<char> {
    "<|/stats|>"@
}

/// The configured base URL, trimmed, defaulted when blank, without trailing slashes.
pub open spec fn normalized_base_url(raw: Option<Seq<char>>) -> Seq<char> {
    let chosen = match raw {
        Some(r) => if trim_ws(r).len() > 0 {
            trim_ws(r)
        } else {
            default_base_url()
        },
        None => default_base_url(),
    };
    trim_end_char(chosen, '/')
}

/// A reply without the statistics block that follows its last opening marker
/// (when a closing marker comes after it), and without trailing whitespace.
pub open spec fn without_stats(s: Seq<char>) -> Seq<char> {
    if exists|i: int| is_last_occurrence(s, stats_start(), i) {
        let i = choose|i: int| is_last_occurrence(s, stats_start(), i);
        if occurs_from(s, stats_end(), i) {
            trim_end_ws(s.take(i))
        } else {
            trim_end_ws(s)
        }
    } else {
        trim_end_ws(s)
    }
}

/// The model to request: the given one, or the default when it is empty.
pub open spec fn model_or_default(model: Seq<char>) -> Seq<char> {
    if model.len() == 0 {
        default_model()
    } else {
        model
    }
}

/// Stripping the statistics block only ever removes characters from the end
/// of the reply.
pub proof fn law_strip_stats_keeps_a_prefix(s: Seq<char>)
    ensures
        without_stats(s).len() <= s.len(),
        without_stats(s) == s.take(without_stats(s).len() as int),
{
    if exists|i: int| is_last_occurrence(s, stats_start(), i) {
        let i = choose|i: int| is_last_occurrence(s, stats_start(), i);
        if occurs_from(s, stats_end(), i) {
            lemma_trim_end_ws_is_prefix(s.take(i));
            assert(s.take(i).take(without_stats(s).len() as int) =~= s.take(
                without_stats(s).len() as int,
            ));
        } else {
            lemma_trim_end_ws_is_prefix(s);
        }
    } else {
        lemma_trim_end_ws_is_prefix(s);
    }
}

/// A reply with no statistics block is only trimmed of trailing whitespace.
pub proof fn law_reply_without_stats_is_trimmed(s: Seq<char>)
    requires
        forall|i: int| !#[trigger] occurs_at(s, stats_start(), i),
    ensures
        without_stats(s) == trim_end_ws(s),
{
}

/// A normalized base URL never ends with a slash.
pub proof fn law_base_url_has_no_trailing_slash(raw: Option<Seq<char>>)
    ensures
        normalized_base_url(raw).len() == 0 || normalized_base_url(raw).last() != '/',
{
    let chosen = match raw {
        Some(r) => if trim_ws(r).len() > 0 {
            trim_ws(r)
        } else {
            default_base_url()
        },
        None => default_base_url(),
    };
    lemma_trim_end_char_ends_otherwise(chosen, '/');
}

/// A missing or blank base URL selects the default one.
pub proof fn law_blank_base_url_is_default(raw: Option<Seq<char>>)
    requires
        raw matches Some(r) ==> trim_ws(r).len() == 0,
    ensures
        normalized_base_url(raw) == default_base_url(),
{
    reveal_strlit("https://chatjimmy.ai");
    assert(default_base_url().last() != '/');
}

/// A success status: one in the 2xx range.
pub open spec fn is_success_status(status: u16) -> bool {
    200 <= status <= 299
}

/// How a reply with the given status and text is read: a non-success status is
/// an API error carrying the status and the text; otherwise the text without
/// its statistics block, or the empty-response error when nothing remains.
pub open spec fn is_chat_reply(
    status: u16,
    text: Seq<char>,
    r: Result<String, ChatJimmyError>,
) -> bool {
    if !is_success_status(status) {
        r matches Err(ChatJimmyError::Api { status: st, body }) && st == status && body@ == text
    } else if without_stats(text).len() == 0 {
        r matches Err(ChatJimmyError::EmptyResponse)
    } else {
        r matches Ok(s) && s@ == without_stats(text)
    }
}

/// Every status outside 200..=299 is answered with the API error carrying that
/// status and the reply's text, whatever the text says.
pub proof fn law_non_success_status_is_api_error(
    status: u16,
    text: Seq<char>,
    r: Result<String, ChatJimmyError>,
)
    requires
        status < 200 || status > 299,
        is_chat_reply(status, text, r),
    ensures
        r matches Err(ChatJimmyError::Api { status: st, body }) && st == status && body@ == text,
{
}

/// A status in 200..=299 is never answered with the API error: the reply is
/// the text without its statistics block, or the empty-response error when
/// nothing of it remains.
pub proof fn law_success_status_reads_the_text(
    status: u16,
    text: Seq<char>,
    r: Result<String, ChatJimmyError>,
)
    requires
        200 <= status <= 299,
        is_chat_reply(status, text, r),
    ensures
        !(r is Err && r->Err_0 is Api),
        r is Ok <==> without_stats(text).len() > 0,
        r matches Ok(s) ==> s@ == without_stats(text),
{
}

/// One message of a conversation history.
pub struct ChatMessage {
    pub role: String,
    pub content: String,
}

/// What the provider supports.
pub struct ProviderCapabilities {
    pub native_tool_calling: bool,
    pub vision: bool,
}

/// One message of a ChatJimmy request.
pub struct ChatJimmyMessage {
    pub role: String,
    pub content: String,
}

/// Options of a ChatJimmy request.
pub struct ChatOptions {
    pub selected_model: String,
    pub system_prompt: String,
    pub top_k: u32,
}

/// Body of a ChatJimmy request.
pub struct ChatJimmyRequest {
    pub messages: Vec<ChatJimmyMessage>,
    pub chat_options: ChatOptions,
    pub attachment: Option<()>,
}

/// Why a ChatJimmy reply was not accepted.
pub enum ChatJimmyError {
    /// The service answered with a non-success status; the body as text.
    Api { status: u16, body: String },
    /// The reply held nothing once the statistics block was removed.
    EmptyResponse,
}

/// The (role, content) view of each request message.
pub open spec fn request_messages(ms: Seq<ChatJimmyMessage>) -> Seq<(Seq<char>, Seq<char>)> {
    Seq::new(ms.len(), |i: int| (ms[i].role@, ms[i].content@))
}

/// The user and assistant messages of a history, in order, as (role, content).
pub open spec fn dialogue(ms: Seq<ChatMessage>) -> Seq<(Seq<char>, Seq<char>)>
    decreases ms.len(),
{
    if ms.len() == 0 {
        Seq::empty()
    } else {
        let rest = dialogue(ms.drop_last());
        let m = ms.last();
        if m.role@ == "user"@ || m.role@ == "assistant"@ {
            rest.push((m.role@, m.content@))
        } else {
            rest
        }
    }
}

/// The content of the first system message of a history, or the empty string.
pub open spec fn system_prompt_of(ms: Seq<ChatMessage>) -> Seq<char>
    decreases ms.len(),
{
    if ms.len() == 0 {
        Seq::empty()
    } else if ms[0].role@ == "system"@ {
        ms[0].content@
    } else {
        system_prompt_of(ms.drop_first())
    }
}

/// The request fields common to every ChatJimmy request.
pub open spec fn is_request(
    r: ChatJimmyRequest,
    msgs: Seq<(Seq<char>, Seq<char>)>,
    model: Seq<char>,
    system_prompt: Seq<char>,
) -> bool {
    &&& request_messages(r.messages@) == msgs
    &&& r.chat_options.selected_model@ == model_or_default(model)
    &&& r.chat_options.system_prompt@ == system_prompt
    &&& r.chat_options.top_k == 8
    &&& r.attachment is None
}

/// The text `String::from_utf8_lossy` makes of some bytes: a function of the bytes alone.
pub uninterp spec fn lossy_utf8(bytes: Seq<u8>) -> Seq<char>;

/// Decodes bytes as UTF-8, replacing invalid sequences (`String::from_utf8_lossy`).
/// Stated: the result is `lossy_utf8` of the bytes, and valid UTF-8 decodes to its
/// characters. Not stated: which replacement characters stand for invalid input.
#[verifier::external_body]
fn utf8_lossy(bytes: &[u8]) -> (s: String)
    ensures
        s@ == lossy_utf8(bytes@),
        valid_utf8(bytes@) ==> s@ == decode_utf8(bytes@),
{
    String::from_utf8_lossy(bytes).into_owned()
}

/// A user message.
fn user_message(content: &str) -> (m: ChatJimmyMessage)
    ensures
        m.role@ == "user"@,
        m.content@ == content@,
{
    ChatJimmyMessage { role: "user".to_owned(), content: content.to_owned() }
}

pub struct ChatJimmyProvider {
    base_url: String,
}

impl ChatJimmyProvider {
    /// The base URL requests go to.
    pub closed spec fn base_url(&self) -> Seq<char> {
        self.base_url@
    }

    /// The configured base URL, trimmed, defaulted when blank, without trailing slashes.
    pub fn normalize_base_url(raw: Option<&str>) -> (s: String)
        ensures
            s@ == normalized_base_url(
                match raw {
                    Some(r) => Some(r@),
                    None => None,
                },
            ),
    {
        let default = "https://chatjimmy.ai";
        let chosen: &str = match raw {
            Some(r) => {
                let t = trim_str(r);
                if t.is_empty() {
                    default
                } else {
                    t
                }
            },
            None => default,
        };
        String::from_str(trim_end_matches_char(chosen, '/'))
    }

    /// A provider for the given base URL; the API key is not used (no auth).
    pub fn new(base_url: Option<&str>, api_key: Option<&str>) -> (p: Self)
        ensures
            p.base_url() == normalized_base_url(
                match base_url {
                    Some(r) => Some(r@),
                    None => None,
                },
            ),
    {
        ChatJimmyProvider { base_url: Self::normalize_base_url(base_url) }
    }

    /// The chat endpoint.
    pub fn chat_url(&self) -> (u: String)
        ensures
            u@ == self.base_url() + "/api/chat"@,
    {
        let mut u = self.base_url.clone();
        u.append("/api/chat");
        u
    }

    /// Neither native tool calling nor vision.
    pub fn capabilities(&self) -> (c: ProviderCapabilities)
        ensures
            !c.native_tool_calling,
            !c.vision,
    {
        ProviderCapabilities { native_tool_calling: false, vision: false }
    }

    /// Strip the `<|stats|>{...}<|/stats|>` suffix from a streamed reply.
    pub fn strip_stats_suffix(text: &str) -> (r: &str)
        ensures
            r@ == without_stats(text@),
    {
        proof {
            reveal_strlit("<|stats|>");
        }
        let v = chars_of(text);
        let start = chars_of("<|stats|>");
        let end = chars_of("<|/stats|>");
        assert(v@.take(v.len() as int) =~= v@);
        match last_occurrence(&v, &start) {
            Some(i) => {
                assert forall|j: int| is_last_occurrence(v@, stats_start(), j) implies j
                    == i by {
                    if j < i {
                        assert(!occurs_at(v@, stats_start(), i as int));
                    }
                    if j > i {
                        assert(!occurs_at(v@, stats_start(), j));
                    }
                }
                if occurs_from_exec(&v, &end, i) {
                    let k = trimmed_end(&v, i);
                    text.substring_char(0, k)
                } else {
                    let k = trimmed_end(&v, v.len());
                    text.substring_char(0, k)
                }
            },
            None => {
                let k = trimmed_end(&v, v.len());
                text.substring_char(0, k)
            },
        }
    }

    /// The model to request: the given one, or the default when it is empty.
    pub fn resolve_model(model: &str) -> (m: &str)
        ensures
            m@ == model_or_default(model@),
    {
        if model.is_empty() {
            "llama3.1-8B"
        } else {
            model
        }
    }

    /// The request for a single user message with an optional system prompt.
    pub fn chat_with_system_request(system_prompt: Option<&str>, message: &str, model: &str) -> (r:
        ChatJimmyRequest)
        ensures
            is_request(
                r,
                seq![("user"@, message@)],
                model@,
                match system_prompt {
                    Some(s) => s@,
                    None => Seq::empty(),
                },
            ),
    {
        let model = Self::resolve_model(model);
        let mut messages: Vec<ChatJimmyMessage> = Vec::new();
        messages.push(user_message(message));
        let system: String = match system_prompt {
            Some(s) => s.to_owned(),
            None => String::new(),
        };
        let r = ChatJimmyRequest {
            messages,
            chat_options: ChatOptions {
                selected_model: model.to_owned(),
                system_prompt: system,
                top_k: 8,
            },
            attachment: None,
        };
        assert(request_messages(r.messages@) =~= seq![("user"@, message@)]);
        r
    }

    /// The request for a conversation history: the first system message becomes
    /// the system prompt and the user and assistant messages are sent in order;
    /// a history with none of those sends one empty user message.
    pub fn chat_with_history_request(messages: &[ChatMessage], model: &str) -> (r: ChatJimmyRequest)
        ensures
            is_request(
                r,
                if dialogue(messages@).len() == 0 {
                    seq![("user"@, Seq::empty())]
                } else {
                    dialogue(messages@)
                },
                model@,
                system_prompt_of(messages@),
            ),
    {
        let system = first_system_prompt(messages);
        let mut out: Vec<ChatJimmyMessage> = Vec::new();
        let mut i: usize = 0;
        while i < messages.len()
            invariant
                i <= messages@.len(),
                request_messages(out@) == dialogue(messages@.take(i as int)),
            decreases messages.len() - i,
        {
            let m = &messages[i];
            assert(messages@.take(i + 1).drop_last() =~= messages@.take(i as int));
            if str_eq(m.role.as_str(), "user") || str_eq(m.role.as_str(), "assistant") {
                out.push(ChatJimmyMessage { role: m.role.clone(), content: m.content.clone() });
                assert(request_messages(out@) =~= dialogue(messages@.take(i as int)).push(
                    (m.role@, m.content@),
                ));
            }
            i = i + 1;
        }
        assert(messages@.take(messages.len() as int) =~= messages@);
        if out.len() == 0 {
            let opt: Option<&str> = if system.as_str().is_empty() {
                None
            } else {
                Some(system.as_str())
            };
            let r = Self::chat_with_system_request(opt, "", model);
            proof {
                reveal_strlit("");
                assert(dialogue(messages@).len() == 0);
                assert(""@ =~= Seq::<char>::empty());
                assert(match opt {
                    Some(s) => s@,
                    None => Seq::empty(),
                } == system_prompt_of(messages@));
            }
            r
        } else {
            let model = Self::resolve_model(model);
            ChatJimmyRequest {
                messages: out,
                chat_options: ChatOptions {
                    selected_model: model.to_owned(),
                    system_prompt: system,
                    top_k: 8,
                },
                attachment: None,
            }
        }
    }

    /// Reads a reply given as text: a status outside 2xx is an API error carrying
    /// the text; otherwise the text without its statistics block, refused when empty.
    pub fn read_chat_text(status: u16, text: String) -> (r: Result<String, ChatJimmyError>)
        ensures
            is_chat_reply(status, text@, r),
            (status < 200 || status > 299) <==> (r matches Err(ChatJimmyError::Api { status: st, body })
                && st == status && body@ == text@),
    {
        if !(200 <= status && status <= 299) {
            return Err(ChatJimmyError::Api { status, body: text });
        }
        let content = Self::strip_stats_suffix(text.as_str());
        if content.is_empty() {
            Err(ChatJimmyError::EmptyResponse)
        } else {
            Ok(content.to_owned())
        }
    }

    /// Reads a reply: its body is decoded lossily as UTF-8, then read as text.
    pub fn read_chat_response(status: u16, body: &[u8]) -> (r: Result<String, ChatJimmyError>)
        ensures
            (status < 200 || status > 299) <==> (r matches Err(ChatJimmyError::Api { status: st, .. })
                && st == status),
            is_chat_reply(status, lossy_utf8(body@), r),
            valid_utf8(body@) ==> is_chat_reply(status, decode_utf8(body@), r),
    {
        let text = utf8_lossy(body);
        Self::read_chat_text(status, text)
    }
}

/// The content of the first system message of a history, or the empty string.
fn first_system_prompt(messages: &[ChatMessage]) -> (s: String)
    ensures
        s@ == system_prompt_of(messages@),
{
    let mut i: usize = 0;
    assert(messages@.skip(0) =~= messages@);
    while i < messages.len()
        invariant
            i <= messages@.len(),
            system_prompt_of(messages@) == system_prompt_of(messages@.skip(i as int)),
        decreases messages.len() - i,
    {
        assert(messages@.skip(i as int).drop_first() =~= messages@.skip(i + 1));
        if str_eq(messages[i].role.as_str(), "system") {
            return messages[i].content.clone();
        }
        i = i + 1;
    }
    String::new()
}

} // verus!
