//! What holds of what is served to a tool, and of what is sent on for it.
use vstd::prelude::*;

use crate::copilot_proxy::{ProxyMode, ProxyRouteV, ReadStepV};
use crate::json::JsonV;
use crate::models::ResolvedModelV;
use crate::protocol::ir::response::AiResponseV;
use crate::protocol::ir::stream::DeltaV;
use crate::protocol::types::ToolCallV;
use crate::router::RouterPath;

verus! {

/// The words in use differ.
proof fn lemma_words()
    ensures
        "id"@.len() == 2,
        "list"@.len() == 4,
        "list"@[1] == 'i',
        "list"@[0] == 'l',
        "role"@.len() == 4,
        "role"@[1] == 'o',
        "role"@[0] == 'r',
        "slug"@.len() == 4,
        "slug"@[1] == 'l',
        "slug"@[0] == 's',
        "tool"@.len() == 4,
        "tool"@[1] == 'o',
        "tool"@[0] == 't',
        "true"@.len() == 4,
        "true"@[1] == 'r',
        "true"@[0] == 't',
        "type"@.len() == 4,
        "type"@[1] == 'y',
        "type"@[0] == 't',
        "user"@.len() == 4,
        "user"@[1] == 's',
        "user"@[0] == 'u',
        "agent"@.len() == 5,
        "agent"@[1] == 'g',
        "error"@.len() == 5,
        "error"@[1] == 'r',
        "image"@.len() == 5,
        "image"@[1] == 'm',
        "input"@.len() == 5,
        "input"@[1] == 'n',
        "accept"@.len() == 6,
        "accept"@[0] == 'a',
        "models"@.len() == 6,
        "models"@[0] == 'm',
        "object"@.len() == 6,
        "object"@[0] == 'o',
        "/models"@.len() == 7,
        "/models"@[0] == '/',
        "content"@.len() == 7,
        "content"@[0] == 'c',
        "message"@.len() == 7,
        "message"@[0] == 'm',
        "messages"@.len() == 8,
        "/messages"@.len() == 9,
        "/messages"@[0] == '/',
        "assistant"@.len() == 9,
        "assistant"@[0] == 'a',
        "image_url"@.len() == 9,
        "image_url"@[0] == 'i',
        "/responses"@.len() == 10,
        "/responses"@[0] == '/',
        "/responses"@[1] == 'r',
        "/v1/models"@.len() == 10,
        "/v1/models"@[0] == '/',
        "/v1/models"@[1] == 'v',
        "User-Agent"@.len() == 10,
        "User-Agent"@[0] == 'U',
        "User-Agent"@[1] == 's',
        "user-agent"@.len() == 10,
        "user-agent"@[0] == 'u',
        "user-agent"@[1] == 's',
        "X-Initiator"@.len() == 11,
        "X-Initiator"@[0] == 'X',
        "input_image"@.len() == 11,
        "input_image"@[0] == 'i',
        "vscode-chat"@.len() == 11,
        "vscode-chat"@[0] == 'v',
        "/v1/messages"@.len() == 12,
        "/v1/messages"@[0] == '/',
        "X-Request-Id"@.len() == 12,
        "X-Request-Id"@[0] == 'X',
        "display_name"@.len() == 12,
        "display_name"@[0] == 'd',
        "model-access"@.len() == 12,
        "model-access"@[0] == 'm',
        "/v1/responses"@.len() == 13,
        "/v1/responses"@[0] == '/',
        "Authorization"@.len() == 13,
        "Authorization"@[0] == 'A',
        "Openai-Intent"@.len() == 13,
        "Openai-Intent"@[0] == 'O',
        "authorization"@.len() == 13,
        "authorization"@[0] == 'a',
        "function_call"@.len() == 13,
        "function_call"@[0] == 'f',
        "Editor-Version"@.len() == 14,
        "Editor-Version"@[0] == 'E',
        "context_window"@.len() == 14,
        "context_window"@[0] == 'c',
        "X-Interaction-Id"@.len() == 16,
        "/chat/completions"@.len() == 17,
        "X-Interaction-Type"@.len() == 18,
        "X-Interaction-Type"@[0] == 'X',
        "conversation-agent"@.len() == 18,
        "conversation-agent"@[0] == 'c',
        "supports_reasoning"@.len() == 18,
        "supports_reasoning"@[0] == 's',
        "/v1/chat/completions"@.len() == 20,
        "/v1/chat/completions"@[0] == '/',
        "X-GitHub-Api-Version"@.len() == 20,
        "X-GitHub-Api-Version"@[0] == 'X',
        "Editor-Plugin-Version"@.len() == 21,
        "Copilot-Integration-Id"@.len() == 22,
        "Copilot-Integration-Id"@[8] == 'I',
        "Copilot-Vision-Request"@.len() == 22,
        "Copilot-Vision-Request"@[8] == 'V',
{
    reveal_strlit("id");
    reveal_strlit("list");
    reveal_strlit("role");
    reveal_strlit("slug");
    reveal_strlit("tool");
    reveal_strlit("true");
    reveal_strlit("type");
    reveal_strlit("user");
    reveal_strlit("agent");
    reveal_strlit("error");
    reveal_strlit("image");
    reveal_strlit("input");
    reveal_strlit("accept");
    reveal_strlit("models");
    reveal_strlit("object");
    reveal_strlit("/models");
    reveal_strlit("content");
    reveal_strlit("message");
    reveal_strlit("messages");
    reveal_strlit("/messages");
    reveal_strlit("assistant");
    reveal_strlit("image_url");
    reveal_strlit("/responses");
    reveal_strlit("/v1/models");
    reveal_strlit("User-Agent");
    reveal_strlit("user-agent");
    reveal_strlit("X-Initiator");
    reveal_strlit("input_image");
    reveal_strlit("vscode-chat");
    reveal_strlit("/v1/messages");
    reveal_strlit("X-Request-Id");
    reveal_strlit("display_name");
    reveal_strlit("model-access");
    reveal_strlit("/v1/responses");
    reveal_strlit("Authorization");
    reveal_strlit("Openai-Intent");
    reveal_strlit("authorization");
    reveal_strlit("function_call");
    reveal_strlit("Editor-Version");
    reveal_strlit("context_window");
    reveal_strlit("X-Interaction-Id");
    reveal_strlit("/chat/completions");
    reveal_strlit("X-Interaction-Type");
    reveal_strlit("conversation-agent");
    reveal_strlit("supports_reasoning");
    reveal_strlit("/v1/chat/completions");
    reveal_strlit("X-GitHub-Api-Version");
    reveal_strlit("Editor-Plugin-Version");
    reveal_strlit("Copilot-Integration-Id");
    reveal_strlit("Copilot-Vision-Request");
}

// ---------------------------------------------------------------- the router

/// A tool is answered at the paths of the protocol, with or without the version, and at no other.
pub proof fn lemma_router_paths(path: Seq<char>)
    ensures
        crate::router::path_of(path) == RouterPath::Respond <==> path == "/responses"@ || path
            == "/v1/responses"@,
        crate::router::path_of(path) == RouterPath::Models <==> path == "/models"@ || path
            == "/v1/models"@,
{
    lemma_words();
}

/// A model is listed for the tool under its identifier and its name, with its window and its skill
/// to reason.
pub proof fn lemma_model_listed(m: ResolvedModelV)
    ensures
        ({
            let j = crate::router::codex_models(Some(m));
            &&& j.get_str("object"@) == Some("list"@)
            &&& (match j.get_array("models"@) {
                Some(a) => {
                    &&& a.len() == 1
                    &&& a[0].get_str("id"@) == Some(m.id)
                    &&& a[0].get_str("slug"@) == Some(m.id)
                    &&& a[0].get_str("display_name"@) == Some(m.name)
                    &&& a[0].get_bool("supports_reasoning"@) == Some(m.supports_reasoning)
                    &&& a[0].get_u64("context_window"@) == m.context_window
                },
                None => false,
            })
            &&& crate::router::codex_models(None).get_array("models"@) == Some(
                Seq::<JsonV>::empty(),
            )
        }),
{
    broadcast use crate::json::lemma_with_get;

    lemma_words();
    let item = crate::router::codex_model(m);
    let a = seq![item];
    assert(a[0] == item && a.len() == 1);
    assert(crate::router::codex_models(Some(m)).get("models"@) == Some(JsonV::Array(a)));
}

proof fn lemma_calls_told(calls: Seq<ToolCallV>, n: nat)
    requires
        n <= calls.len(),
    ensures
        ({
            let d = crate::router::calls_upto(calls, n);
            &&& d.len() == 2 * n
            &&& forall|i: int|
                0 <= i < n ==> #[trigger] told_at(d, 2 * i, i as usize, calls[i])
        }),
    decreases n,
{
    if n > 0 {
        let m = (n - 1) as nat;
        lemma_calls_told(calls, m);
        let before = crate::router::calls_upto(calls, m);
        let d = crate::router::calls_upto(calls, n);
        assert forall|i: int| 0 <= i < n implies #[trigger] told_at(
            d,
            2 * i,
            i as usize,
            calls[i],
        ) by {
            if i < m {
                assert(told_at(before, 2 * i, i as usize, calls[i]));
                assert(d[2 * i] == before[2 * i]);
                assert(d[2 * i + 1] == before[2 * i + 1]);
            }
        }
    }
}

/// Whether a call is told from a place on: first its name, then its arguments.
pub open spec fn told_at(d: Seq<DeltaV>, at: int, index: usize, c: ToolCallV) -> bool {
    &&& 0 <= at
    &&& at + 1 < d.len()
    &&& d[at] == (DeltaV::ToolCallStart { index, id: c.id, name: c.name })
    &&& d[at + 1] == (DeltaV::ToolCallDelta { index, arguments: c.arguments })
}

/// A whole response is told piece by piece: who answers; the thinking; the text; each call in
/// order, under its place; the token counts; and why it ended.
pub proof fn lemma_response_told(resp: AiResponseV)
    ensures
        ({
            let d = crate::router::deltas_of(resp);
            let thinking: int = if resp.reasoning_content is Some {
                1
            } else {
                0
            };
            let text: int = if resp.content.len() > 0 {
                1
            } else {
                0
            };
            let n = resp.tool_calls.len();
            &&& d.len() == 3 + thinking + text + 2 * n
            &&& d[0] == (DeltaV::MessageStart { id: resp.id, model: resp.model })
            &&& resp.reasoning_content matches Some(t) ==> d[1] == DeltaV::ThinkingDelta(t)
            &&& resp.content.len() > 0 ==> d[1 + thinking] == DeltaV::TextDelta(resp.content)
            &&& forall|i: int|
                0 <= i < n ==> call_told(d, 1 + thinking + text, i, #[trigger] resp.tool_calls[i])
            &&& d[d.len() - 2] == DeltaV::Usage(resp.usage)
            &&& d.last() == (DeltaV::Done {
                stop_reason: match resp.stop_reason {
                    Some(s) => s,
                    None => "stop"@,
                },
            })
        }),
{
    let n = resp.tool_calls.len();
    lemma_calls_told(resp.tool_calls, n);
    let c = crate::router::calls_upto(resp.tool_calls, n);
    let d = crate::router::deltas_of(resp);
    let thinking: int = if resp.reasoning_content is Some {
        1
    } else {
        0
    };
    let text: int = if resp.content.len() > 0 {
        1
    } else {
        0
    };
    let from = 1 + thinking + text;
    assert forall|i: int| 0 <= i < n implies call_told(
        d,
        1 + thinking + text,
        i,
        #[trigger] resp.tool_calls[i],
    ) by {
        assert(told_at(c, 2 * i, i as usize, resp.tool_calls[i]));
        assert(d[from + 2 * i] == c[2 * i]);
        assert(d[from + 2 * i + 1] == c[2 * i + 1]);
    }
}

/// Whether the `i`-th call is told among the calls that begin at a place.
pub open spec fn call_told(d: Seq<DeltaV>, from: int, i: int, c: ToolCallV) -> bool {
    told_at(d, from + 2 * i, i as usize, c)
}

// ---------------------------------------------------------------- the proxy

/// A request is sent on where its path belongs to the protocol that is spoken, with or without the
/// version; the list of models is answered only for the responses protocol; all else is refused,
/// with the path in the answer.
pub proof fn lemma_proxy_routes(path: Seq<char>)
    ensures
        ({
            let r = crate::copilot_proxy::route_of(ProxyMode::OpenaiResponses, path);
            let c = crate::copilot_proxy::route_of(ProxyMode::OpenaiChat, path);
            let a = crate::copilot_proxy::route_of(ProxyMode::AnthropicMessages, path);
            &&& path == "/responses"@ || path == "/v1/responses"@ ==> r == (ProxyRouteV::Forward {
                upstream_path: "/responses"@,
                anthropic: false,
            })
            &&& path == "/models"@ || path == "/v1/models"@ ==> r == ProxyRouteV::Models
            &&& r is Unsupported <==> path != "/responses"@ && path != "/v1/responses"@ && path
                != "/models"@ && path != "/v1/models"@
            &&& path == "/chat/completions"@ || path == "/v1/chat/completions"@ ==> c == (
            ProxyRouteV::Forward { upstream_path: "/chat/completions"@, anthropic: false })
            &&& c is Unsupported <==> path != "/chat/completions"@ && path
                != "/v1/chat/completions"@
            &&& path == "/messages"@ || path == "/v1/messages"@ ==> a == (ProxyRouteV::Forward {
                upstream_path: "/v1/messages"@,
                anthropic: true,
            })
            &&& a is Unsupported <==> path != "/messages"@ && path != "/v1/messages"@
            &&& r matches ProxyRouteV::Unsupported(j) ==> j.get2("error"@, "message"@) == Some(
                JsonV::Text("Unsupported proxy path "@ + path),
            )
        }),
{
    broadcast use crate::json::lemma_with_get;

    lemma_words();
    let inner = JsonV::obj().with("message"@, JsonV::Text("Unsupported proxy path "@ + path));
    assert(crate::copilot_proxy::unsupported(path).get("error"@) == Some(inner));
}

/// A fault of the proxy is told with its words.
pub proof fn lemma_proxy_fault(message: Seq<char>)
    ensures
        crate::copilot_proxy::proxy_error(message).get2("error"@, "message"@) == Some(
            JsonV::Text(message),
        ),
        crate::copilot_proxy::proxy_error(message).get2("error"@, "type"@) == Some(
            JsonV::Text("swcli_github_copilot_proxy_error"@),
        ),
{
    broadcast use crate::json::lemma_with_get;

    lemma_words();
    let inner = JsonV::obj().with("message"@, JsonV::Text(message)).with(
        "type"@,
        JsonV::Text("swcli_github_copilot_proxy_error"@),
    );
    assert(crate::copilot_proxy::proxy_error(message).get("error"@) == Some(inner));
}

/// The bytes of an end of a line and of a blank line behind it.
pub open spec fn blank_line() -> Seq<u8> {
    seq![13u8, 10u8, 13u8, 10u8]
}

proof fn lemma_end(b: Seq<u8>, i: int)
    requires
        0 <= i,
    ensures
        match crate::copilot_proxy::end_from(b, i) {
            Some(e) => i <= e && e + 4 <= b.len() && b.subrange(e, e + 4) == blank_line() && forall|j: int|
                i <= j < e ==> #[trigger] b.subrange(j, j + 4) != blank_line(),
            None => forall|j: int|
                i <= j <= b.len() - 4 ==> #[trigger] b.subrange(j, j + 4) != blank_line(),
        },
    decreases b.len() - i,
{
    if i + 4 <= b.len() {
        lemma_end(b, i + 1);
        let s = b.subrange(i, i + 4);
        let blank = blank_line();
        if crate::copilot_proxy::blank_at(b, i) {
            assert(s =~= blank);
        } else {
            assert(s[0] == b[i] && s[1] == b[i + 1] && s[2] == b[i + 2] && s[3] == b[i + 3]);
            assert(blank[0] == 13 && blank[1] == 10 && blank[2] == 13 && blank[3] == 10);
        }
    }
}

/// A request is whole once the bytes behind the first blank line are as many as its head promises:
/// these are its body, and its path is the one of the head. Before that, just as many more are
/// read as are missing.
pub proof fn lemma_request_read(head: Seq<u8>, rest: Seq<u8>, len: usize)
    requires
        forall|j: int|
            0 <= j < head.len() ==> #[trigger] (head + blank_line() + rest).subrange(
                j,
                j + 4,
            ) != blank_line(),
        crate::copilot_proxy::length_of(crate::copilot_proxy::lossy_text(head)) == Ok::<
            usize,
            Seq<char>,
        >(len),
        head.len() + 4 + len <= usize::MAX,
    ensures
        ({
            let b = head + blank_line() + rest;
            let path = crate::copilot_proxy::path_of(crate::copilot_proxy::lossy_text(head));
            &&& rest.len() >= len ==> crate::copilot_proxy::read_of(b, false) == (ReadStepV::Done {
                path,
                body: rest.take(len as int),
            })
            &&& rest.len() < len ==> crate::copilot_proxy::read_of(b, false) == ReadStepV::Read(
                len - rest.len(),
            )
        }),
{
    let blank = blank_line();
    let b = head + blank + rest;
    let at = head.len() as int;
    lemma_end(b, 0);
    assert(b.subrange(at, at + 4) =~= blank);
    let e = crate::copilot_proxy::end_from(b, 0);
    assert(e is Some) by {
        if e is None {
            assert(b.subrange(at, at + 4) != blank);
        }
    }
    assert(e->0 == at) by {
        if e->0 < at {
            assert(b.subrange(e->0, e->0 + 4) != blank);
        }
        if e->0 > at {
            assert(b.subrange(at, at + 4) != blank);
        }
    }
    assert(b.take(at) =~= head);
    if rest.len() >= len {
        assert(b.subrange(at + 4, at + 4 + len) =~= rest.take(len as int));
    }
}

/// Without a blank line, more is read as long as the head may still come; a head that is cut off or
/// too long is refused.
pub proof fn lemma_head_read(b: Seq<u8>)
    requires
        forall|j: int|
            0 <= j <= b.len() - 4 ==> #[trigger] b.subrange(j, j + 4) != blank_line(),
    ensures
        crate::copilot_proxy::read_of(b, true) is Failed,
        b.len() > 1048576 ==> crate::copilot_proxy::read_of(b, false) is Failed,
        b.len() <= 1048576 ==> crate::copilot_proxy::read_of(b, false) == ReadStepV::Read(4096),
{
    lemma_end(b, 0);
}

/// How many bytes a head promises: the number in the first line that is named for it, in whatever
/// case; none where no line is.
pub proof fn lemma_length_promised(
    headers: Seq<char>,
    i: int,
    name: Seq<char>,
    value: Seq<char>,
)
    requires
        ({
            let lines = crate::text::lines_of(headers);
            &&& 0 <= i < lines.len()
            &&& crate::text::cut(lines[i], ":"@) == Some((name, value))
            &&& crate::text::lower_of(name) == crate::text::lower_of("content-length"@)
            &&& forall|j: int|
                0 <= j < i ==> match crate::text::cut(#[trigger] lines[j], ":"@) {
                    Some((n, _)) => crate::text::lower_of(n) != crate::text::lower_of(
                        "content-length"@,
                    ),
                    None => true,
                }
        }),
    ensures
        match crate::text::parsed(crate::text::trim_of(value)) {
            Some(n) => n <= usize::MAX ==> crate::copilot_proxy::length_of(headers) == Ok::<
                usize,
                Seq<char>,
            >(n as usize),
            None => crate::copilot_proxy::length_of(headers) is Err,
        },
{
    lemma_length_from(crate::text::lines_of(headers), 0, i, name, value);
}

proof fn lemma_length_from(
    lines: Seq<Seq<char>>,
    from: int,
    i: int,
    name: Seq<char>,
    value: Seq<char>,
)
    requires
        0 <= from <= i < lines.len(),
        crate::text::cut(lines[i], ":"@) == Some((name, value)),
        crate::text::lower_of(name) == crate::text::lower_of("content-length"@),
        forall|j: int|
            0 <= j < i ==> match crate::text::cut(#[trigger] lines[j], ":"@) {
                Some((n, _)) => crate::text::lower_of(n) != crate::text::lower_of(
                    "content-length"@,
                ),
                None => true,
            },
    ensures
        crate::copilot_proxy::length_from(lines, from) == Some(crate::text::trim_of(value)),
    decreases i - from,
{
    if from < i {
        lemma_length_from(lines, from + 1, i, name, value);
    }
}

/// An answer says its status, its type and the length of its body in bytes, each in its line, and
/// then the body.
pub proof fn lemma_answer(status: u16, kind: Seq<char>, body: Seq<char>)
    ensures
        ({
            let t = crate::copilot_proxy::answer_text(status, kind, body);
            let words = if status == 200 {
                "OK"@
            } else if status == 404 {
                "Not Found"@
            } else if status == 500 {
                "Internal Server Error"@
            } else {
                "Upstream"@
            };
            let n = vstd::utf8::encode_utf8(body).len();
            t == "HTTP/1.1 "@ + crate::text::decimal(status as nat) + " "@ + words
                + "\r\ncontent-type: "@ + kind + "\r\ncontent-length: "@ + crate::text::decimal(n)
                + "\r\nconnection: close\r\n\r\n"@ + body
        }),
{
}

// ---------------------------------------------------------------- headers

/// Whether a header is sent.
pub open spec fn sends(h: Seq<(Seq<char>, Seq<char>)>, name: Seq<char>, value: Seq<char>) -> bool {
    &&& exists|i: int| 0 <= i < h.len() && #[trigger] h[i] == (name, value)
    &&& forall|i: int| 0 <= i < h.len() && (#[trigger] h[i]).0 == name ==> h[i].1 == value
}

/// Whether no header of a name is sent.
pub open spec fn lacks(h: Seq<(Seq<char>, Seq<char>)>, name: Seq<char>) -> bool {
    forall|i: int| 0 <= i < h.len() ==> (#[trigger] h[i]).0 != name
}

/// What is sent with a conversation: the token, the two identifiers, who speaks last, and, only
/// where there is one, that there is an image.
#[verifier::rlimit(60)]
pub proof fn lemma_conversation_headers(
    token: Seq<char>,
    body: Option<JsonV>,
    interaction: Seq<char>,
    request: Seq<char>,
)
    ensures
        ({
            let h = crate::github_copilot::conversation_header_list(
                token,
                body,
                interaction,
                request,
            );
            let (vision, agent) = crate::github_copilot::metadata(body);
            &&& sends(h, "Authorization"@, "Bearer "@ + token)
            &&& sends(h, "X-Interaction-Id"@, interaction)
            &&& sends(h, "X-Request-Id"@, request)
            &&& agent ==> sends(h, "X-Initiator"@, "agent"@)
            &&& !agent ==> sends(h, "X-Initiator"@, "user"@)
            &&& vision ==> sends(h, "Copilot-Vision-Request"@, "true"@)
            &&& !vision ==> lacks(h, "Copilot-Vision-Request"@)
            &&& sends(h, "Copilot-Integration-Id"@, "vscode-chat"@)
            &&& sends(h, "Openai-Intent"@, "conversation-agent"@)
        }),
{
    lemma_words();
    let h = crate::github_copilot::conversation_header_list(token, body, interaction, request);
    let (vision, agent) = crate::github_copilot::metadata(body);
    assert(h.len() == if vision {
        12int
    } else {
        11
    });
    assert(h[0] == ("Authorization"@, "Bearer "@ + token));
    assert(h[1].0 == "User-Agent"@);
    assert(h[2].0 == "Editor-Version"@);
    assert(h[3].0 == "Editor-Plugin-Version"@);
    assert(h[4] == ("Copilot-Integration-Id"@, "vscode-chat"@));
    assert(h[5] == ("Openai-Intent"@, "conversation-agent"@));
    assert(h[6].0 == "X-GitHub-Api-Version"@);
    assert(h[7].0 == "X-Initiator"@);
    assert(h[8] == ("X-Interaction-Id"@, interaction));
    assert(h[9].0 == "X-Interaction-Type"@);
    assert(h[10] == ("X-Request-Id"@, request));
    if vision {
        assert(h[11] == ("Copilot-Vision-Request"@, "true"@));
    }
}

/// The agent speaks last where the last message is the assistant's or a tool's, or the last item is
/// the assistant's or a call or its output.
pub proof fn lemma_who_speaks_last(m: Seq<JsonV>, body: JsonV)
    requires
        m.len() > 0,
    ensures
        body.get("messages"@) == Some(JsonV::Array(m)) ==> (crate::github_copilot::metadata(
            Some(body),
        ).1 <==> m.last().get_str("role"@) == Some("assistant"@) || m.last().get_str("role"@)
            == Some("tool"@)),
        body.get("messages"@) is None && body.get("input"@) == Some(JsonV::Array(m)) ==> {
            &&& m.last().get_str("role"@) == Some("assistant"@) ==> crate::github_copilot::metadata(
                Some(body),
            ).1
            &&& m.last().get_str("type"@) == Some("function_call"@) || m.last().get_str("type"@)
                == Some("function_call_output"@) ==> crate::github_copilot::metadata(Some(body)).1
            &&& m.last().get_str("role"@) == Some("user"@) && m.last().get("type"@) is None
                ==> !crate::github_copilot::metadata(Some(body)).1
        },
{
    lemma_words();
    let kinds = crate::github_copilot::agent_kinds();
    assert(kinds[4] == "function_call"@);
    assert(kinds[5] == "function_call_output"@);
}

/// There is an image where any message has a part of that type.
pub proof fn lemma_image_seen(m: Seq<JsonV>, body: JsonV, parts: Seq<JsonV>, i: int, j: int)
    requires
        0 <= i < m.len(),
        0 <= j < parts.len(),
        m[i].get("content"@) == Some(JsonV::Array(parts)),
    ensures
        body.get("messages"@) == Some(JsonV::Array(m)) && (parts[j].get_str("type"@) == Some(
            "image_url"@,
        ) || parts[j].get_str("type"@) == Some("image"@)) ==> crate::github_copilot::metadata(
            Some(body),
        ).0,
        body.get("messages"@) is None && body.get("input"@) == Some(JsonV::Array(m))
            && parts[j].get_str("type"@) == Some("input_image"@) ==> crate::github_copilot::metadata(
            Some(body),
        ).0,
{
    lemma_words();
    if parts[j].get_str("type"@) == Some("image_url"@) {
        assert(crate::github_copilot::has_part(m[i], "image_url"@));
    }
    if parts[j].get_str("type"@) == Some("image"@) {
        assert(crate::github_copilot::has_part(m[i], "image"@));
    }
    if parts[j].get_str("type"@) == Some("input_image"@) {
        assert(crate::github_copilot::has_part(m[i], "input_image"@));
    }
}

/// What is sent to list the models: the token and an identifier of the request.
#[verifier::rlimit(40)]
pub proof fn lemma_model_headers(token: Seq<char>, request: Seq<char>)
    ensures
        ({
            let h = crate::github_copilot::model_header_list(token, request);
            &&& sends(h, "authorization"@, "Bearer "@ + token)
            &&& sends(h, "X-Request-Id"@, request)
            &&& sends(h, "Openai-Intent"@, "model-access"@)
            &&& sends(h, "Copilot-Integration-Id"@, "vscode-chat"@)
        }),
{
    lemma_words();
    let h = crate::github_copilot::model_header_list(token, request);
    assert(h.len() == 10);
    assert(h[0].0 == "accept"@);
    assert(h[1] == ("authorization"@, "Bearer "@ + token));
    assert(h[2].0 == "user-agent"@);
    assert(h[3].0 == "Editor-Version"@);
    assert(h[4].0 == "Editor-Plugin-Version"@);
    assert(h[5] == ("Copilot-Integration-Id"@, "vscode-chat"@));
    assert(h[6] == ("Openai-Intent"@, "model-access"@));
    assert(h[7].0 == "X-GitHub-Api-Version"@);
    assert(h[8].0 == "X-Interaction-Type"@);
    assert(h[9] == ("X-Request-Id"@, request));
}

} // verus!
