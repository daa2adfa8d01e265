//! What the provider can rely on in every request.

use vstd::prelude::*;

use crate::encode::RESPOND_TOOL_NAME;
use crate::json::{Json, JsonView};
use crate::normalized::{Message, NormalizedChatRequest, Role, ToolCall};

verus! {

/// The names of the fields of a body are different ones.
proof fn lemma_names_differ()
    ensures
        "model"@ != "max_tokens"@,
        "model"@ != "system"@,
        "model"@ != "messages"@,
        "model"@ != "tools"@,
        "model"@ != "tool_choice"@,
        "model"@ != "temperature"@,
        "model"@ != "top_p"@,
        "max_tokens"@ != "system"@,
        "max_tokens"@ != "messages"@,
        "max_tokens"@ != "tools"@,
        "max_tokens"@ != "tool_choice"@,
        "max_tokens"@ != "temperature"@,
        "max_tokens"@ != "top_p"@,
        "system"@ != "messages"@,
        "system"@ != "tools"@,
        "system"@ != "tool_choice"@,
        "system"@ != "temperature"@,
        "system"@ != "top_p"@,
        "messages"@ != "tools"@,
        "messages"@ != "tool_choice"@,
        "messages"@ != "temperature"@,
        "messages"@ != "top_p"@,
        "tools"@ != "tool_choice"@,
        "tools"@ != "temperature"@,
        "tools"@ != "top_p"@,
        "tool_choice"@ != "temperature"@,
        "tool_choice"@ != "top_p"@,
        "temperature"@ != "top_p"@,
{
    reveal_strlit("model");
    reveal_strlit("max_tokens");
    reveal_strlit("system");
    reveal_strlit("messages");
    reveal_strlit("tools");
    reveal_strlit("tool_choice");
    reveal_strlit("temperature");
    reveal_strlit("top_p");
    assert("model"@[0] != "tools"@[0]);
    assert("model"@[0] != "top_p"@[0]);
    assert("tools"@[2] != "top_p"@[2]);
    assert("tool_choice"@[1] != "temperature"@[1]);
    assert("model"@.len() == 5 && "tools"@.len() == 5 && "top_p"@.len() == 5);
    assert("system"@.len() == 6);
    assert("messages"@.len() == 8);
    assert("max_tokens"@.len() == 10);
    assert("tool_choice"@.len() == 11 && "temperature"@.len() == 11);
}

/// Every field of a body, and where it comes from. The model, the limit on tokens and the turns are
/// always there; the rest is there where the request has it. There is no other field.
pub proof fn law_fields_of_a_body(request: NormalizedChatRequest)
    ensures
        ({
            let body = JsonView::Object(crate::encode::body_fields(request));
            &&& body.field("model"@) == Some(JsonView::Str(request.model@))
            &&& body.field("max_tokens"@) == Some(
                crate::encode::token_limit(request.max_completion_tokens),
            )
            &&& body.field("messages"@) == Some(
                JsonView::Array(crate::encode::turns(request.messages@)),
            )
            &&& body.field("system"@) == (match crate::encode::system_prompt(request.messages@) {
                Some(prompt) => Some(JsonView::Str(prompt)),
                None => None,
            })
            &&& body.field("tools"@) == (if request.tools@.len() > 0 || request.response_schema is Some {
                Some(
                    JsonView::Array(
                        crate::encode::tool_entries(request.tools@, request.response_schema),
                    ),
                )
            } else {
                None
            })
            &&& body.field("tool_choice"@) == crate::encode::choice_of(
                request.response_schema is Some,
                request.tools@.len() > 0,
                request.tool_choice,
            )
            &&& body.field("temperature"@) == crate::encode::opt_json(request.temperature)
            &&& body.field("top_p"@) == crate::encode::opt_json(request.top_p)
            &&& forall|name: Seq<char>| #[trigger]
                body.field(name) is Some ==> name == "model"@ || name == "max_tokens"@ || name
                    == "messages"@ || name == "system"@ || name == "tools"@ || name
                    == "tool_choice"@ || name == "temperature"@ || name == "top_p"@
        }),
{
    lemma_names_differ();
}

/// A body to be streamed is the body with one field more.
pub proof fn law_streaming_adds_one_field(request: NormalizedChatRequest)
    ensures
        crate::encode::encoded_stream(request) == (match crate::encode::encoded(request) {
            Ok(JsonView::Object(fields)) => Ok(
                JsonView::Object(fields.insert("stream"@, JsonView::Bool(true))),
            ),
            other => other,
        }),
{
}

/// Neither the seed nor the wish for strictness is sent: the Messages API has no place for them.
pub proof fn law_seed_and_strictness_are_dropped(
    request: NormalizedChatRequest,
    seed: Option<u64>,
    strict_response: bool,
)
    ensures
        crate::encode::encoded(NormalizedChatRequest { seed, strict_response, ..request })
            == crate::encode::encoded(request),
        crate::encode::encoded_stream(NormalizedChatRequest { seed, strict_response, ..request })
            == crate::encode::encoded_stream(request),
{
}

/// Every message is either part of the system prompt or a turn, and every turn is one of the user
/// or of the assistant.
pub proof fn law_every_message_has_one_place(messages: Seq<Message>)
    ensures
        crate::encode::turns(messages).len() + crate::encode::system_texts(messages).len()
            == messages.len(),
        forall|i: int|
            0 <= i < crate::encode::turns(messages).len() ==> {
                let role = (#[trigger] crate::encode::turns(messages)[i]).text_field("role"@);
                role == Some("user"@) || role == Some("assistant"@)
            },
    decreases messages.len(),
{
    if messages.len() > 0 {
        law_every_message_has_one_place(messages.drop_last());
        reveal_strlit("role");
        reveal_strlit("content");
        assert("role"@.len() != "content"@.len());
        let turns = crate::encode::turns(messages);
        let before = crate::encode::turns(messages.drop_last());
        assert forall|i: int| 0 <= i < turns.len() implies {
            let role = (#[trigger] turns[i]).text_field("role"@);
            role == Some("user"@) || role == Some("assistant"@)
        } by {
            if i < before.len() {
                assert(turns[i] == before[i]);
            } else {
                assert(turns[i] == crate::encode::message_turn(messages.last()));
            }
        }
    }
}

/// A system message is not a turn: the turns are those of the other messages alone.
pub proof fn law_turns_ignore_system_messages(messages: Seq<Message>)
    ensures
        crate::encode::turns(messages) == crate::encode::turns(
            messages.filter(|message: Message| message.role != Role::System),
        ),
    decreases messages.len(),
{
    let keeps = |message: Message| message.role != Role::System;
    reveal(Seq::filter);
    if messages.len() > 0 {
        let head = messages.drop_last();
        law_turns_ignore_system_messages(head);
        if keeps(messages.last()) {
            let kept = head.filter(keeps);
            assert(kept.push(messages.last()).drop_last() =~= kept);
        }
    }
}

/// An assistant turn is never without a block.
pub proof fn law_assistant_turns_are_not_empty(text: Seq<char>, calls: Seq<ToolCall>)
    ensures
        crate::encode::assistant_blocks(text, calls).len() > 0,
{
}

/// The entries of a tool definition.
proof fn lemma_tool_entry_fields(name: Seq<char>, description: Seq<char>, schema: JsonView)
    ensures
        crate::encode::tool_entry(name, description, schema).text_field("name"@) == Some(name),
        crate::encode::tool_entry(name, description, schema).text_field("description"@) == Some(
            description,
        ),
        crate::encode::tool_entry(name, description, schema).field("input_schema"@) == Some(schema),
{
    reveal_strlit("name");
    reveal_strlit("description");
    reveal_strlit("input_schema");
    assert("name"@.len() == 4);
    assert("description"@.len() == 11);
    assert("input_schema"@.len() == 12);
}

/// With an output schema the model is offered, behind the operator's tools, one tool called
/// `respond` whose input is what the schema describes. It is the only one of that name. It is
/// forced where it is the only tool, and one choice among others where it is not.
pub proof fn law_schema_becomes_a_tool(request: NormalizedChatRequest, schema: Json)
    requires
        request.response_schema == Some(schema),
        !crate::encode::some_shadowed(request.tools@),
    ensures
        ({
            let entries = crate::encode::tool_entries(request.tools@, request.response_schema);
            let n = request.tools@.len() as int;
            &&& entries.len() == n + 1
            &&& entries[n].text_field("name"@) == Some(RESPOND_TOOL_NAME@)
            &&& entries[n].field("input_schema"@) == Some(schema@)
            &&& forall|i: int|
                0 <= i < n ==> (#[trigger] entries[i]).text_field("name"@) == Some(
                    request.tools@[i].name@,
                ) && entries[i].text_field("name"@) != Some(RESPOND_TOOL_NAME@)
            &&& crate::encode::body_fields(request)["tool_choice"@].text_field("type"@) == Some(
                if n == 0 {
                    "tool"@
                } else {
                    "auto"@
                },
            )
            &&& n == 0 ==> crate::encode::body_fields(request)["tool_choice"@].text_field("name"@)
                == Some(RESPOND_TOOL_NAME@)
        }),
{
    law_fields_of_a_body(request);
    let entries = crate::encode::tool_entries(request.tools@, request.response_schema);
    let n = request.tools@.len() as int;
    assert(entries[n] == crate::encode::respond_entry(schema@));
    lemma_tool_entry_fields(
        RESPOND_TOOL_NAME@,
        "Return your final structured response. Call this tool exactly once when you have the answer."@,
        schema@,
    );
    assert forall|i: int| 0 <= i < n implies (#[trigger] entries[i]).text_field("name"@) == Some(
        request.tools@[i].name@,
    ) && entries[i].text_field("name"@) != Some(RESPOND_TOOL_NAME@) by {
        let tool = request.tools@[i];
        assert(entries[i] == crate::encode::tool_def_entry(tool));
        lemma_tool_entry_fields(tool.name@, tool.description@, tool.parameters@);
        assert(!crate::encode::is_shadowed(request.tools@[i]));
    }
    reveal_strlit("type");
    reveal_strlit("name");
    assert("type"@[0] != "name"@[0]);
    let body = JsonView::Object(crate::encode::body_fields(request));
    assert(body.field("tool_choice"@) is Some);
}

/// Without a schema and without tools nothing is said of tools.
pub proof fn law_no_tools_no_fields(request: NormalizedChatRequest)
    requires
        request.response_schema is None,
        request.tools@.len() == 0,
    ensures
        !crate::encode::body_fields(request).contains_key("tools"@),
        !crate::encode::body_fields(request).contains_key("tool_choice"@),
{
    law_fields_of_a_body(request);
    let body = JsonView::Object(crate::encode::body_fields(request));
    assert(body.field("tools"@) is None);
    assert(body.field("tool_choice"@) is None);
}

/// A tool call that the model made is sent back as the block that it was read from: reading the
/// block gives the call again.
pub proof fn law_tool_calls_go_both_ways(call: ToolCall)
    ensures
        crate::decode::block_kind(crate::encode::tool_use_block(call)) == "tool_use"@,
        crate::decode::block_call(crate::encode::tool_use_block(call)) == call@,
{
    reveal_strlit("type");
    reveal_strlit("id");
    reveal_strlit("name");
    reveal_strlit("input");
    assert("type"@[0] != "name"@[0]);
    assert("type"@.len() == 4 && "name"@.len() == 4 && "id"@.len() == 2 && "input"@.len() == 5);
}

/// The address of the endpoint has no slash too many: what is left of a base address does not end
/// in one, and it makes no difference how many it ended in.
pub proof fn law_slashes_are_dropped(base_url: Seq<char>)
    ensures
        ({
            let kept = crate::text::trimmed_end(base_url, '/');
            &&& kept.len() > 0 ==> kept.last() != '/'
            &&& crate::text::trimmed_end(base_url.push('/'), '/') == kept
        }),
    decreases base_url.len(),
{
    assert(base_url.push('/').drop_last() =~= base_url);
    if base_url.len() > 0 && base_url.last() == '/' {
        law_slashes_are_dropped(base_url.drop_last());
    }
}

} // verus!
