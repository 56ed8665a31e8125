//! The request that the streaming chat service takes: the next user message with its context,
//! and the conversation so far. The service does not take images inside tool results, so
//! building the request pulls them out to sit beside the message.

use vstd::prelude::*;

use crate::agent_loop::ToolSpec;
use crate::path_util::opt_view;
use crate::messages::{
    content_text, content_tool_results, content_tool_uses, non_empty, result_images, role_name, same_image, same_images,
    ContentBlock, ImageBlock, Message, Role, ToolResultBlock, ToolResultContentBlock, ToolResultStatus, ToolUseBlock,
};

verus! {

/// One piece of a tool result as the service takes it: images are carried elsewhere.
#[derive(Debug)]
pub enum RtsToolResultContent {
    Text(String),
    Json(serde_json::Value),
}

/// A tool result as the service takes it.
#[derive(Debug)]
pub struct RtsToolResult {
    pub tool_use_id: String,
    pub content: Vec<RtsToolResultContent>,
    pub status: ToolResultStatus,
}

/// The context sent with a user message: tool results and the tools on offer.
#[derive(Debug)]
pub struct UserInputMessageContext {
    pub tool_results: Option<Vec<RtsToolResult>>,
    pub tools: Option<Vec<ToolSpec>>,
}

/// A user message as the service takes it.
#[derive(Debug)]
pub struct UserInputMessage {
    pub content: String,
    pub user_input_message_context: Option<UserInputMessageContext>,
    pub images: Option<Vec<ImageBlock>>,
    pub model_id: Option<String>,
}

/// A reply of the assistant as the service takes it.
#[derive(Debug)]
pub struct AssistantResponseMessage {
    pub message_id: Option<String>,
    pub content: String,
    pub tool_uses: Option<Vec<ToolUseBlock>>,
}

/// A message of the conversation so far.
#[derive(Debug)]
pub enum ChatMessage {
    UserInputMessage(UserInputMessage),
    AssistantResponseMessage(AssistantResponseMessage),
}

/// A whole request: the conversation's id, the next user message and the history before it.
#[derive(Debug)]
pub struct ConversationState {
    pub conversation_id: Option<String>,
    pub user_input_message: UserInputMessage,
    pub history: Option<Vec<ChatMessage>>,
}

/// The pieces of a tool result that are not images, in order.
pub open spec fn result_parts(c: Seq<ToolResultContentBlock>) -> Seq<ToolResultContentBlock>
    decreases c.len(),
{
    if c.len() == 0 {
        Seq::empty()
    } else {
        match c.last() {
            ToolResultContentBlock::Image(_) => result_parts(c.drop_last()),
            b => result_parts(c.drop_last()).push(b),
        }
    }
}

/// Whether a piece of a tool result, as the service takes it, holds what `b` holds.
pub open spec fn part_matches(r: RtsToolResultContent, b: ToolResultContentBlock) -> bool {
    match (r, b) {
        (RtsToolResultContent::Text(x), ToolResultContentBlock::Text(y)) => x@ == y@,
        (RtsToolResultContent::Json(x), ToolResultContentBlock::Json(y)) => x == y,
        _ => false,
    }
}

/// Whether the tool result `r`, as the service takes it, is the tool result `b` without its
/// images.
pub open spec fn result_matches(r: RtsToolResult, b: ToolResultBlock) -> bool {
    let parts = result_parts(b.content@);
    &&& r.tool_use_id@ == b.tool_use_id@
    &&& r.status == b.status
    &&& r.content@.len() == parts.len()
    &&& forall|i: int| 0 <= i < parts.len() ==> part_matches(#[trigger] r.content@[i], parts[i])
}

/// Whether the tool results `rs`, as the service takes them, are the tool results `bs` in order.
pub open spec fn results_match(rs: Seq<RtsToolResult>, bs: Seq<ToolResultBlock>) -> bool {
    rs.len() == bs.len() && forall|i: int| 0 <= i < bs.len() ==> result_matches(#[trigger] rs[i], bs[i])
}

/// The images a message carries, in order: those inside its tool results and those of its own.
pub open spec fn carried_images(c: Seq<ContentBlock>) -> Seq<ImageBlock>
    decreases c.len(),
{
    if c.len() == 0 {
        Seq::empty()
    } else {
        match c.last() {
            ContentBlock::ToolResult(b) => carried_images(c.drop_last()) + result_images(b.content@),
            ContentBlock::Image(i) => carried_images(c.drop_last()).push(i),
            _ => carried_images(c.drop_last()),
        }
    }
}

/// Whether `res` is the tool results (without images) and the images of the content `c`, each
/// `None` when there are none.
pub open spec fn is_extraction(res: (Option<Vec<RtsToolResult>>, Option<Vec<ImageBlock>>), c: Seq<ContentBlock>) -> bool {
    &&& match res.0 {
        Some(v) => content_tool_results(c).len() > 0 && results_match(v@, content_tool_results(c)),
        None => content_tool_results(c).len() == 0,
    }
    &&& match res.1 {
        Some(v) => carried_images(c).len() > 0 && same_images(v@, carried_images(c)),
        None => carried_images(c).len() == 0,
    }
}

fn copy_image(img: &ImageBlock) -> (res: ImageBlock)
    ensures
        same_image(res, *img),
{
    img.clone()
}

/// Converts one tool result, pushing its images onto `images`.
fn split_tool_result(block: &ToolResultBlock, images: &mut Vec<ImageBlock>) -> (res: RtsToolResult)
    ensures
        result_matches(res, *block),
        final(images)@.len() == old(images)@.len() + result_images(block.content@).len(),
        forall|k: int| 0 <= k < old(images)@.len() ==> same_image(#[trigger] final(images)@[k], old(images)@[k]),
        forall|k: int| 0 <= k < result_images(block.content@).len() ==> same_image(
            #[trigger] final(images)@[old(images)@.len() + k],
            result_images(block.content@)[k],
        ),
{
    let ghost start = images@;
    let mut content: Vec<RtsToolResultContent> = Vec::new();
    let mut i: usize = 0;
    while i < block.content.len()
        invariant
            i <= block.content.len(),
            content@.len() == result_parts(block.content@.take(i as int)).len(),
            forall|k: int| 0 <= k < content@.len() ==> part_matches(#[trigger] content@[k], result_parts(block.content@.take(i as int))[k]),
            images@.len() == start.len() + result_images(block.content@.take(i as int)).len(),
            forall|k: int| 0 <= k < start.len() ==> same_image(#[trigger] images@[k], start[k]),
            forall|k: int| 0 <= k < result_images(block.content@.take(i as int)).len() ==> same_image(
                #[trigger] images@[start.len() + k],
                result_images(block.content@.take(i as int))[k],
            ),
        decreases block.content.len() - i,
    {
        let ghost prev_parts = result_parts(block.content@.take(i as int));
        let ghost prev_images = result_images(block.content@.take(i as int));
        proof {
            assert(block.content@.take(i + 1).drop_last() =~= block.content@.take(i as int));
            assert(block.content@.take(i + 1).last() == block.content@[i as int]);
        }
        match &block.content[i] {
            ToolResultContentBlock::Text(t) => {
                content.push(RtsToolResultContent::Text(t.clone()));
                proof {
                    assert(result_parts(block.content@.take(i + 1)) == prev_parts.push(block.content@[i as int]));
                    assert(result_images(block.content@.take(i + 1)) == prev_images);
                }
            },
            ToolResultContentBlock::Json(v) => {
                content.push(RtsToolResultContent::Json(v.clone()));
                proof {
                    assert(result_parts(block.content@.take(i + 1)) == prev_parts.push(block.content@[i as int]));
                    assert(result_images(block.content@.take(i + 1)) == prev_images);
                }
            },
            ToolResultContentBlock::Image(img) => {
                images.push(copy_image(img));
                proof {
                    assert(result_parts(block.content@.take(i + 1)) == prev_parts);
                    assert(result_images(block.content@.take(i + 1)) == prev_images.push(*img));
                    assert forall|k: int| 0 <= k < result_images(block.content@.take(i + 1)).len() implies same_image(
                        #[trigger] images@[start.len() + k],
                        result_images(block.content@.take(i + 1))[k],
                    ) by {
                        if k < prev_images.len() {
                            assert(result_images(block.content@.take(i + 1))[k] == prev_images[k]);
                        }
                    }
                }
            },
        }
        i = i + 1;
    }
    proof {
        assert(block.content@.take(block.content.len() as int) =~= block.content@);
    }
    RtsToolResult { tool_use_id: block.tool_use_id.clone(), content, status: block.status }
}

/// Splits a message's content into its tool results, without their images, and all the images
/// it carries (see [is_extraction]).
pub fn extract_tool_results_and_images(message: &Message) -> (res: (Option<Vec<RtsToolResult>>, Option<Vec<ImageBlock>>))
    ensures
        is_extraction(res, message.content@),
{
    let ghost c = message.content@;
    let mut images: Vec<ImageBlock> = Vec::new();
    let mut tool_results: Vec<RtsToolResult> = Vec::new();
    let mut i: usize = 0;
    while i < message.content.len()
        invariant
            i <= message.content.len(),
            c == message.content@,
            results_match(tool_results@, content_tool_results(c.take(i as int))),
            same_images(images@, carried_images(c.take(i as int))),
        decreases message.content.len() - i,
    {
        let ghost prev_results = content_tool_results(c.take(i as int));
        let ghost prev_images = carried_images(c.take(i as int));
        proof {
            assert(c.take(i + 1).drop_last() =~= c.take(i as int));
            assert(c.take(i + 1).last() == c[i as int]);
        }
        match &message.content[i] {
            ContentBlock::ToolResult(block) => {
                let ghost before = images@;
                let r = split_tool_result(block, &mut images);
                tool_results.push(r);
                proof {
                    assert(content_tool_results(c.take(i + 1)) == prev_results.push(*block));
                    assert(carried_images(c.take(i + 1)) == prev_images + result_images(block.content@));
                    assert forall|k: int| 0 <= k < prev_results.len() + 1 implies result_matches(
                        #[trigger] tool_results@[k],
                        prev_results.push(*block)[k],
                    ) by {}
                    assert forall|k: int| 0 <= k < images@.len() implies same_image(
                        #[trigger] images@[k],
                        (prev_images + result_images(block.content@))[k],
                    ) by {
                        if k >= before.len() {
                            assert(images@[before.len() + (k - before.len())] == images@[k]);
                        }
                    }
                }
            },
            ContentBlock::Image(img) => {
                images.push(copy_image(img));
                proof {
                    assert(content_tool_results(c.take(i + 1)) == prev_results);
                    assert(carried_images(c.take(i + 1)) == prev_images.push(*img));
                }
            },
            _ => {
                proof {
                    assert(content_tool_results(c.take(i + 1)) == prev_results);
                    assert(carried_images(c.take(i + 1)) == prev_images);
                }
            },
        }
        i = i + 1;
    }
    proof {
        assert(c.take(c.len() as int) =~= c);
    }
    let results = if tool_results.len() == 0 {
        None
    } else {
        Some(tool_results)
    };
    let imgs = if images.len() == 0 {
        None
    } else {
        Some(images)
    };
    (results, imgs)
}

/// Whether `e` is the history entry of the message `m`: a user message keeps its text and, when
/// it has tool results, carries them (without images) in its context; an assistant message keeps
/// its id, its text and its tool uses.
pub open spec fn is_history_entry(e: ChatMessage, m: Message) -> bool {
    match m.role {
        Role::User => e matches ChatMessage::UserInputMessage(u) && {
            &&& u.content@ == content_text(m.content@)
            &&& u.images is None
            &&& u.model_id is None
            &&& if content_tool_results(m.content@).len() > 0 {
                u.user_input_message_context matches Some(ctx) && ctx.tools is None && (ctx.tool_results matches Some(v)
                    && results_match(v@, content_tool_results(m.content@)))
            } else {
                u.user_input_message_context is None
            }
        },
        Role::Assistant => e matches ChatMessage::AssistantResponseMessage(a) && {
            &&& opt_view(a.message_id) == opt_view(m.id)
            &&& a.content@ == content_text(m.content@)
            &&& match a.tool_uses {
                Some(v) => non_empty(content_tool_uses(m.content@)) == Some(v@),
                None => non_empty(content_tool_uses(m.content@)) is None,
            }
        },
    }
}

/// The history entry of a message (see [is_history_entry]).
pub fn history_entry(m: &Message) -> (res: ChatMessage)
    ensures
        is_history_entry(res, *m),
{
    match m.role {
        Role::User => {
            let content = m.text();
            let (tool_results, _) = extract_tool_results_and_images(m);
            let ctx = if tool_results.is_some() {
                Some(UserInputMessageContext { tool_results, tools: None })
            } else {
                None
            };
            ChatMessage::UserInputMessage(UserInputMessage { content, user_input_message_context: ctx, images: None, model_id: None })
        },
        Role::Assistant => {
            let message_id = match &m.id {
                Some(id) => Some(id.clone()),
                None => None,
            };
            ChatMessage::AssistantResponseMessage(AssistantResponseMessage { message_id, content: m.text(), tool_uses: m.tool_uses() })
        },
    }
}

/// The message of the error for a request without messages.
pub open spec fn empty_conversation_message() -> Seq<char> {
    "Empty conversation"@
}

/// The message of the error for a request whose last message is not the user's.
pub open spec fn not_user_message(role: Role) -> Seq<char> {
    "Next message must be from the user, instead found: "@ + role_name(role)
}

/// Whether `u` is the next user message built from `m`: its text, its tool results (without
/// images) and the tools on offer in its context, all the images it carries, and the model.
pub open spec fn is_next_user_message(u: UserInputMessage, m: Message, tools: Option<Vec<ToolSpec>>, model_id: Option<String>) -> bool {
    &&& u.content@ == content_text(m.content@)
    &&& u.model_id == model_id
    &&& u.user_input_message_context matches Some(ctx) && ctx.tools == tools && is_extraction(
        (ctx.tool_results, u.images),
        m.content@,
    )
}

/// Builds the request for the conversation `messages` (see [is_next_user_message] and
/// [is_history_entry]): the last message, which must be the user's, is the next user message,
/// and the ones before it are the history, in order.
pub fn make_conversation_state(
    conversation_id: String,
    model_id: Option<String>,
    messages: Vec<Message>,
    tool_specs: Option<Vec<ToolSpec>>,
) -> (res: Result<ConversationState, String>)
    ensures
        messages.len() == 0 ==> (res matches Err(e) && e@ == empty_conversation_message()),
        messages.len() > 0 && messages@.last().role != Role::User ==> (res matches Err(e) && e@ == not_user_message(
            messages@.last().role,
        )),
        messages.len() > 0 && messages@.last().role == Role::User ==> (res matches Ok(st) && {
            &&& st.conversation_id == Some(conversation_id)
            &&& is_next_user_message(st.user_input_message, messages@.last(), tool_specs, model_id)
            &&& st.history matches Some(h) && h@.len() == messages.len() - 1 && forall|i: int|
                0 <= i < h@.len() ==> is_history_entry(#[trigger] h@[i], messages@[i])
        }),
{
    let mut messages = messages;
    let ghost all = messages@;
    let last = match messages.pop() {
        Some(m) => m,
        None => {
            return Err(String::from_str("Empty conversation"));
        },
    };
    let user_input_message = match last.role {
        Role::User => {
            let content = last.text();
            let (tool_results, images) = extract_tool_results_and_images(&last);
            let ctx = UserInputMessageContext { tool_results, tools: tool_specs };
            UserInputMessage { content, user_input_message_context: Some(ctx), images, model_id }
        },
        Role::Assistant => {
            let mut e = String::from_str("Next message must be from the user, instead found: ");
            e.append(last.role.as_str());
            return Err(e);
        },
    };
    let mut history: Vec<ChatMessage> = Vec::new();
    let mut i: usize = 0;
    while i < messages.len()
        invariant
            i <= messages.len(),
            messages@ == all.drop_last(),
            all.len() == messages.len() + 1,
            history@.len() == i,
            forall|k: int| 0 <= k < i ==> is_history_entry(#[trigger] history@[k], all[k]),
        decreases messages.len() - i,
    {
        let e = history_entry(&messages[i]);
        proof {
            assert(messages@[i as int] == all[i as int]);
        }
        history.push(e);
        i = i + 1;
    }
    Ok(ConversationState { conversation_id: Some(conversation_id), user_input_message, history: Some(history) })
}

} // verus!
