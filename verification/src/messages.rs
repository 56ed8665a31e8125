//! Conversation messages, their content blocks, and the events of a model's response stream.

use vstd::prelude::*;

use crate::json::{json_serializes, json_text, json_to_string};
use crate::text::{join_strings, join_with, str_eq, strings_view};

verus! {

/// The format of an image.
#[derive(Debug, Clone, Copy, PartialEq, Eq, Structural)]
pub enum ImageFormat {
    Gif,
    Jpeg,
    Png,
    Webp,
}

/// The name of an image format (lower case).
pub open spec fn image_format_name(f: ImageFormat) -> Seq<char> {
    match f {
        ImageFormat::Gif => "gif"@,
        ImageFormat::Jpeg => "jpeg"@,
        ImageFormat::Png => "png"@,
        ImageFormat::Webp => "webp"@,
    }
}

/// The image format a name stands for: the format names, and `jpg` for JPEG.
pub open spec fn image_format_named(s: Seq<char>) -> Option<ImageFormat> {
    if s == "gif"@ {
        Some(ImageFormat::Gif)
    } else if s == "jpeg"@ || s == "jpg"@ {
        Some(ImageFormat::Jpeg)
    } else if s == "png"@ {
        Some(ImageFormat::Png)
    } else if s == "webp"@ {
        Some(ImageFormat::Webp)
    } else {
        None
    }
}

/// Every image format's name reads back as that format.
pub proof fn lemma_image_format_name_round_trip(f: ImageFormat)
    ensures
        image_format_named(image_format_name(f)) == Some(f),
{
    reveal_strlit("gif");
    reveal_strlit("jpeg");
    reveal_strlit("jpg");
    reveal_strlit("png");
    reveal_strlit("webp");
    let n = image_format_name(f);
    match f {
        ImageFormat::Gif => {},
        ImageFormat::Jpeg => {
            assert(n != "gif"@) by { assert(n.len() != "gif"@.len()); }
        },
        ImageFormat::Png => {
            assert(n != "gif"@) by { assert(n[0] != "gif"@[0]); }
            assert(n != "jpeg"@) by { assert(n.len() != "jpeg"@.len()); }
            assert(n != "jpg"@) by { assert(n[0] != "jpg"@[0]); }
        },
        ImageFormat::Webp => {
            assert(n != "gif"@) by { assert(n.len() != "gif"@.len()); }
            assert(n != "jpeg"@) by { assert(n[0] != "jpeg"@[0]); }
            assert(n != "jpg"@) by { assert(n.len() != "jpg"@.len()); }
            assert(n != "png"@) by { assert(n.len() != "png"@.len()); }
        },
    }
}

impl ImageFormat {
    /// The format's name.
    pub fn as_str(&self) -> (res: &'static str)
        ensures
            res@ == image_format_name(*self),
    {
        match self {
            ImageFormat::Gif => "gif",
            ImageFormat::Jpeg => "jpeg",
            ImageFormat::Png => "png",
            ImageFormat::Webp => "webp",
        }
    }

    /// The format with the given name (`jpg` is accepted for JPEG).
    pub fn from_name(s: &str) -> (res: Option<ImageFormat>)
        ensures
            res == image_format_named(s@),
    {
        if str_eq(s, "gif") {
            Some(ImageFormat::Gif)
        } else if str_eq(s, "jpeg") || str_eq(s, "jpg") {
            Some(ImageFormat::Jpeg)
        } else if str_eq(s, "png") {
            Some(ImageFormat::Png)
        } else if str_eq(s, "webp") {
            Some(ImageFormat::Webp)
        } else {
            None
        }
    }
}

/// The error for a name that is no image format.
fn variant_not_found() -> (res: String)
    ensures
        res@ == "Matching variant not found"@,
{
    String::from_str("Matching variant not found")
}

impl std::str::FromStr for ImageFormat {
    type Err = String;

    fn from_str(s: &str) -> (res: Result<Self, Self::Err>)
        ensures
            match res {
                Ok(f) => image_format_named(s@) == Some(f),
                Err(e) => image_format_named(s@) is None && e@ == "Matching variant not found"@,
            },
    {
        match ImageFormat::from_name(s) {
            Some(f) => Ok(f),
            None => Err(variant_not_found()),
        }
    }
}

/// Where an image's data is.
#[derive(Debug)]
pub enum ImageSource {
    Bytes(Vec<u8>),
}

/// An image.
#[derive(Debug)]
pub struct ImageBlock {
    pub format: ImageFormat,
    pub source: ImageSource,
}

/// The bytes of an image.
pub open spec fn image_bytes(i: ImageBlock) -> Seq<u8> {
    match i.source {
        ImageSource::Bytes(b) => b@,
    }
}

/// Whether two images have the same format and bytes.
pub open spec fn same_image(a: ImageBlock, b: ImageBlock) -> bool {
    a.format == b.format && image_bytes(a) == image_bytes(b)
}

/// Whether two sequences of images agree image by image.
pub open spec fn same_images(a: Seq<ImageBlock>, b: Seq<ImageBlock>) -> bool {
    a.len() == b.len() && forall|i: int| 0 <= i < a.len() ==> same_image(a[i], b[i])
}

impl Clone for ImageBlock {
    fn clone(&self) -> (res: Self)
        ensures
            same_image(res, *self),
    {
        let ImageSource::Bytes(b) = &self.source;
        let mut copy: Vec<u8> = Vec::new();
        let mut i: usize = 0;
        while i < b.len()
            invariant
                i <= b.len(),
                copy@ == b@.take(i as int),
            decreases b.len() - i,
        {
            copy.push(b[i]);
            proof {
                assert(b@.take(i + 1) =~= b@.take(i as int).push(b@[i as int]));
            }
            i = i + 1;
        }
        proof {
            assert(b@.take(b.len() as int) =~= b@);
        }
        ImageBlock { format: self.format, source: ImageSource::Bytes(copy) }
    }
}

/// A request by the model to use a tool.
#[derive(Debug)]
pub struct ToolUseBlock {
    /// Identifier for the tool use.
    pub tool_use_id: String,
    /// Name of the tool.
    pub name: String,
    /// The input to pass to the tool.
    pub input: serde_json::Value,
}

impl Clone for ToolUseBlock {
    fn clone(&self) -> (res: Self)
        ensures
            res == *self,
    {
        ToolUseBlock { tool_use_id: self.tool_use_id.clone(), name: self.name.clone(), input: self.input.clone() }
    }
}

/// Whether a tool use succeeded.
#[derive(Debug, Clone, Copy, PartialEq, Eq, Structural)]
pub enum ToolResultStatus {
    Error,
    Success,
}

/// One piece of a tool's result.
#[derive(Debug)]
pub enum ToolResultContentBlock {
    Text(String),
    Json(serde_json::Value),
    Image(ImageBlock),
}

/// Whether two pieces of tool results hold the same.
pub open spec fn same_result_content(a: ToolResultContentBlock, b: ToolResultContentBlock) -> bool {
    match (a, b) {
        (ToolResultContentBlock::Text(x), ToolResultContentBlock::Text(y)) => x == y,
        (ToolResultContentBlock::Json(x), ToolResultContentBlock::Json(y)) => x == y,
        (ToolResultContentBlock::Image(x), ToolResultContentBlock::Image(y)) => same_image(x, y),
        _ => false,
    }
}

impl Clone for ToolResultContentBlock {
    fn clone(&self) -> (res: Self)
        ensures
            same_result_content(res, *self),
    {
        match self {
            ToolResultContentBlock::Text(s) => ToolResultContentBlock::Text(s.clone()),
            ToolResultContentBlock::Json(v) => ToolResultContentBlock::Json(v.clone()),
            ToolResultContentBlock::Image(i) => ToolResultContentBlock::Image(i.clone()),
        }
    }
}

impl ToolResultContentBlock {
    /// The text, if this is text.
    pub fn text(&self) -> (res: Option<&str>)
        ensures
            match *self {
                ToolResultContentBlock::Text(t) => res matches Some(r) && r@ == t@,
                _ => res is None,
            },
    {
        match self {
            ToolResultContentBlock::Text(t) => Some(t.as_str()),
            _ => None,
        }
    }

    /// The JSON value, if this is JSON.
    pub fn json(&self) -> (res: Option<&serde_json::Value>)
        ensures
            match *self {
                ToolResultContentBlock::Json(v) => res == Some(&v),
                _ => res is None,
            },
    {
        match self {
            ToolResultContentBlock::Json(v) => Some(v),
            _ => None,
        }
    }
}

/// The result of a tool use.
#[derive(Debug)]
pub struct ToolResultBlock {
    pub tool_use_id: String,
    pub content: Vec<ToolResultContentBlock>,
    pub status: ToolResultStatus,
}

/// Whether two tool results hold the same.
pub open spec fn same_tool_result(a: ToolResultBlock, b: ToolResultBlock) -> bool {
    &&& a.tool_use_id == b.tool_use_id
    &&& a.status == b.status
    &&& a.content@.len() == b.content@.len()
    &&& forall|i: int| 0 <= i < a.content@.len() ==> same_result_content(a.content@[i], b.content@[i])
}

/// Whether two sequences of tool results agree result by result.
pub open spec fn same_tool_results(a: Seq<ToolResultBlock>, b: Seq<ToolResultBlock>) -> bool {
    a.len() == b.len() && forall|i: int| 0 <= i < a.len() ==> same_tool_result(a[i], b[i])
}

fn clone_result_contents(v: &Vec<ToolResultContentBlock>) -> (res: Vec<ToolResultContentBlock>)
    ensures
        res@.len() == v@.len(),
        forall|i: int| 0 <= i < v@.len() ==> same_result_content(res@[i], v@[i]),
{
    let mut out: Vec<ToolResultContentBlock> = Vec::new();
    let mut i: usize = 0;
    while i < v.len()
        invariant
            i <= v.len(),
            out@.len() == i,
            forall|j: int| 0 <= j < i ==> same_result_content(out@[j], v@[j]),
        decreases v.len() - i,
    {
        out.push(v[i].clone());
        i = i + 1;
    }
    out
}

impl Clone for ToolResultBlock {
    fn clone(&self) -> (res: Self)
        ensures
            same_tool_result(res, *self),
    {
        ToolResultBlock {
            tool_use_id: self.tool_use_id.clone(),
            content: clone_result_contents(&self.content),
            status: self.status,
        }
    }
}

/// One block of a message's content.
#[derive(Debug)]
pub enum ContentBlock {
    Text(String),
    ToolUse(ToolUseBlock),
    ToolResult(ToolResultBlock),
    Image(ImageBlock),
}

/// Whether two content blocks hold the same.
pub open spec fn same_content(a: ContentBlock, b: ContentBlock) -> bool {
    match (a, b) {
        (ContentBlock::Text(x), ContentBlock::Text(y)) => x == y,
        (ContentBlock::ToolUse(x), ContentBlock::ToolUse(y)) => x == y,
        (ContentBlock::ToolResult(x), ContentBlock::ToolResult(y)) => same_tool_result(x, y),
        (ContentBlock::Image(x), ContentBlock::Image(y)) => same_image(x, y),
        _ => false,
    }
}

impl Clone for ContentBlock {
    fn clone(&self) -> (res: Self)
        ensures
            same_content(res, *self),
    {
        match self {
            ContentBlock::Text(s) => ContentBlock::Text(s.clone()),
            ContentBlock::ToolUse(b) => ContentBlock::ToolUse(b.clone()),
            ContentBlock::ToolResult(b) => ContentBlock::ToolResult(b.clone()),
            ContentBlock::Image(b) => ContentBlock::Image(b.clone()),
        }
    }
}

impl ContentBlock {
    /// The text, if this is text.
    pub fn text(&self) -> (res: Option<&str>)
        ensures
            match *self {
                ContentBlock::Text(t) => res matches Some(r) && r@ == t@,
                _ => res is None,
            },
    {
        match self {
            ContentBlock::Text(t) => Some(t.as_str()),
            _ => None,
        }
    }

    /// The tool result, if this is one.
    pub fn tool_result(&self) -> (res: Option<&ToolResultBlock>)
        ensures
            match *self {
                ContentBlock::ToolResult(b) => res == Some(&b),
                _ => res is None,
            },
    {
        match self {
            ContentBlock::ToolResult(b) => Some(b),
            _ => None,
        }
    }

    /// The image, if this is one.
    pub fn image(&self) -> (res: Option<&ImageBlock>)
        ensures
            match *self {
                ContentBlock::Image(b) => res == Some(&b),
                _ => res is None,
            },
    {
        match self {
            ContentBlock::Image(b) => Some(b),
            _ => None,
        }
    }
}

impl From<String> for ContentBlock {
    fn from(value: String) -> (res: Self)
        ensures
            res == ContentBlock::Text(value),
    {
        ContentBlock::Text(value)
    }
}

impl vstd::std_specs::convert::FromSpecImpl<String> for ContentBlock {
    open spec fn obeys_from_spec() -> bool {
        true
    }

    open spec fn from_spec(v: String) -> Self {
        ContentBlock::Text(v)
    }
}

/// Who sent a message.
#[derive(Debug, Clone, Copy, PartialEq, Eq, Structural)]
pub enum Role {
    User,
    Assistant,
}

/// The name of a role (camel case).
pub open spec fn role_name(r: Role) -> Seq<char> {
    match r {
        Role::User => "user"@,
        Role::Assistant => "assistant"@,
    }
}

/// Different roles have different names.
pub proof fn lemma_role_names_distinct()
    ensures
        role_name(Role::User) != role_name(Role::Assistant),
{
    reveal_strlit("user");
    reveal_strlit("assistant");
    assert(role_name(Role::User).len() != role_name(Role::Assistant).len());
}

impl Role {
    /// The role's name.
    pub fn as_str(&self) -> (res: &'static str)
        ensures
            res@ == role_name(*self),
    {
        match self {
            Role::User => "user",
            Role::Assistant => "assistant",
        }
    }

    /// The role with the given name.
    pub fn from_name(s: &str) -> (res: Option<Role>)
        ensures
            res matches Some(r) ==> role_name(r) == s@,
            res is None ==> forall|r: Role| role_name(r) != s@,
    {
        if str_eq(s, "user") {
            Some(Role::User)
        } else if str_eq(s, "assistant") {
            Some(Role::Assistant)
        } else {
            None
        }
    }
}

/// Why the model stopped generating.
#[derive(Debug, Clone, Copy, PartialEq, Eq, Structural)]
pub enum StopReason {
    ToolUse,
    EndTurn,
    MaxTokens,
}

/// The name of a stop reason (camel case).
pub open spec fn stop_reason_name(r: StopReason) -> Seq<char> {
    match r {
        StopReason::ToolUse => "toolUse"@,
        StopReason::EndTurn => "endTurn"@,
        StopReason::MaxTokens => "maxTokens"@,
    }
}

/// Different stop reasons have different names.
pub proof fn lemma_stop_reason_names_distinct(a: StopReason, b: StopReason)
    ensures
        stop_reason_name(a) == stop_reason_name(b) <==> a == b,
{
    reveal_strlit("toolUse");
    reveal_strlit("endTurn");
    reveal_strlit("maxTokens");
    if a != b {
        let x = stop_reason_name(a);
        let y = stop_reason_name(b);
        assert(x.len() != y.len() || x[0] != y[0]);
    }
}

impl StopReason {
    /// The reason's name.
    pub fn as_str(&self) -> (res: &'static str)
        ensures
            res@ == stop_reason_name(*self),
    {
        match self {
            StopReason::ToolUse => "toolUse",
            StopReason::EndTurn => "endTurn",
            StopReason::MaxTokens => "maxTokens",
        }
    }

    /// The reason with the given name.
    pub fn from_name(s: &str) -> (res: Option<StopReason>)
        ensures
            res matches Some(r) ==> stop_reason_name(r) == s@,
            res is None ==> forall|r: StopReason| stop_reason_name(r) != s@,
    {
        if str_eq(s, "toolUse") {
            Some(StopReason::ToolUse)
        } else if str_eq(s, "endTurn") {
            Some(StopReason::EndTurn)
        } else if str_eq(s, "maxTokens") {
            Some(StopReason::MaxTokens)
        } else {
            None
        }
    }
}

/// The start of a message in the response stream.
#[derive(Debug, Clone)]
pub struct MessageStartEvent {
    pub role: Role,
}

/// The end of a message in the response stream.
#[derive(Debug, Clone)]
pub struct MessageStopEvent {
    pub stop_reason: StopReason,
}

/// The start of a tool use block.
#[derive(Debug, Clone)]
pub struct ToolUseBlockStart {
    /// Identifier for the tool use.
    pub tool_use_id: String,
    /// Name of the tool.
    pub name: String,
}

/// What kind of block starts.
#[derive(Debug, Clone)]
pub enum ContentBlockStart {
    ToolUse(ToolUseBlockStart),
}

/// The start of a content block.
#[derive(Debug, Clone)]
pub struct ContentBlockStartEvent {
    pub content_block_start: Option<ContentBlockStart>,
    /// Index of the content block within the message, where the provider gives one.
    pub content_block_index: Option<i32>,
}

/// A piece of a tool use's input.
#[derive(Debug, Clone)]
pub struct ToolUseBlockDelta {
    pub input: String,
}

/// A piece of a content block.
#[derive(Debug, Clone)]
pub enum ContentBlockDelta {
    Text(String),
    ToolUse(ToolUseBlockDelta),
    Reasoning,
    Document,
}

/// A piece of a content block, with its index.
#[derive(Debug, Clone)]
pub struct ContentBlockDeltaEvent {
    pub delta: ContentBlockDelta,
    /// Index of the content block within the message, where the provider gives one.
    pub content_block_index: Option<i32>,
}

/// The end of a content block.
#[derive(Debug, Clone)]
pub struct ContentBlockStopEvent {
    /// Index of the content block within the message, where the provider gives one.
    pub content_block_index: Option<i32>,
}

/// Token usage of a response.
#[derive(Debug, Clone)]
pub struct MetadataUsage {
    pub input_tokens: Option<u64>,
    pub output_tokens: Option<u64>,
    pub cache_read_input_tokens: Option<u64>,
    pub cache_write_input_tokens: Option<u64>,
}

/// What the service reported of a response.
#[derive(Debug, Clone)]
pub struct MetadataService {
    pub request_id: Option<String>,
    pub status_code: Option<u16>,
}

/// A conversation message.
#[derive(Debug)]
pub struct Message {
    pub id: Option<String>,
    pub role: Role,
    pub content: Vec<ContentBlock>,
    /// When the message was sent, in seconds since the Unix epoch.
    pub timestamp: Option<i64>,
}

/// The text blocks of the content, concatenated.
pub open spec fn content_text(c: Seq<ContentBlock>) -> Seq<char>
    decreases c.len(),
{
    if c.len() == 0 {
        Seq::empty()
    } else {
        match c.last() {
            ContentBlock::Text(t) => content_text(c.drop_last()) + t@,
            _ => content_text(c.drop_last()),
        }
    }
}

/// The tool uses of the content, in order.
pub open spec fn content_tool_uses(c: Seq<ContentBlock>) -> Seq<ToolUseBlock>
    decreases c.len(),
{
    if c.len() == 0 {
        Seq::empty()
    } else {
        match c.last() {
            ContentBlock::ToolUse(b) => content_tool_uses(c.drop_last()).push(b),
            _ => content_tool_uses(c.drop_last()),
        }
    }
}

/// The tool results of the content, in order.
pub open spec fn content_tool_results(c: Seq<ContentBlock>) -> Seq<ToolResultBlock>
    decreases c.len(),
{
    if c.len() == 0 {
        Seq::empty()
    } else {
        match c.last() {
            ContentBlock::ToolResult(b) => content_tool_results(c.drop_last()).push(b),
            _ => content_tool_results(c.drop_last()),
        }
    }
}

/// The images of the content, in order.
pub open spec fn content_images(c: Seq<ContentBlock>) -> Seq<ImageBlock>
    decreases c.len(),
{
    if c.len() == 0 {
        Seq::empty()
    } else {
        match c.last() {
            ContentBlock::Image(b) => content_images(c.drop_last()).push(b),
            _ => content_images(c.drop_last()),
        }
    }
}

/// `None` for an empty sequence, else the sequence.
pub open spec fn non_empty<T>(s: Seq<T>) -> Option<Seq<T>> {
    if s.len() == 0 {
        None
    } else {
        Some(s)
    }
}

/// Whether a block is the tool use with the given id.
pub open spec fn is_tool_use_with_id(b: ContentBlock, id: Seq<char>) -> bool {
    b matches ContentBlock::ToolUse(u) && u.tool_use_id@ == id
}

/// Whether a block is the tool result with the given id.
pub open spec fn is_tool_result_with_id(b: ContentBlock, id: Seq<char>) -> bool {
    b matches ContentBlock::ToolResult(r) && r.tool_use_id@ == id
}

/// The index of the first block satisfying `p`, if any.
pub open spec fn first_index_where(c: Seq<ContentBlock>, p: spec_fn(ContentBlock) -> bool) -> Option<int> {
    if exists|i: int| 0 <= i < c.len() && p(c[i]) {
        Some(choose|i: int| 0 <= i < c.len() && p(c[i]) && forall|j: int| 0 <= j < i ==> !p(c[j]))
    } else {
        None
    }
}

proof fn lemma_first_index_where(c: Seq<ContentBlock>, p: spec_fn(ContentBlock) -> bool, i: int)
    requires
        0 <= i < c.len(),
        p(c[i]),
        forall|j: int| 0 <= j < i ==> !p(c[j]),
    ensures
        first_index_where(c, p) == Some(i),
{
    let w = choose|k: int| 0 <= k < c.len() && p(c[k]) && forall|j: int| 0 <= j < k ==> !p(c[j]);
    assert(0 <= w < c.len() && p(c[w]) && forall|j: int| 0 <= j < w ==> !p(c[j]));
    if w < i {
        assert(!p(c[w]));
    } else if w > i {
        assert(!p(c[i]));
    }
}

/// A new random identifier, by `uuid::Uuid::new_v4` written in its hyphenated form: 36
/// characters; nothing more is promised of its value.
#[verifier::external_body]
fn new_message_id() -> (res: String)
    ensures
        res@.len() == 36,
{
    uuid::Uuid::new_v4().to_string()
}

impl Message {
    /// A new message with a new random id.
    pub fn new(role: Role, content: Vec<ContentBlock>, timestamp: Option<i64>) -> (res: Self)
        ensures
            res.id is Some,
            res.role == role,
            res.content == content,
            res.timestamp == timestamp,
    {
        Message { id: Some(new_message_id()), role, content, timestamp }
    }

    /// The tool uses of this message, in order.
    pub fn tool_uses_iter(&self) -> (res: Vec<&ToolUseBlock>)
        ensures
            res@.len() == content_tool_uses(self.content@).len(),
            forall|j: int| 0 <= j < res@.len() ==> *res@[j] == content_tool_uses(self.content@)[j],
    {
        let mut out: Vec<&ToolUseBlock> = Vec::new();
        let mut i: usize = 0;
        while i < self.content.len()
            invariant
                i <= self.content.len(),
                out@.len() == content_tool_uses(self.content@.take(i as int)).len(),
                forall|j: int| 0 <= j < out@.len() ==> *out@[j] == content_tool_uses(self.content@.take(i as int))[j],
            decreases self.content.len() - i,
        {
            proof {
                assert(self.content@.take(i + 1).drop_last() =~= self.content@.take(i as int));
            }
            match &self.content[i] {
                ContentBlock::ToolUse(v) => {
                    out.push(v);
                },
                _ => {},
            }
            i = i + 1;
        }
        proof {
            assert(self.content@.take(self.content.len() as int) =~= self.content@);
        }
        out
    }

    /// The tool results of this message, in order.
    pub fn tool_results_iter(&self) -> (res: Vec<&ToolResultBlock>)
        ensures
            res@.len() == content_tool_results(self.content@).len(),
            forall|j: int| 0 <= j < res@.len() ==> *res@[j] == content_tool_results(self.content@)[j],
    {
        let mut out: Vec<&ToolResultBlock> = Vec::new();
        let mut i: usize = 0;
        while i < self.content.len()
            invariant
                i <= self.content.len(),
                out@.len() == content_tool_results(self.content@.take(i as int)).len(),
                forall|j: int| 0 <= j < out@.len() ==> *out@[j] == content_tool_results(self.content@.take(i as int))[j],
            decreases self.content.len() - i,
        {
            proof {
                assert(self.content@.take(i + 1).drop_last() =~= self.content@.take(i as int));
            }
            match &self.content[i] {
                ContentBlock::ToolResult(v) => {
                    out.push(v);
                },
                _ => {},
            }
            i = i + 1;
        }
        proof {
            assert(self.content@.take(self.content.len() as int) =~= self.content@);
        }
        out
    }
}

impl Message {
    /// The text content, joined as a single string.
    pub fn text(&self) -> (res: String)
        ensures
            res@ == content_text(self.content@),
    {
        let mut s = String::new();
        let mut i: usize = 0;
        while i < self.content.len()
            invariant
                i <= self.content.len(),
                s@ == content_text(self.content@.take(i as int)),
            decreases self.content.len() - i,
        {
            proof {
                assert(self.content@.take(i + 1).drop_last() =~= self.content@.take(i as int));
            }
            match &self.content[i] {
                ContentBlock::Text(t) => {
                    s.append(t.as_str());
                },
                _ => {},
            }
            i = i + 1;
        }
        proof {
            assert(self.content@.take(self.content.len() as int) =~= self.content@);
        }
        s
    }

    /// The tool uses of this message, if there are any.
    pub fn tool_uses(&self) -> (res: Option<Vec<ToolUseBlock>>)
        ensures
            match res {
                Some(v) => non_empty(content_tool_uses(self.content@)) == Some(v@),
                None => non_empty(content_tool_uses(self.content@)) is None,
            },
    {
        let mut results: Vec<ToolUseBlock> = Vec::new();
        let mut i: usize = 0;
        while i < self.content.len()
            invariant
                i <= self.content.len(),
                results@ == content_tool_uses(self.content@.take(i as int)),
            decreases self.content.len() - i,
        {
            proof {
                assert(self.content@.take(i + 1).drop_last() =~= self.content@.take(i as int));
            }
            match &self.content[i] {
                ContentBlock::ToolUse(v) => {
                    results.push(v.clone());
                },
                _ => {},
            }
            i = i + 1;
        }
        proof {
            assert(self.content@.take(self.content.len() as int) =~= self.content@);
        }
        if results.len() == 0 {
            None
        } else {
            Some(results)
        }
    }

    /// The first tool use with the given id, if any.
    pub fn get_tool_use(&self, tool_use_id: &str) -> (res: Option<&ToolUseBlock>)
        ensures
            match first_index_where(self.content@, |b: ContentBlock| is_tool_use_with_id(b, tool_use_id@)) {
                Some(i) => self.content@[i] matches ContentBlock::ToolUse(u) && res == Some(&u),
                None => res is None,
            },
    {
        let ghost p = |b: ContentBlock| is_tool_use_with_id(b, tool_use_id@);
        let mut i: usize = 0;
        while i < self.content.len()
            invariant
                i <= self.content.len(),
                p == (|b: ContentBlock| is_tool_use_with_id(b, tool_use_id@)),
                forall|j: int| 0 <= j < i ==> !p(self.content@[j]),
            decreases self.content.len() - i,
        {
            if let ContentBlock::ToolUse(block) = &self.content[i] {
                if str_eq(block.tool_use_id.as_str(), tool_use_id) {
                    proof {
                        lemma_first_index_where(self.content@, p, i as int);
                    }
                    return Some(block);
                }
            }
            i = i + 1;
        }
        None
    }

    /// The tool results of this message, if there are any.
    pub fn tool_results(&self) -> (res: Option<Vec<ToolResultBlock>>)
        ensures
            match res {
                Some(v) => content_tool_results(self.content@).len() > 0 && same_tool_results(
                    v@,
                    content_tool_results(self.content@),
                ),
                None => content_tool_results(self.content@).len() == 0,
            },
    {
        let mut results: Vec<ToolResultBlock> = Vec::new();
        let mut i: usize = 0;
        while i < self.content.len()
            invariant
                i <= self.content.len(),
                same_tool_results(results@, content_tool_results(self.content@.take(i as int))),
            decreases self.content.len() - i,
        {
            proof {
                assert(self.content@.take(i + 1).drop_last() =~= self.content@.take(i as int));
            }
            match &self.content[i] {
                ContentBlock::ToolResult(r) => {
                    results.push(r.clone());
                },
                _ => {},
            }
            i = i + 1;
        }
        proof {
            assert(self.content@.take(self.content.len() as int) =~= self.content@);
        }
        if results.len() == 0 {
            None
        } else {
            Some(results)
        }
    }

    /// The first tool result with the given id, if any.
    pub fn get_tool_result(&self, tool_use_id: &str) -> (res: Option<&ToolResultBlock>)
        ensures
            match first_index_where(self.content@, |b: ContentBlock| is_tool_result_with_id(b, tool_use_id@)) {
                Some(i) => self.content@[i] matches ContentBlock::ToolResult(r) && res == Some(&r),
                None => res is None,
            },
    {
        let ghost p = |b: ContentBlock| is_tool_result_with_id(b, tool_use_id@);
        let mut i: usize = 0;
        while i < self.content.len()
            invariant
                i <= self.content.len(),
                p == (|b: ContentBlock| is_tool_result_with_id(b, tool_use_id@)),
                forall|j: int| 0 <= j < i ==> !p(self.content@[j]),
            decreases self.content.len() - i,
        {
            if let ContentBlock::ToolResult(block) = &self.content[i] {
                if str_eq(block.tool_use_id.as_str(), tool_use_id) {
                    proof {
                        lemma_first_index_where(self.content@, p, i as int);
                    }
                    return Some(block);
                }
            }
            i = i + 1;
        }
        None
    }

    /// The images of this message, if there are any.
    pub fn images(&self) -> (res: Option<Vec<ImageBlock>>)
        ensures
            match res {
                Some(v) => content_images(self.content@).len() > 0 && same_images(v@, content_images(self.content@)),
                None => content_images(self.content@).len() == 0,
            },
    {
        let mut results: Vec<ImageBlock> = Vec::new();
        let mut i: usize = 0;
        while i < self.content.len()
            invariant
                i <= self.content.len(),
                same_images(results@, content_images(self.content@.take(i as int))),
            decreases self.content.len() - i,
        {
            proof {
                assert(self.content@.take(i + 1).drop_last() =~= self.content@.take(i as int));
            }
            match &self.content[i] {
                ContentBlock::Image(img) => {
                    results.push(img.clone());
                },
                _ => {},
            }
            i = i + 1;
        }
        proof {
            assert(self.content@.take(self.content.len() as int) =~= self.content@);
        }
        if results.len() == 0 {
            None
        } else {
            Some(results)
        }
    }
}

/// The strings of a tool result's pieces, in order: text as it is, JSON as its
/// serialization (empty where it cannot be serialized); images are skipped.
pub open spec fn result_strings(c: Seq<ToolResultContentBlock>) -> Seq<Seq<char>>
    decreases c.len(),
{
    if c.len() == 0 {
        Seq::empty()
    } else {
        match c.last() {
            ToolResultContentBlock::Text(t) => result_strings(c.drop_last()).push(t@),
            ToolResultContentBlock::Json(v) => result_strings(c.drop_last()).push(
                if json_serializes(v) {
                    json_text(v)
                } else {
                    Seq::empty()
                },
            ),
            ToolResultContentBlock::Image(_) => result_strings(c.drop_last()),
        }
    }
}

/// The images of a tool result's pieces, in order.
pub open spec fn result_images(c: Seq<ToolResultContentBlock>) -> Seq<ImageBlock>
    decreases c.len(),
{
    if c.len() == 0 {
        Seq::empty()
    } else {
        match c.last() {
            ToolResultContentBlock::Image(i) => result_images(c.drop_last()).push(i),
            _ => result_images(c.drop_last()),
        }
    }
}

/// What a content block is expected to be.
pub enum ContentExpect {
    /// Exactly this block.
    Exactly(ContentBlock),
    /// A text block with this text.
    TextOf(Seq<char>),
    /// An image block with the same format and bytes as this image.
    ImageLike(ImageBlock),
}

/// Whether a block is what is expected.
pub open spec fn meets(a: ContentBlock, e: ContentExpect) -> bool {
    match e {
        ContentExpect::Exactly(b) => a == b,
        ContentExpect::TextOf(t) => a matches ContentBlock::Text(s) && s@ == t,
        ContentExpect::ImageLike(img) => a matches ContentBlock::Image(x) && same_image(x, img),
    }
}

/// Whether the blocks are what is expected, one by one.
pub open spec fn all_meet(a: Seq<ContentBlock>, e: Seq<ContentExpect>) -> bool {
    a.len() == e.len() && forall|k: int| 0 <= k < a.len() ==> meets(a[k], e[k])
}

/// The content after the tool result at `i` is replaced: the result's strings joined with
/// spaces are appended as one text block (when there are any), then its images, and the
/// last block then takes the result's place.
pub open spec fn replaced_content(c: Seq<ContentBlock>, i: int) -> Seq<ContentExpect> {
    let r = c[i]->ToolResult_0;
    let strs = result_strings(r.content@);
    let imgs = result_images(r.content@);
    let ext = c.map_values(|b: ContentBlock| ContentExpect::Exactly(b)) + (if strs.len() > 0 {
        seq![ContentExpect::TextOf(join_with(strs, " "@))]
    } else {
        Seq::empty()
    }) + imgs.map_values(|img: ImageBlock| ContentExpect::ImageLike(img));
    ext.update(i, ext.last()).drop_last()
}

/// Whether the content `after` is what replacing the tool result with the given id in
/// `before` calls for.
pub open spec fn replaced_tool_result(before: Seq<ContentBlock>, after: Seq<ContentBlock>, id: Seq<char>) -> bool {
    match first_index_where(before, |b: ContentBlock| is_tool_result_with_id(b, id)) {
        Some(i) => all_meet(after, replaced_content(before, i)),
        None => after == before,
    }
}

impl Message {
    /// Replaces the tool result with the given id by its content as ordinary blocks: its
    /// text and JSON, joined with spaces, as a text block, and its images as image blocks.
    pub fn replace_tool_result_as_content(&mut self, tool_use_id: &str)
        ensures
            replaced_tool_result(old(self).content@, final(self).content@, tool_use_id@),
            final(self).id == old(self).id,
            final(self).role == old(self).role,
            final(self).timestamp == old(self).timestamp,
    {
        let ghost p = |b: ContentBlock| is_tool_result_with_id(b, tool_use_id@);
        let ghost c = self.content@;
        let mut i: usize = 0;
        let mut found = false;
        while i < self.content.len()
            invariant_except_break
                i <= self.content.len(),
                p == (|b: ContentBlock| is_tool_result_with_id(b, tool_use_id@)),
                forall|j: int| 0 <= j < i ==> !p(self.content@[j]),
                !found,
            ensures
                found ==> i < self.content.len() && p(self.content@[i as int]) && forall|j: int|
                    0 <= j < i ==> !p(self.content@[j]),
                !found ==> forall|j: int| 0 <= j < self.content.len() ==> !p(self.content@[j]),
            decreases self.content.len() - i,
        {
            if let ContentBlock::ToolResult(block) = &self.content[i] {
                if str_eq(block.tool_use_id.as_str(), tool_use_id) {
                    found = true;
                    break;
                }
            }
            i = i + 1;
        }
        if !found {
            return;
        }
        proof {
            lemma_first_index_where(c, p, i as int);
        }
        let mut strs: Vec<String> = Vec::new();
        let mut imgs: Vec<ContentBlock> = Vec::new();
        if let ContentBlock::ToolResult(block) = &self.content[i] {
            let rc = &block.content;
            let mut k: usize = 0;
            while k < rc.len()
                invariant
                    k <= rc.len(),
                    strings_view(strs@) == result_strings(rc@.take(k as int)),
                    imgs@.len() == result_images(rc@.take(k as int)).len(),
                    forall|t: int|
                        0 <= t < imgs@.len() ==> meets(
                            #[trigger] imgs@[t],
                            ContentExpect::ImageLike(result_images(rc@.take(k as int))[t]),
                        ),
                decreases rc.len() - k,
            {
                proof {
                    assert(rc@.take(k + 1).drop_last() =~= rc@.take(k as int));
                }
                let ghost before_strs = strs@;
                match &rc[k] {
                    ToolResultContentBlock::Text(s) => {
                        strs.push(s.clone());
                        proof {
                            assert(strings_view(strs@) =~= strings_view(before_strs).push(s@));
                        }
                    },
                    ToolResultContentBlock::Json(value) => {
                        let text = match json_to_string(value) {
                            Ok(t) => t,
                            Err(_) => String::new(),
                        };
                        strs.push(text);
                        proof {
                            assert(strings_view(strs@) =~= strings_view(before_strs).push(strs@.last()@));
                        }
                    },
                    ToolResultContentBlock::Image(img) => {
                        imgs.push(ContentBlock::Image(img.clone()));
                    },
                }
                k = k + 1;
            }
            proof {
                assert(rc@.take(rc.len() as int) =~= rc@);
            }
        }
        let ghost strs_v = strings_view(strs@);
        let ghost base = self.content@;
        if strs.len() > 0 {
            let joined = join_strings(&strs, " ");
            self.content.push(ContentBlock::Text(joined));
        }
        let ghost with_text = self.content@;
        let ghost imgs_v = imgs@;
        self.content.append(&mut imgs);
        proof {
            let r = c[i as int]->ToolResult_0;
            let ext_expect = replaced_content(c, i as int);
            let strs_s = result_strings(r.content@);
            let imgs_s = result_images(r.content@);
            let ext = c.map_values(|b: ContentBlock| ContentExpect::Exactly(b)) + (if strs_s.len() > 0 {
                seq![ContentExpect::TextOf(join_with(strs_s, " "@))]
            } else {
                Seq::empty()
            }) + imgs_s.map_values(|img: ImageBlock| ContentExpect::ImageLike(img));
            assert(self.content@ == with_text + imgs_v);
            assert(self.content@.len() == ext.len());
            assert forall|t: int| 0 <= t < ext.len() implies meets(self.content@[t], ext[t]) by {
                if t < c.len() {
                } else if t < with_text.len() {
                } else {
                    assert(meets(imgs_v[t - with_text.len()], ContentExpect::ImageLike(imgs_s[t - with_text.len()])));
                }
            }
        }
        let ghost full = self.content@;
        self.content.swap_remove(i);
        proof {
            let r = c[i as int]->ToolResult_0;
            let strs_s = result_strings(r.content@);
            let imgs_s = result_images(r.content@);
            let ext = c.map_values(|b: ContentBlock| ContentExpect::Exactly(b)) + (if strs_s.len() > 0 {
                seq![ContentExpect::TextOf(join_with(strs_s, " "@))]
            } else {
                Seq::empty()
            }) + imgs_s.map_values(|img: ImageBlock| ContentExpect::ImageLike(img));
            assert(replaced_content(c, i as int) == ext.update(i as int, ext.last()).drop_last());
            assert(all_meet(self.content@, replaced_content(c, i as int)));
        }
    }
}

} // verus!
