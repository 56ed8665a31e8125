//! Compacting a conversation: truncating large messages and asking for a summary.

use vstd::prelude::*;

use crate::agent_loop::SendRequestArgs;
use crate::json::{json_serializes, json_text, json_to_string};
use crate::messages::{ContentBlock, Message, ToolResultContentBlock};
use crate::text::chars_of;

verus! {

/// The number of bytes of `c` in UTF-8.
pub open spec fn utf8_width(c: char) -> nat {
    if (c as u32) <= 0x7F {
        1
    } else if (c as u32) <= 0x7FF {
        2
    } else if (c as u32) <= 0xFFFF {
        3
    } else {
        4
    }
}

/// The number of bytes of `s` in UTF-8.
pub open spec fn utf8_len(s: Seq<char>) -> nat
    decreases s.len(),
{
    if s.len() == 0 {
        0
    } else {
        utf8_width(s[0]) + utf8_len(s.drop_first())
    }
}

/// The UTF-8 length of a sequence is that of its encoding.
pub proof fn lemma_utf8_len_is_encoding_len(s: Seq<char>)
    ensures
        utf8_len(s) == vstd::utf8::encode_utf8(s).len(),
    decreases s.len(),
{
    if s.len() > 0 {
        lemma_utf8_len_is_encoding_len(s.drop_first());
        let c = s[0];
        vstd::utf8::char_is_scalar(c);
    }
}

/// The UTF-8 length of a concatenation is the sum of the lengths.
pub proof fn lemma_utf8_len_concat(a: Seq<char>, b: Seq<char>)
    ensures
        utf8_len(a + b) == utf8_len(a) + utf8_len(b),
    decreases a.len(),
{
    if a.len() > 0 {
        assert((a + b).drop_first() =~= a.drop_first() + b);
        lemma_utf8_len_concat(a.drop_first(), b);
    } else {
        assert(a + b =~= b);
    }
}

/// A character takes at most four bytes.
pub proof fn lemma_utf8_len_bound(s: Seq<char>)
    ensures
        utf8_len(s) <= 4 * s.len(),
    decreases s.len(),
{
    if s.len() > 0 {
        lemma_utf8_len_bound(s.drop_first());
    }
}

/// The longest prefix of `s` whose UTF-8 encoding fits in `max` bytes.
pub open spec fn fit_prefix(s: Seq<char>, max: int) -> Seq<char>
    decreases s.len(),
{
    if s.len() == 0 || utf8_width(s[0]) > max {
        Seq::empty()
    } else {
        seq![s[0]] + fit_prefix(s.drop_first(), max - utf8_width(s[0]))
    }
}

/// The fitted prefix fits.
pub proof fn lemma_fit_prefix_fits(s: Seq<char>, max: int)
    requires
        max >= 0,
    ensures
        utf8_len(fit_prefix(s, max)) <= max,
        fit_prefix(s, max).len() <= s.len(),
        fit_prefix(s, max) == s.take(fit_prefix(s, max).len() as int),
    decreases s.len(),
{
    if s.len() == 0 || utf8_width(s[0]) > max {
    } else {
        lemma_fit_prefix_fits(s.drop_first(), max - utf8_width(s[0]));
        let rest = fit_prefix(s.drop_first(), max - utf8_width(s[0]));
        assert((seq![s[0]] + rest).drop_first() =~= rest);
        assert(seq![s[0]] + rest =~= s.take(rest.len() + 1 as int));
    }
}

/// A string that fits in `max` bytes is its own fitted prefix.
pub proof fn lemma_fit_prefix_whole(s: Seq<char>, max: int)
    requires
        utf8_len(s) <= max,
    ensures
        fit_prefix(s, max) == s,
    decreases s.len(),
{
    if s.len() > 0 {
        lemma_fit_prefix_whole(s.drop_first(), max - utf8_width(s[0]));
        assert(seq![s[0]] + s.drop_first() =~= s);
    }
}

fn char_width(c: char) -> (w: usize)
    ensures
        w == utf8_width(c),
{
    let u = c as u32;
    if u <= 0x7F {
        1
    } else if u <= 0x7FF {
        2
    } else if u <= 0xFFFF {
        3
    } else {
        4
    }
}

/// The byte length of `s` in UTF-8.
pub fn utf8_byte_len(s: &str) -> (res: usize)
    requires
        utf8_len(s@) <= usize::MAX,
    ensures
        res == utf8_len(s@),
{
    proof {
        lemma_utf8_len_is_encoding_len(s@);
    }
    s.len()
}

/// The longest prefix of `s` that fits in `max_bytes` bytes, ending on a character
/// boundary.
pub fn truncate_safe(s: &str, max_bytes: usize) -> (res: String)
    ensures
        res@ == fit_prefix(s@, max_bytes as int),
        utf8_len(res@) <= max_bytes,
{
    let chars = chars_of(s);
    let mut i: usize = 0;
    let mut used: usize = 0;
    proof {
        lemma_fit_prefix_fits(s@, max_bytes as int);
        assert(chars@.skip(0) =~= chars@);
        assert(chars@.take(0) + fit_prefix(chars@, max_bytes as int) =~= fit_prefix(chars@, max_bytes as int));
        assert(utf8_len(chars@.take(0)) == 0) by {
            assert(chars@.take(0) =~= Seq::<char>::empty());
        }
    }
    while i < chars.len() && char_width(chars[i]) <= max_bytes - used
        invariant
            i <= chars.len(),
            chars@ == s@,
            used <= max_bytes,
            used == utf8_len(chars@.take(i as int)),
            fit_prefix(s@, max_bytes as int) == chars@.take(i as int) + fit_prefix(chars@.skip(i as int), max_bytes - used),
        decreases chars.len() - i,
    {
        let w = char_width(chars[i]);
        proof {
            let rest = chars@.skip(i as int);
            assert(rest[0] == chars@[i as int]);
            assert(rest.drop_first() =~= chars@.skip(i + 1));
            assert(chars@.take(i + 1) =~= chars@.take(i as int) + seq![chars@[i as int]]);
            lemma_utf8_len_concat(chars@.take(i as int), seq![chars@[i as int]]);
            assert(seq![chars@[i as int]].drop_first() =~= Seq::<char>::empty());
            assert(utf8_len(Seq::<char>::empty()) == 0);
            assert(utf8_len(seq![chars@[i as int]]) == utf8_width(chars@[i as int]));
            assert(chars@.take(i as int) + (seq![chars@[i as int]] + fit_prefix(chars@.skip(i + 1), max_bytes - used - w))
                =~= chars@.take(i + 1) + fit_prefix(chars@.skip(i + 1), max_bytes - used - w));
        }
        used = used + w;
        i = i + 1;
    }
    proof {
        if i < chars.len() {
            assert(chars@.skip(i as int)[0] == chars@[i as int]);
        }
        assert(fit_prefix(chars@.skip(i as int), max_bytes - used) =~= Seq::<char>::empty());
        assert(chars@.take(i as int) + Seq::<char>::empty() =~= chars@.take(i as int));
    }
    let r = s.substring_char(0, i);
    assert(r@ =~= chars@.take(i as int));
    String::from_str(r)
}

/// What truncating `s` to `max` bytes with `suffix` gives: `s` itself when it fits;
/// otherwise its longest fitting prefix followed by the suffix (itself cut to `max`
/// bytes when it is longer), the whole fitting in `max` bytes.
pub open spec fn truncated_with_suffix(s: Seq<char>, max: int, suffix: Seq<char>) -> Seq<char> {
    if utf8_len(s) <= max {
        s
    } else {
        let sfx = if utf8_len(suffix) > max {
            fit_prefix(suffix, max)
        } else {
            suffix
        };
        fit_prefix(s, max - utf8_len(sfx)) + sfx
    }
}

/// Text that fits is left as it is; text that does not is cut to fit and, when the
/// suffix itself fits, ends with the suffix.
pub proof fn lemma_truncation_marks_cut(s: Seq<char>, max: int, suffix: Seq<char>)
    requires
        max >= 0,
    ensures
        utf8_len(s) <= max ==> truncated_with_suffix(s, max, suffix) == s,
        utf8_len(s) > max && utf8_len(suffix) <= max ==> {
            let r = truncated_with_suffix(s, max, suffix);
            r.len() >= suffix.len() && r.subrange(r.len() - suffix.len(), r.len() as int) == suffix
        },
        utf8_len(truncated_with_suffix(s, max, suffix)) <= max,
{
    if utf8_len(s) > max {
        let sfx = if utf8_len(suffix) > max {
            fit_prefix(suffix, max)
        } else {
            suffix
        };
        lemma_fit_prefix_fits(suffix, max);
        lemma_fit_prefix_fits(s, max - utf8_len(sfx));
        lemma_utf8_len_concat(fit_prefix(s, max - utf8_len(sfx)), sfx);
        let r = fit_prefix(s, max - utf8_len(sfx)) + sfx;
        assert(r.subrange(r.len() - sfx.len(), r.len() as int) =~= sfx);
    }
}

/// Truncates `s` to at most `max_bytes` bytes on a character boundary, ending it with
/// `suffix` when anything was cut.
pub fn truncate_safe_in_place(s: &mut String, max_bytes: usize, suffix: &str)
    requires
        utf8_len(old(s)@) <= usize::MAX,
        utf8_len(suffix@) <= usize::MAX,
    ensures
        final(s)@ == truncated_with_suffix(old(s)@, max_bytes as int, suffix@),
        utf8_len(final(s)@) <= max_bytes,
{
    let len = utf8_byte_len(s.as_str());
    if len <= max_bytes {
        return;
    }
    let sfx = if utf8_byte_len(suffix) > max_bytes {
        truncate_safe(suffix, max_bytes)
    } else {
        String::from_str(suffix)
    };
    let sfx_len = utf8_byte_len(sfx.as_str());
    let end = max_bytes - sfx_len;
    let mut head = truncate_safe(s.as_str(), end);
    proof {
        lemma_utf8_len_concat(head@, sfx@);
    }
    head.append(sfx.as_str());
    *s = head;
}

/// The suffix marking a truncated message.
pub open spec fn truncated_suffix() -> Seq<char> {
    "...truncated due to length"@
}

/// How a conversation is compacted.
#[derive(Debug, Clone, Copy, PartialEq, Eq, Structural)]
pub struct CompactStrategy {
    /// Whether to truncate large messages in the history.
    pub truncate_large_messages: bool,
    /// The maximum size of a message in the history, applied when truncating.
    pub max_message_length: usize,
}

impl Default for CompactStrategy {
    fn default() -> (res: Self)
        ensures
            res == (CompactStrategy { truncate_large_messages: false, max_message_length: 25000 }),
    {
        CompactStrategy { truncate_large_messages: false, max_message_length: 25_000 }
    }
}

/// The text of a JSON value as the compaction measures it: its serialization, or empty.
pub open spec fn json_or_empty(v: serde_json::Value) -> Seq<char> {
    if json_serializes(v) {
        json_text(v)
    } else {
        Seq::empty()
    }
}

/// The total size and number of the measured items of tool result content.
pub open spec fn result_measure(c: Seq<ToolResultContentBlock>) -> (nat, nat)
    decreases c.len(),
{
    if c.len() == 0 {
        (0, 0)
    } else {
        let (l, n) = result_measure(c.drop_last());
        match c.last() {
            ToolResultContentBlock::Text(t) => (l + utf8_len(t@), n + 1),
            ToolResultContentBlock::Json(v) => (l + utf8_len(json_or_empty(v)), n + 1),
            ToolResultContentBlock::Image(_) => (l, n),
        }
    }
}

/// The total size and number of the measured items of a message's content: text blocks,
/// and the text and JSON of tool results.
pub open spec fn content_measure(c: Seq<ContentBlock>) -> (nat, nat)
    decreases c.len(),
{
    if c.len() == 0 {
        (0, 0)
    } else {
        let (l, n) = content_measure(c.drop_last());
        match c.last() {
            ContentBlock::Text(t) => (l + utf8_len(t@), n + 1),
            ContentBlock::ToolResult(b) => {
                let (bl, bn) = result_measure(b.content@);
                (l + bl, n + bn)
            },
            _ => (l, n),
        }
    }
}

/// Whether the measures of every message fit in a `usize`.
pub open spec fn measures_fit(msgs: Seq<Message>) -> bool {
    forall|i: int|
        0 <= i < msgs.len() ==> content_measure(#[trigger] msgs[i].content@).0 <= usize::MAX && content_measure(
            msgs[i].content@,
        ).1 <= usize::MAX
}

fn measure_result(c: &Vec<ToolResultContentBlock>, base_len: usize, base_n: usize) -> (res: (usize, usize))
    requires
        base_len + result_measure(c@).0 <= usize::MAX,
        base_n + result_measure(c@).1 <= usize::MAX,
    ensures
        res.0 == base_len + result_measure(c@).0,
        res.1 == base_n + result_measure(c@).1,
{
    let mut l = base_len;
    let mut n = base_n;
    let mut i: usize = 0;
    while i < c.len()
        invariant
            i <= c.len(),
            base_len + result_measure(c@).0 <= usize::MAX,
            base_n + result_measure(c@).1 <= usize::MAX,
            l == base_len + result_measure(c@.take(i as int)).0,
            n == base_n + result_measure(c@.take(i as int)).1,
        decreases c.len() - i,
    {
        proof {
            assert(c@.take(i + 1).drop_last() =~= c@.take(i as int));
            lemma_result_measure_prefix(c@, i + 1);
        }
        match &c[i] {
            ToolResultContentBlock::Text(t) => {
                l = l + utf8_byte_len(t.as_str());
                n = n + 1;
            },
            ToolResultContentBlock::Json(v) => {
                let s = match json_to_string(v) {
                    Ok(s) => s,
                    Err(_) => String::new(),
                };
                l = l + utf8_byte_len(s.as_str());
                n = n + 1;
            },
            ToolResultContentBlock::Image(_) => {},
        }
        i = i + 1;
    }
    proof {
        assert(c@.take(c.len() as int) =~= c@);
    }
    (l, n)
}

proof fn lemma_result_measure_prefix(c: Seq<ToolResultContentBlock>, k: int)
    requires
        0 <= k <= c.len(),
    ensures
        result_measure(c.take(k)).0 <= result_measure(c).0,
        result_measure(c.take(k)).1 <= result_measure(c).1,
    decreases c.len() - k,
{
    if k < c.len() {
        assert(c.drop_last().take(k) =~= c.take(k));
        lemma_result_measure_prefix(c.drop_last(), k);
    } else {
        assert(c.take(k) =~= c);
    }
}

proof fn lemma_content_measure_prefix(c: Seq<ContentBlock>, k: int)
    requires
        0 <= k <= c.len(),
    ensures
        content_measure(c.take(k)).0 <= content_measure(c).0,
        content_measure(c.take(k)).1 <= content_measure(c).1,
    decreases c.len() - k,
{
    if k < c.len() {
        assert(c.drop_last().take(k) =~= c.take(k));
        lemma_content_measure_prefix(c.drop_last(), k);
    } else {
        assert(c.take(k) =~= c);
    }
}

/// The total size and number of the measured items of a message.
fn measure_message(msg: &Message) -> (res: (usize, usize))
    requires
        content_measure(msg.content@).0 <= usize::MAX,
        content_measure(msg.content@).1 <= usize::MAX,
    ensures
        res.0 == content_measure(msg.content@).0,
        res.1 == content_measure(msg.content@).1,
{
    let mut l: usize = 0;
    let mut n: usize = 0;
    let mut i: usize = 0;
    while i < msg.content.len()
        invariant
            i <= msg.content.len(),
            content_measure(msg.content@).0 <= usize::MAX,
            content_measure(msg.content@).1 <= usize::MAX,
            l == content_measure(msg.content@.take(i as int)).0,
            n == content_measure(msg.content@.take(i as int)).1,
        decreases msg.content.len() - i,
    {
        proof {
            assert(msg.content@.take(i + 1).drop_last() =~= msg.content@.take(i as int));
            lemma_content_measure_prefix(msg.content@, i + 1);
        }
        match &msg.content[i] {
            ContentBlock::Text(t) => {
                l = l + utf8_byte_len(t.as_str());
                n = n + 1;
            },
            ContentBlock::ToolResult(b) => {
                let (nl, nn) = measure_result(&b.content, l, n);
                l = nl;
                n = nn;
            },
            _ => {},
        }
        i = i + 1;
    }
    proof {
        assert(msg.content@.take(msg.content.len() as int) =~= msg.content@);
    }
    (l, n)
}

/// Whether a piece of a tool result is the truncation of `before` to `max` bytes: text
/// truncated, JSON turned into its truncated text, images unchanged.
pub open spec fn piece_truncated(before: ToolResultContentBlock, after: ToolResultContentBlock, max: int) -> bool {
    match before {
        ToolResultContentBlock::Text(t) => after matches ToolResultContentBlock::Text(u) && u@
            == truncated_with_suffix(t@, max, truncated_suffix()),
        ToolResultContentBlock::Json(v) => after matches ToolResultContentBlock::Text(u) && u@
            == truncated_with_suffix(json_or_empty(v), max, truncated_suffix()),
        ToolResultContentBlock::Image(_) => after == before,
    }
}

/// Whether a content block is the truncation of `before` to `max` bytes per item.
pub open spec fn block_truncated(before: ContentBlock, after: ContentBlock, max: int) -> bool {
    match before {
        ContentBlock::Text(t) => after matches ContentBlock::Text(u) && u@ == truncated_with_suffix(
            t@,
            max,
            truncated_suffix(),
        ),
        ContentBlock::ToolResult(b) => after matches ContentBlock::ToolResult(a) && a.tool_use_id == b.tool_use_id
            && a.status == b.status && a.content@.len() == b.content@.len() && forall|k: int|
            0 <= k < b.content@.len() ==> piece_truncated(b.content@[k], a.content@[k], max),
        _ => after == before,
    }
}

/// Whether `after` is `before` compacted: a message whose measured size exceeds `max`
/// has each measured item truncated to an equal share of `max`.
pub open spec fn message_compacted(before: Message, after: Message, max: usize) -> bool {
    &&& after.id == before.id
    &&& after.role == before.role
    &&& after.timestamp == before.timestamp
    &&& {
        let (total, items) = content_measure(before.content@);
        if total <= max {
            after.content@ == before.content@
        } else {
            &&& after.content@.len() == before.content@.len()
            &&& forall|k: int|
                0 <= k < before.content@.len() ==> block_truncated(
                    before.content@[k],
                    after.content@[k],
                    (max as nat / items) as int,
                )
        }
    }
}

proof fn lemma_result_items_bounded(c: Seq<ToolResultContentBlock>, k: int)
    requires
        0 <= k < c.len(),
    ensures
        (c[k] matches ToolResultContentBlock::Text(t) ==> utf8_len(t@) <= result_measure(c).0),
        (c[k] matches ToolResultContentBlock::Json(v) ==> utf8_len(json_or_empty(v)) <= result_measure(c).0),
    decreases c.len(),
{
    if k < c.len() - 1 {
        lemma_result_items_bounded(c.drop_last(), k);
    }
}

proof fn lemma_content_items_bounded(c: Seq<ContentBlock>, k: int)
    requires
        0 <= k < c.len(),
    ensures
        (c[k] matches ContentBlock::Text(t) ==> utf8_len(t@) <= content_measure(c).0),
        (c[k] matches ContentBlock::ToolResult(b) ==> result_measure(b.content@).0 <= content_measure(c).0),
        content_measure(c).1 == 0 ==> !(c[k] is Text),
    decreases c.len(),
{
    if k < c.len() - 1 {
        lemma_content_items_bounded(c.drop_last(), k);
    }
}

/// Truncates the text and JSON pieces of a tool result to `max_bytes` each.
fn truncate_result_content(content: Vec<ToolResultContentBlock>, max_bytes: usize) -> (res: Vec<ToolResultContentBlock>)
    requires
        result_measure(content@).0 <= usize::MAX,
    ensures
        res@.len() == content@.len(),
        forall|k: int| 0 <= k < content@.len() ==> piece_truncated(content@[k], res@[k], max_bytes as int),
{
    let ghost orig = content@;
    let mut rest = content;
    let mut out: Vec<ToolResultContentBlock> = Vec::new();
    let mut i: usize = 0;
    let n = rest.len();
    while rest.len() > 0
        invariant
            i + rest@.len() == n,
            n == orig.len(),
            rest@ == orig.skip(i as int),
            out@.len() == i,
            result_measure(orig).0 <= usize::MAX,
            forall|k: int| 0 <= k < i ==> piece_truncated(orig[k], out@[k], max_bytes as int),
        decreases rest.len(),
    {
        let piece = rest.remove(0);
        proof {
            assert(orig.skip(i as int)[0] == orig[i as int]);
            assert(rest@ =~= orig.skip(i + 1));
            lemma_result_items_bounded(orig, i as int);
            reveal_strlit("...truncated due to length");
            lemma_utf8_len_bound("...truncated due to length"@);
        }
        let new_piece = match piece {
            ToolResultContentBlock::Text(mut t) => {
                truncate_safe_in_place(&mut t, max_bytes, "...truncated due to length");
                ToolResultContentBlock::Text(t)
            },
            ToolResultContentBlock::Json(v) => {
                let mut s = match json_to_string(&v) {
                    Ok(s) => s,
                    Err(_) => String::new(),
                };
                truncate_safe_in_place(&mut s, max_bytes, "...truncated due to length");
                ToolResultContentBlock::Text(s)
            },
            other => other,
        };
        out.push(new_piece);
        i = i + 1;
    }
    out
}

/// Truncates every measured item of a message's content to `max_bytes`.
fn truncate_message_content(content: Vec<ContentBlock>, max_bytes: usize) -> (res: Vec<ContentBlock>)
    requires
        content_measure(content@).0 <= usize::MAX,
    ensures
        res@.len() == content@.len(),
        forall|k: int| 0 <= k < content@.len() ==> block_truncated(content@[k], res@[k], max_bytes as int),
{
    let ghost orig = content@;
    let mut rest = content;
    let mut out: Vec<ContentBlock> = Vec::new();
    let mut i: usize = 0;
    let n = rest.len();
    while rest.len() > 0
        invariant
            i + rest@.len() == n,
            n == orig.len(),
            rest@ == orig.skip(i as int),
            out@.len() == i,
            content_measure(orig).0 <= usize::MAX,
            forall|k: int| 0 <= k < i ==> block_truncated(orig[k], out@[k], max_bytes as int),
        decreases rest.len(),
    {
        let block = rest.remove(0);
        proof {
            assert(orig.skip(i as int)[0] == orig[i as int]);
            assert(rest@ =~= orig.skip(i + 1));
            lemma_content_items_bounded(orig, i as int);
            reveal_strlit("...truncated due to length");
            lemma_utf8_len_bound("...truncated due to length"@);
        }
        let new_block = match block {
            ContentBlock::Text(mut t) => {
                truncate_safe_in_place(&mut t, max_bytes, "...truncated due to length");
                ContentBlock::Text(t)
            },
            ContentBlock::ToolResult(b) => {
                let new_content = truncate_result_content(b.content, max_bytes);
                ContentBlock::ToolResult(crate::messages::ToolResultBlock {
                    tool_use_id: b.tool_use_id,
                    content: new_content,
                    status: b.status,
                })
            },
            other => other,
        };
        out.push(new_block);
        i = i + 1;
    }
    out
}

/// Compacts one message (see [message_compacted]).
fn compact_message(msg: Message, max: usize) -> (res: Message)
    requires
        content_measure(msg.content@).0 <= usize::MAX,
        content_measure(msg.content@).1 <= usize::MAX,
    ensures
        message_compacted(msg, res, max),
{
    let (total_len, total_items) = measure_message(&msg);
    if total_len <= max {
        return msg;
    }
    proof {
        if total_items == 0 {
            lemma_measure_count_zero(msg.content@);
        }
    }
    let max_bytes = max / total_items;
    let Message { id, role, content, timestamp } = msg;
    let new_content = truncate_message_content(content, max_bytes);
    Message { id, role, content: new_content, timestamp }
}

proof fn lemma_measure_count_zero(c: Seq<ContentBlock>)
    requires
        content_measure(c).1 == 0,
    ensures
        content_measure(c).0 == 0,
    decreases c.len(),
{
    if c.len() > 0 {
        lemma_measure_count_zero(c.drop_last());
        match c.last() {
            ContentBlock::ToolResult(b) => {
                lemma_result_count_zero(b.content@);
            },
            _ => {},
        }
    }
}

proof fn lemma_result_count_zero(c: Seq<ToolResultContentBlock>)
    requires
        result_measure(c).1 == 0,
    ensures
        result_measure(c).0 == 0,
    decreases c.len(),
{
    if c.len() > 0 {
        lemma_result_count_zero(c.drop_last());
    }
}

impl CompactStrategy {
    /// Applies the strategy to a request: when truncating large messages, every message
    /// whose measured size exceeds the maximum has its text, tool result text and JSON
    /// truncated to an equal share of it, with a suffix marking the cut.
    pub fn apply_strategy(&self, request: &mut SendRequestArgs)
        requires
            measures_fit(old(request).messages@),
        ensures
            final(request).tool_specs == old(request).tool_specs,
            final(request).system_prompt == old(request).system_prompt,
            !self.truncate_large_messages ==> final(request).messages@ == old(request).messages@,
            self.truncate_large_messages ==> final(request).messages@.len() == old(request).messages@.len()
                && forall|i: int|
                0 <= i < old(request).messages@.len() ==> message_compacted(
                    old(request).messages@[i],
                    #[trigger] final(request).messages@[i],
                    self.max_message_length,
                ),
    {
        if !self.truncate_large_messages {
            return;
        }
        let ghost orig = request.messages@;
        let mut rest: Vec<Message> = Vec::new();
        std::mem::swap(&mut rest, &mut request.messages);
        let mut out: Vec<Message> = Vec::new();
        let mut i: usize = 0;
        let n = rest.len();
        while rest.len() > 0
            invariant
                i + rest@.len() == n,
                n == orig.len(),
                rest@ == orig.skip(i as int),
                out@.len() == i,
                measures_fit(orig),
                forall|k: int| 0 <= k < i ==> message_compacted(orig[k], #[trigger] out@[k], self.max_message_length),
            decreases rest.len(),
        {
            let msg = rest.remove(0);
            proof {
                assert(orig.skip(i as int)[0] == orig[i as int]);
                assert(rest@ =~= orig.skip(i + 1));
                assert(content_measure(orig[i as int].content@).0 <= usize::MAX);
            }
            out.push(compact_message(msg, self.max_message_length));
            i = i + 1;
        }
        request.messages = out;
    }
}

/// The marker that opens a context entry.
pub const CONTEXT_ENTRY_START_HEADER: &'static str = "--- CONTEXT ENTRY BEGIN ---\n";

/// The marker that closes a context entry.
pub const CONTEXT_ENTRY_END_HEADER: &'static str = "--- CONTEXT ENTRY END ---\n\n";

/// The line that opens every summary request.
pub open spec fn summary_system_note() -> Seq<char> {
    "[SYSTEM NOTE: This is an automated summarization request, not from the user]"@
}

/// The format requirements that follow it.
pub open spec fn summary_format_requirements() -> Seq<char> {
    "\n\nFORMAT REQUIREMENTS: Create a structured, concise summary in bullet-point format. DO NOT respond conversationally. DO NOT address the user directly.\n\n"@
}

/// The description of the summary to write.
pub open spec fn summary_task() -> Seq<char> {
    "Your task is to create a structured summary document containing:\n1) A bullet-point list of key topics/questions covered\n2) Bullet points for all significant tools executed and their results\n3) Bullet points for any code or technical information shared\n4) A section of key insights gained\n\n5) REQUIRED: the ID of the currently loaded todo list, if any\n\nFORMAT THE SUMMARY IN THIRD PERSON, NOT AS A DIRECT RESPONSE. Example format:\n\n## CONVERSATION SUMMARY\n* Topic 1: Key information\n* Topic 2: Key information\n\n## TOOLS EXECUTED\n* Tool X: Result Y\n\n## TODO ID\n* <id>\n\nRemember this is a DOCUMENT not a chat response."@
}

/// The sentence a request with custom instructions adds after the task.
pub open spec fn summary_custom_note() -> Seq<char> {
    " The custom instruction above modifies what to prioritize."@
}

/// The closing line of every summary request.
pub open spec fn summary_filter() -> Seq<char> {
    "\nFILTER OUT CHAT CONVENTIONS (greetings, offers to help, etc)."@
}

/// The request for a summary without custom instructions.
pub open spec fn default_summary_request() -> Seq<char> {
    summary_system_note() + summary_format_requirements() + summary_task() + summary_filter()
}

/// The request for a summary with custom instructions, before and after them.
pub open spec fn custom_summary_request(custom: Seq<char>) -> Seq<char> {
    summary_system_note() + summary_format_requirements() + "IMPORTANT CUSTOM INSTRUCTION: "@ + custom + "\n\n"@
        + summary_task() + summary_custom_note() + summary_filter()
}

/// The previous summary as a context entry appended to the request.
pub open spec fn summary_entry(summary: Seq<char>) -> Seq<char> {
    "\n\n"@ + CONTEXT_ENTRY_START_HEADER@ + "This summary contains ALL relevant information from our previous conversation including tool uses, results, code analysis, and file operations. YOU MUST be sure to include this information when creating your summarization document.\n\n"@ + "SUMMARY CONTENT:\n"@ + summary + "\n"@
        + CONTEXT_ENTRY_END_HEADER@
}

/// The prompt that asks the model to summarize the conversation: the default request, or
/// one that puts the custom instruction forward; followed by the latest summary, if any,
/// as a context entry.
pub fn create_summary_prompt(custom_prompt: Option<String>, latest_summary: Option<&str>) -> (res: String)
    ensures
        res@ == match custom_prompt {
            Some(c) => custom_summary_request(c@),
            None => default_summary_request(),
        } + match latest_summary {
            Some(s) => summary_entry(s@),
            None => Seq::empty(),
        },
{
    let mut summary_content = String::from_str("[SYSTEM NOTE: This is an automated summarization request, not from the user]");
    summary_content.append("\n\nFORMAT REQUIREMENTS: Create a structured, concise summary in bullet-point format. DO NOT respond conversationally. DO NOT address the user directly.\n\n");
    if let Some(custom) = &custom_prompt {
        summary_content.append("IMPORTANT CUSTOM INSTRUCTION: ");
        summary_content.append(custom.as_str());
        summary_content.append("\n\n");
    }
    summary_content.append("Your task is to create a structured summary document containing:\n1) A bullet-point list of key topics/questions covered\n2) Bullet points for all significant tools executed and their results\n3) Bullet points for any code or technical information shared\n4) A section of key insights gained\n\n5) REQUIRED: the ID of the currently loaded todo list, if any\n\nFORMAT THE SUMMARY IN THIRD PERSON, NOT AS A DIRECT RESPONSE. Example format:\n\n## CONVERSATION SUMMARY\n* Topic 1: Key information\n* Topic 2: Key information\n\n## TOOLS EXECUTED\n* Tool X: Result Y\n\n## TODO ID\n* <id>\n\nRemember this is a DOCUMENT not a chat response.");
    if custom_prompt.is_some() {
        summary_content.append(" The custom instruction above modifies what to prioritize.");
    }
    summary_content.append("\nFILTER OUT CHAT CONVENTIONS (greetings, offers to help, etc).");
    proof {
        match custom_prompt {
            Some(c) => assert(summary_content@ =~= custom_summary_request(c@)),
            None => assert(summary_content@ =~= default_summary_request()),
        }
    }
    let ghost head = summary_content@;
    if let Some(summary) = latest_summary {
        summary_content.append("\n\n");
        summary_content.append(CONTEXT_ENTRY_START_HEADER);
        summary_content.append("This summary contains ALL relevant information from our previous conversation including tool uses, results, code analysis, and file operations. YOU MUST be sure to include this information when creating your summarization document.\n\n");
        summary_content.append("SUMMARY CONTENT:\n");
        summary_content.append(summary);
        summary_content.append("\n");
        summary_content.append(CONTEXT_ENTRY_END_HEADER);
        proof {
            assert(summary_content@ =~= head + summary_entry(summary@));
        }
    } else {
        assert(summary_content@ =~= head + Seq::<char>::empty());
    }
    summary_content
}

/// Every summary request opens with the system note, and a custom instruction stands right
/// after the format requirements; a latest summary only adds its entry at the end.
pub proof fn lemma_summary_prompt_shape(custom_prompt: Option<Seq<char>>, latest_summary: Option<Seq<char>>)
    ensures
        ({
            let head = match custom_prompt {
                Some(c) => custom_summary_request(c),
                None => default_summary_request(),
            };
            let prefix = summary_system_note() + summary_format_requirements();
            &&& head.len() >= prefix.len()
            &&& head.take(prefix.len() as int) == prefix
            &&& head.take(summary_system_note().len() as int) == summary_system_note()
            &&& (custom_prompt matches Some(c) ==> head.subrange(
                prefix.len() as int,
                (prefix.len() + "IMPORTANT CUSTOM INSTRUCTION: "@.len() + c.len()) as int,
            ) == "IMPORTANT CUSTOM INSTRUCTION: "@ + c)
        }),
{
    let prefix = summary_system_note() + summary_format_requirements();
    match custom_prompt {
        Some(c) => {
            let head = custom_summary_request(c);
            let rest = "IMPORTANT CUSTOM INSTRUCTION: "@ + c + "\n\n"@ + summary_task() + summary_custom_note() + summary_filter();
            assert(head =~= prefix + rest);
            assert(head.take(prefix.len() as int) =~= prefix);
            assert(head.take(summary_system_note().len() as int) =~= summary_system_note());
            assert(head.subrange(prefix.len() as int, (prefix.len() + "IMPORTANT CUSTOM INSTRUCTION: "@.len() + c.len()) as int)
                =~= "IMPORTANT CUSTOM INSTRUCTION: "@ + c);
        },
        None => {
            let head = default_summary_request();
            assert(head =~= prefix + (summary_task() + summary_filter()));
            assert(head.take(prefix.len() as int) =~= prefix);
            assert(head.take(summary_system_note().len() as int) =~= summary_system_note());
        },
    }
}

/// Whether `s` takes more than `max` bytes in UTF-8.
pub(crate) fn utf8_len_exceeds(s: &str, max: usize) -> (res: bool)
    ensures
        res == (utf8_len(s@) > max),
{
    let t = truncate_safe(s, max);
    let tc = chars_of(t.as_str());
    let sc = chars_of(s);
    proof {
        lemma_fit_prefix_fits(s@, max as int);
        if utf8_len(s@) <= max {
            lemma_fit_prefix_whole(s@, max as int);
        } else {
            if tc@.len() == sc@.len() {
                assert(s@.take(s@.len() as int) =~= s@);
            }
        }
    }
    tc.len() < sc.len()
}

} // verus!
