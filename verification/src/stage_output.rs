//! Reading what a pipeline stage printed: its output, and the lines of its log.
use vstd::prelude::*;
use crate::claude::StreamEvent;
use crate::extract::{find, first_chars, head, tail};
use crate::json::Json;
use crate::pipeline_data::{OutputV, ReviewOutput, ReviewV, StageOutput, StageType};
use crate::text::{cat, cat4, chars_of, join_texts, split_lines, trim, u64_text};

verus! {

// ---- the JSON in a text ----

/// How many characters of `s` the object takes that begins there: up to the brace that closes
/// the first one, where braces in strings do not count.
pub open spec fn object_len(s: Seq<char>, depth: int, quoted: bool, escaped: bool) -> Option<nat>
    decreases s.len(),
{
    if s.len() == 0 {
        None
    } else {
        let c = s[0];
        let rest = s.drop_first();
        let more = if escaped {
            object_len(rest, depth, quoted, false)
        } else if c == '\\' && quoted {
            object_len(rest, depth, quoted, true)
        } else if c == '"' {
            object_len(rest, depth, !quoted, false)
        } else if c == '{' && !quoted {
            object_len(rest, depth + 1, quoted, false)
        } else if c == '}' && !quoted {
            if depth == 1 {
                Some(0)
            } else {
                object_len(rest, depth - 1, quoted, false)
            }
        } else {
            object_len(rest, depth, quoted, false)
        };
        match more {
            Some(n) => Some(n + 1),
            None => None,
        }
    }
}

/// The first object in a text, if it is closed.
pub open spec fn raw_object(text: Seq<char>) -> Option<Seq<char>> {
    match crate::extract::position(text, "{"@) {
        Some(s) => match object_len(text.skip(s as int), 0, false, false) {
            Some(n) => Some(text.skip(s as int).take(n as int)),
            None => None,
        },
        None => None,
    }
}

/// The JSON in what a stage printed: the first block that is marked as JSON, unless it is
/// empty, or else the first object.
pub open spec fn pipeline_json(text: Seq<char>) -> Option<Seq<char>> {
    match crate::extract::marked_block(text) {
        Some(block) => if crate::text::trimmed(block).len() > 0 {
            Some(crate::text::trimmed(block))
        } else {
            raw_object(text)
        },
        None => raw_object(text),
    }
}

/// An object that is found begins and ends with its braces.
pub proof fn law_objects_are_braced(text: Seq<char>)
    requires
        raw_object(text) is Some,
    ensures
        raw_object(text)->0.len() >= 1,
        raw_object(text)->0.first() == '{',
        raw_object(text)->0.last() == '}',
{
    reveal_strlit("{");
    let s = crate::extract::position(text, "{"@)->0;
    position_bound(text, "{"@);
    let rest = text.skip(s as int);
    object_end(rest, 0, false, false);
    assert("{"@[0] == '{');
    assert("{"@.is_prefix_of(rest));
    assert(rest[0] == '{');
}

/// A position is where the text stands that is sought.
proof fn position_bound(hay: Seq<char>, needle: Seq<char>)
    requires
        crate::extract::position(hay, needle) is Some,
    ensures
        needle.is_prefix_of(hay.skip(crate::extract::position(hay, needle)->0 as int)),
        crate::extract::position(hay, needle)->0 <= hay.len(),
    decreases hay.len(),
{
    if needle.is_prefix_of(hay) {
        assert(hay.skip(0) =~= hay);
    } else {
        position_bound(hay.drop_first(), needle);
        let i = crate::extract::position(hay.drop_first(), needle)->0;
        assert(hay.drop_first().skip(i as int) =~= hay.skip(i as int + 1));
    }
}

/// An object ends with a brace.
proof fn object_end(s: Seq<char>, depth: int, quoted: bool, escaped: bool)
    ensures
        object_len(s, depth, quoted, escaped) matches Some(n) ==> 1 <= n <= s.len() && s[n - 1]
            == '}',
    decreases s.len(),
{
    if s.len() > 0 {
        let rest = s.drop_first();
        object_end(rest, depth, quoted, false);
        object_end(rest, depth, quoted, true);
        object_end(rest, depth, !quoted, false);
        object_end(rest, depth + 1, quoted, false);
        object_end(rest, depth - 1, quoted, false);
        match object_len(s, depth, quoted, escaped) {
            Some(n) => {
                if n > 1 {
                    assert(rest[n - 2] == s[n - 1]);
                }
            },
            None => {},
        }
    }
}

/// The first object in a text, if it is closed.
fn find_object<'a>(text: &'a str) -> (r: Option<&'a str>)
    ensures
        match r {
            Some(o) => raw_object(text@) == Some(o@),
            None => raw_object(text@) is None,
        },
{
    let start = match find(text, "{") {
        Some(s) => s,
        None => return None,
    };
    proof {
        reveal_strlit("{");
        position_bound(text@, "{"@);
    }
    let rest = tail(text, start);
    let v = chars_of(rest);
    let ghost s = rest@;
    let mut depth: usize = 0;
    let mut quoted = false;
    let mut escaped = false;
    let mut i: usize = 0;
    assert(s.skip(0) =~= s);
    assert("{"@[0] == '{');
    assert(s[0] == '{');
    while i < v.len()
        invariant
            v@ == s,
            s == rest@,
            i <= v@.len(),
            depth <= i,
            i == 0 ==> depth == 0 && !quoted && !escaped && s.len() > 0 && s[0] == '{',
            i > 0 ==> depth >= 1,
            object_len(s, 0, false, false) == match object_len(
                s.skip(i as int),
                depth as int,
                quoted,
                escaped,
            ) {
                Some(n) => Some(n + i as nat),
                None => None,
            },
            raw_object(text@) == match object_len(s, 0, false, false) {
                Some(n) => Some(s.take(n as int)),
                None => None,
            },
        decreases v@.len() - i,
    {
        let c = v[i];
        assert(s.skip(i as int)[0] == c);
        assert(s.skip(i as int).drop_first() =~= s.skip(i + 1));
        if escaped {
            escaped = false;
        } else if c == '\\' && quoted {
            escaped = true;
        } else if c == '"' {
            quoted = !quoted;
        } else if c == '{' && !quoted {
            depth = depth + 1;
        } else if c == '}' && !quoted {
            if depth == 1 {
                assert(object_len(s, 0, false, false) == Some((i + 1) as nat));
                return Some(head(rest, i + 1));
            }
            depth = depth - 1;
        }
        i += 1;
    }
    assert(s.skip(i as int).len() == 0);
    None
}

/// Extract JSON from text that a pipeline stage printed.
pub fn extract_pipeline_json_from_text(text: &str) -> (r: Option<String>)
    ensures
        crate::text::is_text(r, pipeline_json(text@)),
{
    proof {
        reveal_strlit("```json");
        reveal_strlit("```");
    }
    match find(text, "```json") {
        Some(start) => {
            let rest = tail(text, start + 7);
            match find(rest, "```") {
                Some(end) => {
                    let block = trim(head(rest, end));
                    if !block.is_empty() {
                        return Some(block.to_owned());
                    }
                },
                None => {},
            }
        },
        None => {},
    }
    match find_object(text) {
        Some(o) => Some(o.to_owned()),
        None => None,
    }
}

// ---- the output of a stage ----

/// How long a summary is at most.
pub const SUMMARY_CHARS: usize = 200;

/// A short form of a text: its first three lines, cut.
pub open spec fn summary_of(text: Seq<char>) -> Seq<char> {
    let lines = crate::text::lines(text);
    let joined = crate::text::separated(
        if lines.len() <= 3 {
            lines
        } else {
            lines.take(3)
        },
        " "@,
    );
    if joined.len() <= SUMMARY_CHARS {
        joined
    } else {
        joined.take(SUMMARY_CHARS as int)
    }
}

fn summarize(text: &str) -> (r: String)
    ensures
        r@ == summary_of(text@),
{
    let mut lines = split_lines(text);
    let ghost all = crate::text::texts_view(lines@);
    if lines.len() > 3 {
        lines.truncate(3);
        assert(crate::text::texts_view(lines@) =~= all.take(3));
    }
    let joined = join_texts(&lines, " ");
    first_chars(joined.as_str(), SUMMARY_CHARS).to_owned()
}

/// The output of a stage that printed no output that can be read: a plan or an implementation
/// counts as done, a review as failed.
pub open spec fn fallback(stage: StageType, text: Seq<char>) -> OutputV {
    OutputV {
        success: stage != StageType::Review,
        summary: summary_of(text),
        plan: None,
        implementation: None,
        review: if stage == StageType::Review {
            Some(
                ReviewV {
                    passed: false,
                    issues: Seq::empty(),
                    feedback: "Could not parse review output. Treating as failed."@,
                },
            )
        } else {
            None
        },
    }
}

/// The output of a stage that printed no output that can be read.
pub fn fallback_output(stage: StageType, text: &str) -> (r: StageOutput)
    ensures
        r@ == fallback(stage, text@),
{
    let review = if stage == StageType::Review {
        let issues: Vec<Json> = Vec::new();
        assert(crate::json::json_views(issues@) =~= Seq::empty());
        Some(
            ReviewOutput {
                passed: false,
                issues,
                feedback: "Could not parse review output. Treating as failed.".to_owned(),
            },
        )
    } else {
        None
    };
    StageOutput {
        success: stage != StageType::Review,
        summary: summarize(text),
        plan: None,
        implementation: None,
        review,
    }
}

/// A review whose output cannot be read has not passed.
pub proof fn law_an_unread_review_has_not_passed(text: Seq<char>)
    ensures
        !fallback(StageType::Review, text).success,
        fallback(StageType::Review, text).review matches Some(r) && !r.passed,
        fallback(StageType::Plan, text).success,
        fallback(StageType::Implement, text).success,
{
}

/// A summary is short.
pub proof fn law_summaries_are_short(text: Seq<char>)
    ensures
        summary_of(text).len() <= SUMMARY_CHARS,
{
}

// ---- the log of a stage ----

/// How many bytes of a tool's result are logged.
pub const RESULT_BYTES: usize = 200;

/// Whether the first bytes of a text are a text.
pub open spec fn can_cut(content: Seq<char>) -> bool {
    let bytes = vstd::utf8::encode_utf8(content);
    bytes.len() <= RESULT_BYTES || vstd::utf8::is_char_boundary(bytes, RESULT_BYTES as int)
}

/// The text in the first bytes of a text, or all of it.
pub open spec fn cut(content: Seq<char>) -> Seq<char> {
    let bytes = vstd::utf8::encode_utf8(content);
    if bytes.len() <= RESULT_BYTES {
        content
    } else {
        vstd::utf8::decode_utf8(bytes.take(RESULT_BYTES as int))
    }
}

/// Whether the first bytes of a text are a text.
pub fn can_cut_result(content: &str) -> (r: bool)
    ensures
        r == can_cut(content@),
{
    content.as_bytes().len() <= RESULT_BYTES || content.is_char_boundary(RESULT_BYTES)
}

fn cut_result<'a>(content: &'a str) -> (r: &'a str)
    requires
        can_cut(content@),
    ensures
        r@ == cut(content@),
{
    if content.as_bytes().len() <= RESULT_BYTES {
        return content;
    }
    let (start, _) = content.split_at(RESULT_BYTES);
    proof {
        vstd::utf8::encode_utf8_decode_utf8(start@);
        assert(vstd::utf8::encode_utf8(content@).subrange(0, RESULT_BYTES as int) =~= vstd::utf8::encode_utf8(
            content@,
        ).take(RESULT_BYTES as int));
    }
    start
}

/// Whether an event can be logged.
pub open spec fn can_log(event: StreamEvent) -> bool {
    event matches StreamEvent::ToolResult { content } ==> can_cut(content@)
}

/// How an event is logged, if it is.
pub open spec fn log_line(event: StreamEvent) -> Option<Seq<char>> {
    match event {
        StreamEvent::TextDelta { text } => Some("[text] "@ + text@),
        StreamEvent::ToolUse { name, .. } => Some("[tool_use] "@ + name@),
        StreamEvent::ToolResult { content } => Some("[tool_result] "@ + cut(content@)),
        StreamEvent::Result { text, session_id } => Some(
            "[result] session="@ + session_id@ + " len="@ + crate::text::decimal(
                vstd::utf8::encode_utf8(text@).len(),
            ),
        ),
        StreamEvent::Error { message } => Some("[error] "@ + message@),
        _ => None,
    }
}

/// How an event is logged, if it is.
pub fn logged_line(event: &StreamEvent) -> (r: Option<String>)
    requires
        can_log(*event),
    ensures
        crate::text::is_text(r, log_line(*event)),
{
    match event {
        StreamEvent::TextDelta { text } => Some(cat("[text] ", text.as_str())),
        StreamEvent::ToolUse { name, .. } => Some(cat("[tool_use] ", name.as_str())),
        StreamEvent::ToolResult { content } => Some(
            cat("[tool_result] ", cut_result(content.as_str())),
        ),
        StreamEvent::Result { text, session_id } => {
            let len = u64_text(text.as_str().as_bytes().len() as u64);
            Some(cat4("[result] session=", session_id.as_str(), " len=", len.as_str()))
        },
        StreamEvent::Error { message } => Some(cat("[error] ", message.as_str())),
        _ => None,
    }
}

/// Of what a stage printed, the first block that is marked as JSON is read, unless it is empty.
pub proof fn law_the_marked_block_is_read(text: Seq<char>, s: int, e: int)
    requires
        crate::extract::stands_first(text, "```json"@, 0, s),
        crate::extract::stands_first(text, "```"@, s + 7, e),
        crate::text::trimmed(text.subrange(s + 7, e)).len() > 0,
    ensures
        pipeline_json(text) == Some(crate::text::trimmed(text.subrange(s + 7, e))),
{
    crate::extract::marked_block_stands(text, s, e);
}

/// How many more braces are opened than closed in a text.
pub open spec fn open_braces(s: Seq<char>) -> int
    decreases s.len(),
{
    if s.len() == 0 {
        0
    } else {
        (if s[0] == '{' {
            1int
        } else if s[0] == '}' {
            -1int
        } else {
            0int
        }) + open_braces(s.drop_first())
    }
}

proof fn balanced_object(s: Seq<char>, depth: int, n: nat)
    requires
        0 < n <= s.len(),
        depth >= 0,
        depth == 0 ==> s[0] == '{',
        !s.take(n as int).contains('"'),
        depth + open_braces(s.take(n as int)) == 0,
        forall|k: int| 0 < k < n ==> depth + open_braces(#[trigger] s.take(k)) > 0,
    ensures
        object_len(s, depth, false, false) == Some(n),
    decreases s.len(),
{
    let c = s[0];
    let rest = s.drop_first();
    let whole = s.take(n as int);
    assert(whole[0] == c);
    assert(whole.contains(c));
    assert(c != '"');
    assert(whole.drop_first() =~= rest.take(n - 1));
    assert(s.take(1).drop_first() =~= Seq::<char>::empty());
    assert(open_braces(s.take(1).drop_first()) == 0);
    assert(s.take(1)[0] == c);
    if n == 1 {
        assert(whole =~= s.take(1));
        assert(c == '}' && depth == 1);
    } else {
        let next = depth + if c == '{' {
            1int
        } else if c == '}' {
            -1int
        } else {
            0int
        };
        assert(open_braces(s.take(1)) == next - depth);
        assert(depth + open_braces(s.take(1)) > 0);
        assert forall|k: int| 0 < k < n - 1 implies next + open_braces(#[trigger] rest.take(k)) > 0 by {
            assert(s.take(k + 1).drop_first() =~= rest.take(k));
            assert(s.take(k + 1)[0] == c);
            assert(depth + open_braces(s.take(k + 1)) > 0);
        }
        let after = rest.take(n - 1);
        if after.contains('"') {
            let i = choose|i: int| 0 <= i < after.len() && after[i] == '"';
            assert(whole[i + 1] == '"');
        }
        balanced_object(rest, next, (n - 1) as nat);
    }
}

/// Where no block is marked and no string is quoted, what is read is the first object: from the
/// first brace to the one that closes it.
pub proof fn law_the_first_object_is_read(text: Seq<char>, s: int, e: int)
    requires
        crate::extract::stands_nowhere(text, "```json"@),
        crate::extract::stands_first(text, "{"@, 0, s),
        s < e <= text.len(),
        !text.subrange(s, e).contains('"'),
        open_braces(text.subrange(s, e)) == 0,
        forall|k: int| s < k < e ==> open_braces(#[trigger] text.subrange(s, k)) > 0,
    ensures
        pipeline_json(text) == Some(text.subrange(s, e)),
{
    let rest = text.skip(s);
    let n = e - s;
    reveal_strlit("{");
    crate::extract::law_what_stands_nowhere_is_not_found(text, "```json"@);
    assert(text.skip(0) =~= text);
    crate::extract::law_what_stands_first_is_found(text, "{"@, 0, s);
    assert(text.subrange(s, s + 1)[0] == "{"@[0]);
    assert(rest.take(n) =~= text.subrange(s, e));
    assert forall|k: int| 0 < k < n implies 0 + open_braces(#[trigger] rest.take(k)) > 0 by {
        assert(rest.take(k) =~= text.subrange(s, s + k));
        assert(open_braces(text.subrange(s, s + k)) > 0);
    }
    balanced_object(rest, 0, n as nat);
}

} // verus!
