//! Finding the JSON text in what an agent wrote.
use vstd::prelude::*;
use crate::text::{chars_of, trim};

verus! {

/// Where `needle` first occurs in `hay`.
pub open spec fn position(hay: Seq<char>, needle: Seq<char>) -> Option<nat>
    decreases hay.len(),
{
    if needle.is_prefix_of(hay) {
        Some(0)
    } else if hay.len() == 0 {
        None
    } else {
        match position(hay.drop_first(), needle) {
            Some(i) => Some(i + 1),
            None => None,
        }
    }
}

/// Whether `needle` stands at index `i` of `hay`.
fn stands_at(hay: &Vec<char>, i: usize, needle: &Vec<char>) -> (r: bool)
    requires
        i <= hay@.len(),
    ensures
        r == needle@.is_prefix_of(hay@.skip(i as int)),
{
    if needle.len() > hay.len() - i {
        return false;
    }
    let mut k: usize = 0;
    while k < needle.len()
        invariant
            i + needle@.len() <= hay.len(),
            k <= needle@.len(),
            forall|j: int| 0 <= j < k ==> hay@[i + j] == #[trigger] needle@[j],
        decreases needle.len() - k,
    {
        if hay[i + k] != needle[k] {
            assert(hay@.skip(i as int)[k as int] != needle@[k as int]);
            return false;
        }
        k += 1;
    }
    assert(needle@ =~= hay@.skip(i as int).take(needle@.len() as int));
    true
}

/// Where `needle` first occurs in `hay`.
pub fn find(hay: &str, needle: &str) -> (r: Option<usize>)
    ensures
        match r {
            Some(i) => position(hay@, needle@) == Some(i as nat),
            None => position(hay@, needle@) is None,
        },
        r matches Some(i) ==> i + needle@.len() <= hay@.len() <= usize::MAX,
{
    let h = chars_of(hay);
    let n = chars_of(needle);
    let mut i: usize = 0;
    assert(hay@.skip(0) =~= hay@);
    while i < h.len()
        invariant
            h@ == hay@,
            n@ == needle@,
            i <= h@.len(),
            position(hay@, needle@) == match position(hay@.skip(i as int), needle@) {
                Some(k) => Some(k + i as nat),
                None => None,
            },
        decreases h.len() - i,
    {
        if stands_at(&h, i, &n) {
            return Some(i);
        }
        assert(hay@.skip(i as int).drop_first() =~= hay@.skip(i + 1));
        i += 1;
    }
    if stands_at(&h, i, &n) {
        Some(i)
    } else {
        assert(hay@.skip(i as int).len() == 0);
        None
    }
}

/// The block after the first fence that is marked as JSON, if it is closed.
pub open spec fn marked_block(t: Seq<char>) -> Option<Seq<char>> {
    match position(t, "```json"@) {
        Some(s) => match position(t.skip(s as int + 7), "```"@) {
            Some(e) => Some(t.skip(s as int + 7).take(e as int)),
            None => None,
        },
        None => None,
    }
}

/// The block after the first fence and the line it stands on, if it is closed.
pub open spec fn plain_block(t: Seq<char>) -> Option<Seq<char>> {
    match position(t, "```"@) {
        Some(s) => {
            let after = t.skip(s as int + 3);
            let body = match position(after, "\n"@) {
                Some(i) => after.skip(i as int + 1),
                None => after,
            };
            match position(body, "```"@) {
                Some(e) => Some(body.take(e as int)),
                None => None,
            }
        },
        None => None,
    }
}

/// The JSON text in `text`: what a fenced block holds, or else all of it.
pub open spec fn json_part(text: Seq<char>) -> Seq<char> {
    let t = crate::text::trimmed(text);
    match marked_block(t) {
        Some(block) => crate::text::trimmed(block),
        None => match plain_block(t) {
            Some(block) => crate::text::trimmed(block),
            None => t,
        },
    }
}

/// The part of `s` from the character `from` on.
pub fn tail<'a>(s: &'a str, from: usize) -> (r: &'a str)
    requires
        from <= s@.len(),
    ensures
        r@ == s@.skip(from as int),
{
    let n = s.unicode_len();
    let r = s.substring_char(from, n);
    assert(r@ =~= s@.skip(from as int));
    r
}

pub fn head<'a>(s: &'a str, to: usize) -> (r: &'a str)
    requires
        to <= s@.len(),
    ensures
        r@ == s@.take(to as int),
{
    let r = s.substring_char(0, to);
    assert(r@ =~= s@.take(to as int));
    r
}

/// The first `n` characters of `s`, or all of it if it has fewer.
pub fn first_chars<'a>(s: &'a str, n: usize) -> (r: &'a str)
    ensures
        r@ == if s@.len() <= n {
            s@
        } else {
            s@.take(n as int)
        },
{
    if s.unicode_len() <= n {
        s
    } else {
        head(s, n)
    }
}

/// Extract JSON from text that may contain markdown code fences.
pub fn extract_json_from_text<'a>(text: &'a str) -> (r: &'a str)
    ensures
        r@ == json_part(text@),
{
    proof {
        reveal_strlit("```json");
        reveal_strlit("```");
        reveal_strlit("\n");
    }
    let trimmed = trim(text);
    match find(trimmed, "```json") {
        Some(start) => {
            let rest = tail(trimmed, start + 7);
            match find(rest, "```") {
                Some(end) => return trim(head(rest, end)),
                None => {},
            }
        },
        None => {},
    }
    match find(trimmed, "```") {
        Some(start) => {
            let after = tail(trimmed, start + 3);
            let body = match find(after, "\n") {
                Some(i) => tail(after, i + 1),
                None => after,
            };
            match find(body, "```") {
                Some(end) => return trim(head(body, end)),
                None => {},
            }
        },
        None => {},
    }
    trimmed
}

/// Whether `needle` occurs nowhere in `hay`.
spec fn absent(hay: Seq<char>, needle: Seq<char>) -> bool {
    forall|i: int| 0 <= i <= hay.len() ==> !needle.is_prefix_of(#[trigger] hay.skip(i))
}

proof fn position_is_first(hay: Seq<char>, needle: Seq<char>)
    ensures
        position(hay, needle) is None <==> absent(hay, needle),
        position(hay, needle) matches Some(p) ==> p + needle.len() <= hay.len()
            && forall|i: int| 0 <= i < p ==> !needle.is_prefix_of(#[trigger] hay.skip(i)),
    decreases hay.len(),
{
    assert(hay.skip(0) =~= hay);
    if !needle.is_prefix_of(hay) && hay.len() > 0 {
        let rest = hay.drop_first();
        position_is_first(rest, needle);
        assert forall|i: int| 0 < i <= hay.len() implies hay.skip(i) == #[trigger] rest.skip(
            i - 1,
        ) by {
            assert(hay.skip(i) =~= rest.skip(i - 1));
        }
        if absent(hay, needle) {
            assert forall|i: int| 0 <= i <= rest.len() implies !needle.is_prefix_of(
                #[trigger] rest.skip(i),
            ) by {
                assert(rest.skip(i) =~= hay.skip(i + 1));
            }
        }
        assert forall|i: int|
            0 <= i <= hay.len() && (position(rest, needle) matches Some(p) ==> i < p + 1) implies
            !needle.is_prefix_of(#[trigger] hay.skip(i)) by {
            if i > 0 {
                assert(hay.skip(i) =~= rest.skip(i - 1));
            }
        }
    } else if !needle.is_prefix_of(hay) {
        assert forall|i: int| 0 <= i <= hay.len() implies !needle.is_prefix_of(
            #[trigger] hay.skip(i),
        ) by {}
    }
}

proof fn position_fits(hay: Seq<char>, needle: Seq<char>)
    ensures
        position(hay, needle) matches Some(p) ==> p + needle.len() <= hay.len(),
{
    position_is_first(hay, needle);
}

/// What occurs nowhere in a text occurs in no part of it.
proof fn absent_in_part(hay: Seq<char>, needle: Seq<char>, from: int, to: int)
    requires
        absent(hay, needle),
        0 <= from <= to <= hay.len(),
    ensures
        absent(hay.subrange(from, to), needle),
{
    let part = hay.subrange(from, to);
    assert forall|i: int| 0 <= i <= part.len() implies !needle.is_prefix_of(
        #[trigger] part.skip(i),
    ) by {
        if needle.is_prefix_of(part.skip(i)) {
            assert(needle =~= hay.skip(from + i).take(needle.len() as int)) by {
                assert forall|k: int| 0 <= k < needle.len() implies needle[k] == hay.skip(
                    from + i,
                )[k] by {
                    assert(needle[k] == part.skip(i)[k]);
                }
            }
            assert(needle.is_prefix_of(hay.skip(from + i)));
        }
    }
}

/// Nothing occurs before its first place.
proof fn absent_before(hay: Seq<char>, needle: Seq<char>)
    requires
        needle.len() > 0,
        position(hay, needle) is Some,
    ensures
        absent(hay.take(position(hay, needle)->0 as int), needle),
{
    let p = position(hay, needle)->0 as int;
    position_is_first(hay, needle);
    let part = hay.take(p);
    assert forall|i: int| 0 <= i <= part.len() implies !needle.is_prefix_of(
        #[trigger] part.skip(i),
    ) by {
        if needle.is_prefix_of(part.skip(i)) {
            assert(needle =~= hay.skip(i).take(needle.len() as int)) by {
                assert forall|k: int| 0 <= k < needle.len() implies needle[k] == hay.skip(
                    i,
                )[k] by {
                    assert(needle[k] == part.skip(i)[k]);
                }
            }
            assert(needle.is_prefix_of(hay.skip(i)));
        }
    }
}

/// A text without a fence is all that is taken from it.
proof fn unfenced(t: Seq<char>)
    requires
        absent(t, "```"@),
        crate::text::trimmed(t) == t,
    ensures
        json_part(t) == t,
{
    reveal_strlit("```json");
    reveal_strlit("```");
    position_is_first(t, "```"@);
    position_is_first(t, "```json"@);
    assert forall|i: int| 0 <= i <= t.len() implies !"```json"@.is_prefix_of(
        #[trigger] t.skip(i),
    ) by {
        if "```json"@.is_prefix_of(t.skip(i)) {
            assert("```"@ =~= t.skip(i).take(3)) by {
                assert forall|k: int| 0 <= k < 3 implies "```"@[k] == t.skip(i)[k] by {
                    assert("```json"@[k] == t.skip(i)[k]);
                }
            }
            assert("```"@.is_prefix_of(t.skip(i)));
        }
    }
}

/// The trimmed block before a fence is all that is taken from it, and is a part of the text.
proof fn block_is_kept(body: Seq<char>) -> (r: (int, int))
    requires
        position(body, "```"@) is Some,
    ensures
        ({
            let block = crate::text::trimmed(body.take(position(body, "```"@)->0 as int));
            &&& json_part(block) == block
            &&& crate::text::trimmed(block) == block
            &&& 0 <= r.0 <= r.1 <= body.len()
            &&& block == body.subrange(r.0, r.1)
        }),
{
    reveal_strlit("```");
    position_is_first(body, "```"@);
    let head = body.take(position(body, "```"@)->0 as int);
    let block = crate::text::trimmed(head);
    absent_before(body, "```"@);
    let (from, to) = crate::text::trimmed_is_a_part(head);
    absent_in_part(head, "```"@, from, to);
    crate::text::law_trimming_again_changes_nothing(head);
    unfenced(block);
    assert(head.subrange(from, to) =~= body.subrange(from, to));
    (from, to)
}

/// A part of a part of a text.
proof fn part_of_part(text: Seq<char>, start: int, end: int, skipped: int, from: int, to: int)
    requires
        0 <= start <= end <= text.len(),
        0 <= skipped <= end - start,
        0 <= from <= to <= end - start - skipped,
    ensures
        text.subrange(start, end).skip(skipped).subrange(from, to) == text.subrange(
            start + skipped + from,
            start + skipped + to,
        ),
{
    assert(text.subrange(start, end).skip(skipped).subrange(from, to) =~= text.subrange(
        start + skipped + from,
        start + skipped + to,
    ));
}

/// The JSON text is a part of the text without white space at either end, and taking it again
/// changes nothing.
pub proof fn law_extracting_again_changes_nothing(text: Seq<char>)
    ensures
        json_part(json_part(text)) == json_part(text),
        crate::text::trimmed(json_part(text)) == json_part(text),
        exists|from: int, to: int|
            0 <= from <= to <= text.len() && json_part(text) == #[trigger] text.subrange(from, to),
{
    let t = crate::text::trimmed(text);
    let (start, end) = crate::text::trimmed_is_a_part(text);
    crate::text::law_trimming_again_changes_nothing(text);
    assert("```json"@.len() == 7) by {
        reveal_strlit("```json");
    }
    assert("```"@.len() == 3) by {
        reveal_strlit("```");
    }
    assert("\n"@.len() == 1) by {
        reveal_strlit("\n");
    }
    position_fits(t, "```json"@);
    position_fits(t, "```"@);
    if marked_block(t) is Some {
        let s = position(t, "```json"@)->0 as int + 7;
        let (from, to) = block_is_kept(t.skip(s));
        part_of_part(text, start, end, s, from, to);
    } else if plain_block(t) is Some {
        let s = position(t, "```"@)->0 as int + 3;
        let after = t.skip(s);
        position_fits(after, "\n"@);
        let more = match position(after, "\n"@) {
            Some(i) => i as int + 1,
            None => 0int,
        };
        assert(after.skip(0) =~= after);
        assert(after.skip(more) =~= t.skip(s + more));
        let (from, to) = block_is_kept(t.skip(s + more));
        part_of_part(text, start, end, s + more, from, to);
    }
}

/// Whether `needle` stands at `i` in `hay`.
pub open spec fn stands(hay: Seq<char>, needle: Seq<char>, i: int) -> bool {
    0 <= i && i + needle.len() <= hay.len() && hay.subrange(i, i + needle.len()) == needle
}

/// Whether `needle` stands at `i` in `hay`, and nowhere from `from` up to there.
pub open spec fn stands_first(hay: Seq<char>, needle: Seq<char>, from: int, i: int) -> bool {
    from <= i && stands(hay, needle, i) && forall|k: int|
        from <= k < i ==> !#[trigger] stands(hay, needle, k)
}

pub open spec fn stands_nowhere(hay: Seq<char>, needle: Seq<char>) -> bool {
    forall|k: int| !#[trigger] stands(hay, needle, k)
}

proof fn stands_is_prefix(hay: Seq<char>, needle: Seq<char>, i: int)
    requires
        0 <= i <= hay.len(),
    ensures
        stands(hay, needle, i) <==> needle.is_prefix_of(hay.skip(i)),
{
    let rest = hay.skip(i);
    if needle.len() <= rest.len() {
        assert(rest.subrange(0, needle.len() as int) =~= hay.subrange(i, i + needle.len()));
    }
}

/// What is found from `from` on is what stands there first.
pub proof fn law_what_stands_first_is_found(
    hay: Seq<char>,
    needle: Seq<char>,
    from: int,
    i: int,
)
    requires
        0 <= from,
        stands_first(hay, needle, from, i),
    ensures
        position(hay.skip(from), needle) == Some((i - from) as nat),
    decreases i - from,
{
    let rest = hay.skip(from);
    stands_is_prefix(hay, needle, from);
    if from < i {
        assert(!stands(hay, needle, from));
        assert(rest.drop_first() =~= hay.skip(from + 1));
        law_what_stands_first_is_found(hay, needle, from + 1, i);
    }
}

/// What stands nowhere is not found.
pub proof fn law_what_stands_nowhere_is_not_found(hay: Seq<char>, needle: Seq<char>)
    requires
        stands_nowhere(hay, needle),
    ensures
        position(hay, needle) is None,
{
    position_is_first(hay, needle);
    assert forall|i: int| 0 <= i <= hay.len() implies !needle.is_prefix_of(
        #[trigger] hay.skip(i),
    ) by {
        stands_is_prefix(hay, needle, i);
        assert(!stands(hay, needle, i));
    }
}

/// What stands between the first fence that is marked as JSON and the next fence is extracted.
pub proof fn law_the_first_marked_block_is_extracted(text: Seq<char>, s: int, e: int)
    requires
        stands_first(crate::text::trimmed(text), "```json"@, 0, s),
        stands_first(crate::text::trimmed(text), "```"@, s + 7, e),
    ensures
        json_part(text) == crate::text::trimmed(crate::text::trimmed(text).subrange(s + 7, e)),
{
    marked_block_stands(crate::text::trimmed(text), s, e);
}

pub proof fn marked_block_stands(t: Seq<char>, s: int, e: int)
    requires
        stands_first(t, "```json"@, 0, s),
        stands_first(t, "```"@, s + 7, e),
    ensures
        marked_block(t) == Some(t.subrange(s + 7, e)),
{
    reveal_strlit("```json");
    reveal_strlit("```");
    assert(t.skip(0) =~= t);
    law_what_stands_first_is_found(t, "```json"@, 0, s);
    law_what_stands_first_is_found(t, "```"@, s + 7, e);
    assert(t.skip(s + 7).take(e - (s + 7)) =~= t.subrange(s + 7, e));
}

/// Where no fence is marked, what stands between the line of the first fence and the next fence
/// is extracted.
pub proof fn law_else_the_first_block_is_extracted(text: Seq<char>, s: int, l: int, e: int)
    requires
        stands_nowhere(crate::text::trimmed(text), "```json"@),
        stands_first(crate::text::trimmed(text), "```"@, 0, s),
        stands_first(crate::text::trimmed(text), "\n"@, s + 3, l),
        stands_first(crate::text::trimmed(text), "```"@, l + 1, e),
    ensures
        json_part(text) == crate::text::trimmed(crate::text::trimmed(text).subrange(l + 1, e)),
{
    let t = crate::text::trimmed(text);
    reveal_strlit("```");
    reveal_strlit("\n");
    assert(t.skip(0) =~= t);
    law_what_stands_nowhere_is_not_found(t, "```json"@);
    law_what_stands_first_is_found(t, "```"@, 0, s);
    law_what_stands_first_is_found(t, "\n"@, s + 3, l);
    law_what_stands_first_is_found(t, "```"@, l + 1, e);
    assert(t.skip(s + 3).skip(l - (s + 3) + 1) =~= t.skip(l + 1));
    assert(t.skip(l + 1).take(e - (l + 1)) =~= t.subrange(l + 1, e));
}

/// A text without a fence is extracted as it is, without the white space around it.
pub proof fn law_a_text_without_blocks_is_extracted_whole(text: Seq<char>)
    requires
        stands_nowhere(crate::text::trimmed(text), "```"@),
    ensures
        json_part(text) == crate::text::trimmed(text),
{
    let t = crate::text::trimmed(text);
    reveal_strlit("```json");
    reveal_strlit("```");
    law_what_stands_nowhere_is_not_found(t, "```"@);
    assert forall|k: int| !#[trigger] stands(t, "```json"@, k) by {
        if stands(t, "```json"@, k) {
            assert(t.subrange(k, k + 3) =~= t.subrange(k, k + 7).subrange(0, 3));
            assert("```json"@.subrange(0, 3) =~= "```"@);
            assert(stands(t, "```"@, k));
        }
    }
    law_what_stands_nowhere_is_not_found(t, "```json"@);
}

} // verus!
