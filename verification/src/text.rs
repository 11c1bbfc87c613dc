//! Text: decimal numerals, concatenation, white space and searching, all over the
//! character sequence of a string.
use vstd::prelude::*;

verus! {

/// The character of the decimal digit `d`.
pub open spec fn digit_char(d: nat) -> char {
    (48 + d) as char
}

/// The decimal numeral of `n`, most significant digit first, without leading zeros.
pub open spec fn decimal(n: nat) -> Seq<char>
    decreases n,
{
    if n < 10 {
        seq![digit_char(n)]
    } else {
        decimal(n / 10).push(digit_char(n % 10))
    }
}

fn digit_str(d: u64) -> (s: &'static str)
    requires
        d < 10,
    ensures
        s@ == seq![digit_char(d as nat)],
{
    proof {
        reveal_strlit("0");
        reveal_strlit("1");
        reveal_strlit("2");
        reveal_strlit("3");
        reveal_strlit("4");
        reveal_strlit("5");
        reveal_strlit("6");
        reveal_strlit("7");
        reveal_strlit("8");
        reveal_strlit("9");
    }
    if d == 0 {
        "0"
    } else if d == 1 {
        "1"
    } else if d == 2 {
        "2"
    } else if d == 3 {
        "3"
    } else if d == 4 {
        "4"
    } else if d == 5 {
        "5"
    } else if d == 6 {
        "6"
    } else if d == 7 {
        "7"
    } else if d == 8 {
        "8"
    } else {
        "9"
    }
}

/// The decimal numeral of `n`.
pub fn u64_text(n: u64) -> (s: String)
    ensures
        s@ == decimal(n as nat),
    decreases n,
{
    if n < 10 {
        digit_str(n).to_owned()
    } else {
        let mut s = u64_text(n / 10);
        s.append(digit_str(n % 10));
        s
    }
}

pub fn cat(a: &str, b: &str) -> (s: String)
    ensures
        s@ == a@ + b@,
{
    let mut s = a.to_owned();
    s.append(b);
    s
}

pub fn cat3(a: &str, b: &str, c: &str) -> (s: String)
    ensures
        s@ == a@ + b@ + c@,
{
    let mut s = cat(a, b);
    s.append(c);
    s
}

pub fn cat4(a: &str, b: &str, c: &str, d: &str) -> (s: String)
    ensures
        s@ == a@ + b@ + c@ + d@,
{
    let mut s = cat3(a, b, c);
    s.append(d);
    s
}

pub fn cat5(a: &str, b: &str, c: &str, d: &str, e: &str) -> (s: String)
    ensures
        s@ == a@ + b@ + c@ + d@ + e@,
{
    let mut s = cat4(a, b, c, d);
    s.append(e);
    s
}

/// The characters of `s` as a vector.
pub fn chars_of(s: &str) -> (v: Vec<char>)
    ensures
        v@ == s@,
{
    let mut v: Vec<char> = Vec::new();
    for c in it: s.chars()
        invariant
            v@ == it.seq().take(it.index() as int),
            it.seq() == s@,
    {
        v.push(c);
        assert(it.seq().take(it.index() + 1) =~= it.seq().take(it.index() as int).push(c));
    }
    assert(s@.take(s@.len() as int) =~= s@);
    v
}

/// Unicode white space.
pub open spec fn is_space(c: char) -> bool {
    let n = c as int;
    ||| 9 <= n <= 13
    ||| n == 0x20
    ||| n == 0x85
    ||| n == 0xa0
    ||| n == 0x1680
    ||| 0x2000 <= n <= 0x200a
    ||| n == 0x2028
    ||| n == 0x2029
    ||| n == 0x202f
    ||| n == 0x205f
    ||| n == 0x3000
}

pub fn is_white_space(c: char) -> (r: bool)
    ensures
        r == is_space(c),
{
    let n: u32 = c as u32;
    (9 <= n && n <= 13) || n == 0x20 || n == 0x85 || n == 0xa0 || n == 0x1680 || (0x2000 <= n && n
        <= 0x200a) || n == 0x2028 || n == 0x2029 || n == 0x202f || n == 0x205f || n == 0x3000
}

/// `s` without its leading white space.
pub open spec fn trim_start(s: Seq<char>) -> Seq<char>
    decreases s.len(),
{
    if s.len() > 0 && is_space(s[0]) {
        trim_start(s.drop_first())
    } else {
        s
    }
}

/// `s` without its trailing white space.
pub open spec fn trim_end(s: Seq<char>) -> Seq<char>
    decreases s.len(),
{
    if s.len() > 0 && is_space(s.last()) {
        trim_end(s.drop_last())
    } else {
        s
    }
}

/// `s` without white space at either end.
pub open spec fn trimmed(s: Seq<char>) -> Seq<char> {
    trim_end(trim_start(s))
}

proof fn trim_start_is_a_tail(s: Seq<char>) -> (from: int)
    ensures
        0 <= from <= s.len(),
        trim_start(s) == s.skip(from),
        trim_start(s).len() > 0 ==> !is_space(trim_start(s)[0]),
    decreases s.len(),
{
    if s.len() > 0 && is_space(s[0]) {
        let from = trim_start_is_a_tail(s.drop_first());
        assert(s.drop_first().skip(from) =~= s.skip(from + 1));
        from + 1
    } else {
        assert(s.skip(0) =~= s);
        0
    }
}

proof fn trim_end_is_a_head(s: Seq<char>) -> (to: int)
    ensures
        0 <= to <= s.len(),
        trim_end(s) == s.take(to),
        trim_end(s).len() > 0 ==> !is_space(trim_end(s).last()),
    decreases s.len(),
{
    if s.len() > 0 && is_space(s.last()) {
        let to = trim_end_is_a_head(s.drop_last());
        assert(s.drop_last().take(to) =~= s.take(to));
        to
    } else {
        assert(s.take(s.len() as int) =~= s);
        s.len() as int
    }
}

/// Trimming keeps a part of the text.
pub proof fn trimmed_is_a_part(s: Seq<char>) -> (r: (int, int))
    ensures
        0 <= r.0 <= r.1 <= s.len(),
        trimmed(s) == s.subrange(r.0, r.1),
{
    let from = trim_start_is_a_tail(s);
    let to = trim_end_is_a_head(s.skip(from));
    assert(s.skip(from).take(to) =~= s.subrange(from, from + to));
    (from, from + to)
}

/// Trimming twice is trimming once.
pub proof fn law_trimming_again_changes_nothing(s: Seq<char>)
    ensures
        trimmed(trimmed(s)) == trimmed(s),
{
    let from = trim_start_is_a_tail(s);
    let to = trim_end_is_a_head(trim_start(s));
    let t = trimmed(s);
    if t.len() > 0 {
        assert(t[0] == trim_start(s)[0]);
    }
}

/// The text without white space at either end.
pub fn trim<'a>(s: &'a str) -> (r: &'a str)
    ensures
        r@ == trimmed(s@),
{
    let v = chars_of(s);
    let mut i: usize = 0;
    assert(s@.skip(0) =~= s@);
    while i < v.len() && is_white_space(v[i])
        invariant
            v@ == s@,
            i <= v@.len(),
            trim_start(s@) == trim_start(s@.skip(i as int)),
        decreases v@.len() - i,
    {
        assert(s@.skip(i as int)[0] == v@[i as int]);
        assert(s@.skip(i as int).drop_first() =~= s@.skip(i + 1));
        i += 1;
    }
    assert(i < v@.len() ==> s@.skip(i as int)[0] == v@[i as int]);
    let ghost body = s@.skip(i as int);
    assert(trim_start(s@) == body);
    let mut j: usize = v.len();
    assert(body.take(body.len() as int) =~= body);
    while j > i && is_white_space(v[j - 1])
        invariant
            v@ == s@,
            i <= j <= v@.len(),
            body == s@.skip(i as int),
            trim_end(body) == trim_end(body.take(j - i)),
        decreases j,
    {
        assert(body.take(j - i).last() == v@[j - 1]);
        assert(body.take(j - i).drop_last() =~= body.take(j - 1 - i));
        j -= 1;
    }
    assert(j > i ==> body.take(j - i).last() == v@[j - 1]);
    assert(s@.subrange(i as int, j as int) =~= body.take(j - i));
    s.substring_char(i, j)
}

/// Whether `t` is the text `v`, each possibly absent.
pub open spec fn is_text(t: Option<String>, v: Option<Seq<char>>) -> bool {
    match t {
        Some(s) => v == Some(s@),
        None => v is None,
    }
}

// ---- words and numbers ----

/// How many characters at the beginning of `s` are no white space.
pub open spec fn word_len(s: Seq<char>) -> nat
    decreases s.len(),
{
    if s.len() == 0 || is_space(s[0]) {
        0
    } else {
        1 + word_len(s.drop_first())
    }
}

pub proof fn word_len_bound(s: Seq<char>)
    ensures
        word_len(s) <= s.len(),
    decreases s.len(),
{
    if s.len() > 0 {
        word_len_bound(s.drop_first());
    }
}

pub proof fn trim_start_bound(s: Seq<char>)
    ensures
        trim_start(s).len() <= s.len(),
    decreases s.len(),
{
    if s.len() > 0 {
        trim_start_bound(s.drop_first());
    }
}

/// The words of `s`: what white space parts.
pub open spec fn words(s: Seq<char>) -> Seq<Seq<char>>
    decreases s.len(),
{
    let t = trim_start(s);
    let n = word_len(t);
    if n == 0 {
        Seq::empty()
    } else {
        proof {
            trim_start_bound(s);
            word_len_bound(t);
        }
        seq![t.take(n as int)] + words(t.skip(n as int))
    }
}

/// The words of `s`: what white space parts.
pub fn split_words(s: &str) -> (r: Vec<String>)
    ensures
        r@.map_values(|w: String| w@) == words(s@),
{
    let v = chars_of(s);
    let ghost text = |w: String| w@;
    let mut out: Vec<String> = Vec::new();
    let mut i: usize = 0;
    assert(s@.skip(0) =~= s@);
    assert(out@.map_values(text) + words(s@) =~= words(s@));
    while i < v.len()
        invariant
            v@ == s@,
            i <= v@.len(),
            text == (|w: String| w@),
            words(s@) == out@.map_values(text) + words(s@.skip(i as int)),
        decreases v@.len() - i,
    {
        let ghost from = i as int;
        let ghost rest = s@.skip(from);
        while i < v.len() && is_white_space(v[i])
            invariant
                v@ == s@,
                from <= i <= v@.len(),
                rest == s@.skip(from),
                trim_start(rest) == trim_start(s@.skip(i as int)),
            decreases v@.len() - i,
        {
            assert(s@.skip(i as int)[0] == v@[i as int]);
            assert(s@.skip(i as int).drop_first() =~= s@.skip(i + 1));
            i += 1;
        }
        assert(i < v@.len() ==> s@.skip(i as int)[0] == v@[i as int]);
        let ghost t = s@.skip(i as int);
        assert(trim_start(rest) == t);
        let start = i;
        while i < v.len() && !is_white_space(v[i])
            invariant
                v@ == s@,
                start <= i <= v@.len(),
                t == s@.skip(start as int),
                word_len(t) == (i - start) + word_len(s@.skip(i as int)),
            decreases v@.len() - i,
        {
            assert(s@.skip(i as int)[0] == v@[i as int]);
            assert(s@.skip(i as int).drop_first() =~= s@.skip(i + 1));
            i += 1;
        }
        assert(i < v@.len() ==> s@.skip(i as int)[0] == v@[i as int]);
        assert(word_len(t) == i - start);
        if i > start {
            let word = s.substring_char(start, i).to_owned();
            proof {
                assert(word@ =~= t.take(i - start));
                assert(t.skip(i - start) =~= s@.skip(i as int));
                assert(words(rest) == seq![t.take(i - start)] + words(s@.skip(i as int)));
                assert(out@.push(word).map_values(text) =~= out@.map_values(text).push(word@));
                assert(out@.map_values(text) + (seq![word@] + words(s@.skip(i as int)))
                    =~= out@.map_values(text).push(word@) + words(s@.skip(i as int)));
            }
            out.push(word);
        } else {
            assert(t.len() == 0);
            assert(words(rest) =~= Seq::empty());
            assert(words(s@.skip(i as int)) =~= Seq::empty()) by {
                assert(s@.skip(i as int).len() == 0);
            }
        }
    }
    assert(s@.skip(i as int).len() == 0);
    assert(words(s@.skip(i as int)) =~= Seq::empty());
    assert(out@.map_values(text) =~= out@.map_values(text) + Seq::<Seq<char>>::empty());
    out
}

pub open spec fn is_digit(c: char) -> bool {
    48 <= c as int <= 57
}

pub open spec fn all_digits(s: Seq<char>) -> bool {
    s.len() > 0 && forall|i: int| 0 <= i < s.len() ==> is_digit(#[trigger] s[i])
}

/// The number that a numeral denotes.
pub open spec fn digits_value(s: Seq<char>) -> nat
    decreases s.len(),
{
    if s.len() == 0 {
        0
    } else {
        10 * digits_value(s.drop_last()) + (s.last() as int - 48) as nat
    }
}

proof fn digits_grow(s: Seq<char>, i: int)
    requires
        0 <= i <= s.len(),
    ensures
        digits_value(s.take(i)) <= digits_value(s),
    decreases s.len() - i,
{
    if i < s.len() {
        digits_grow(s, i + 1);
        assert(s.take(i + 1).drop_last() =~= s.take(i));
    } else {
        assert(s.take(i) =~= s);
    }
}

/// The number below 2^64 that the characters from `from` on denote, if they are digits.
pub fn parse_digits(v: &Vec<char>, from: usize) -> (r: Option<u64>)
    requires
        from <= v@.len(),
    ensures
        r == (if all_digits(v@.skip(from as int)) && digits_value(v@.skip(from as int)) <= u64::MAX {
            Some(digits_value(v@.skip(from as int)) as u64)
        } else {
            None
        }),
{
    let ghost s = v@.skip(from as int);
    if from == v.len() {
        return None;
    }
    let mut value: u64 = 0;
    let mut i: usize = from;
    while i < v.len()
        invariant
            from <= i <= v@.len(),
            from < v@.len(),
            s == v@.skip(from as int),
            value == digits_value(s.take(i - from)),
            forall|k: int| 0 <= k < i - from ==> is_digit(#[trigger] s[k]),
        decreases v@.len() - i,
    {
        let c = v[i];
        assert(s[i - from] == c);
        assert(s.take(i - from + 1).drop_last() =~= s.take(i - from));
        if !('0' <= c && c <= '9') {
            assert(!is_digit(s[i - from]));
            return None;
        }
        let d: u64 = (c as u32 - 48) as u64;
        proof {
            digits_grow(s, i - from + 1);
        }
        if value > 1844674407370955161 || (value == 1844674407370955161 && d > 5) {
            return None;
        }
        value = value * 10 + d;
        i += 1;
    }
    assert(s.take(i - from) =~= s);
    Some(value)
}

/// The 64-bit integer that `s` denotes: digits, with a sign before them or not.
pub open spec fn signed_value(s: Seq<char>) -> Option<i64> {
    if s.len() == 0 {
        None
    } else if s[0] == '-' {
        if all_digits(s.drop_first()) && -digits_value(s.drop_first()) >= i64::MIN {
            Some((-digits_value(s.drop_first())) as i64)
        } else {
            None
        }
    } else {
        let body = if s[0] == '+' {
            s.drop_first()
        } else {
            s
        };
        if all_digits(body) && digits_value(body) <= i64::MAX {
            Some(digits_value(body) as i64)
        } else {
            None
        }
    }
}

pub fn parse_i64(s: &str) -> (r: Option<i64>)
    ensures
        r == signed_value(s@),
{
    let v = chars_of(s);
    if v.len() == 0 {
        return None;
    }
    assert(v@.skip(0) =~= v@);
    assert(v@.skip(1) =~= v@.drop_first());
    if v[0] == '-' {
        match parse_digits(&v, 1) {
            Some(n) => if n <= 9223372036854775807 {
                Some(-(n as i64))
            } else if n == 9223372036854775808 {
                Some(i64::MIN)
            } else {
                None
            },
            None => None,
        }
    } else {
        let from: usize = if v[0] == '+' {
            1
        } else {
            0
        };
        match parse_digits(&v, from) {
            Some(n) => if n <= 9223372036854775807 {
                Some(n as i64)
            } else {
                None
            },
            None => None,
        }
    }
}

/// The unsigned 64-bit integer that `s` denotes: digits, with a plus sign before them or not.
pub open spec fn unsigned_value(s: Seq<char>) -> Option<u64> {
    let body = if s.len() > 0 && s[0] == '+' {
        s.drop_first()
    } else {
        s
    };
    if all_digits(body) && digits_value(body) <= u64::MAX {
        Some(digits_value(body) as u64)
    } else {
        None
    }
}

pub fn parse_u64(s: &str) -> (r: Option<u64>)
    ensures
        r == unsigned_value(s@),
{
    let v = chars_of(s);
    assert(v@.skip(0) =~= v@);
    if v.len() > 0 && v[0] == '+' {
        assert(v@.skip(1) =~= v@.drop_first());
        parse_digits(&v, 1)
    } else {
        parse_digits(&v, 0)
    }
}

/// A numeral is read back as the number that it was written for.
pub proof fn law_numerals_read_back(n: nat)
    ensures
        all_digits(decimal(n)),
        digits_value(decimal(n)) == n,
        n <= u64::MAX ==> unsigned_value(decimal(n)) == Some(n as u64),
    decreases n,
{
    let s = decimal(n);
    if n >= 10 {
        law_numerals_read_back(n / 10);
        assert(s.drop_last() =~= decimal(n / 10));
        assert forall|i: int| 0 <= i < s.len() implies is_digit(#[trigger] s[i]) by {
            if i < s.len() - 1 {
                assert(decimal(n / 10)[i] == s[i]);
            }
        }
        assert(s.last() as int - 48 == n % 10);
    } else {
        assert(s.drop_last() =~= Seq::<char>::empty());
        assert(digits_value(s.drop_last()) == 0);
        assert(s.last() as int - 48 == n);
    }
    assert(digits_value(s) == 10 * digits_value(s.drop_last()) + (s.last() as int - 48) as nat);
    assert(is_digit(s[0]));
}

/// Where `c` last occurs.
pub open spec fn last_position(s: Seq<char>, c: char) -> Option<int>
    decreases s.len(),
{
    if s.len() == 0 {
        None
    } else if s.last() == c {
        Some(s.len() - 1)
    } else {
        last_position(s.drop_last(), c)
    }
}

/// The part of `s` after the last `c`.
pub fn after_last<'a>(s: &'a str, c: char) -> (r: Option<&'a str>)
    ensures
        match r {
            Some(t) => last_position(s@, c) is Some && t@ == s@.skip(
                last_position(s@, c)->0 + 1,
            ),
            None => last_position(s@, c) is None,
        },
{
    let v = chars_of(s);
    let mut i: usize = v.len();
    assert(s@.take(i as int) =~= s@);
    while i > 0
        invariant
            v@ == s@,
            i <= v@.len(),
            last_position(s@, c) == last_position(s@.take(i as int), c),
        decreases i,
    {
        assert(s@.take(i as int).last() == v@[i - 1]);
        assert(s@.take(i as int).drop_last() =~= s@.take(i - 1));
        if v[i - 1] == c {
            let r = s.substring_char(i, v.len());
            assert(r@ =~= s@.skip(i as int));
            return Some(r);
        }
        i -= 1;
    }
    None
}

/// The path `part` seen from the directory `base`: `part` itself if it is absolute.
pub open spec fn joined(base: Seq<char>, part: Seq<char>) -> Seq<char> {
    if part.len() > 0 && part[0] == '/' {
        part
    } else if base.len() > 0 && base.last() != '/' {
        base + seq!['/'] + part
    } else {
        base + part
    }
}

pub fn join(base: &str, part: &str) -> (r: String)
    ensures
        r@ == joined(base@, part@),
{
    proof {
        reveal_strlit("/");
        assert("/"@ =~= seq!['/']);
    }
    let nb = base.unicode_len();
    if part.unicode_len() > 0 && part.get_char(0) == '/' {
        part.to_owned()
    } else if nb > 0 && base.get_char(nb - 1) != '/' {
        cat3(base, "/", part)
    } else {
        cat(base, part)
    }
}

/// `c` in lower case, if that is an ASCII letter; besides the ASCII capitals the Kelvin sign
/// has one.
pub open spec fn lower_char(c: char) -> char {
    if 65 <= c as int <= 90 {
        (c as int + 32) as char
    } else if c == '\u{212A}' {
        'k'
    } else {
        c
    }
}

/// Whether `s` is, in lower case, the ASCII text `word`.
pub open spec fn is_word(s: Seq<char>, word: Seq<char>) -> bool {
    s.map_values(|c: char| lower_char(c)) == word
}

fn lower(c: char) -> (r: char)
    ensures
        r == lower_char(c),
{
    if 'A' <= c && c <= 'Z' {
        ((c as u8) + 32) as char
    } else if c == '\u{212A}' {
        'k'
    } else {
        c
    }
}

pub fn matches_word(s: &str, word: &str) -> (r: bool)
    ensures
        r == is_word(s@, word@),
{
    let v = chars_of(s);
    let w = chars_of(word);
    let ghost low = s@.map_values(|c: char| lower_char(c));
    if v.len() != w.len() {
        assert(low.len() == s@.len());
        return false;
    }
    let mut i: usize = 0;
    while i < v.len()
        invariant
            v@ == s@,
            w@ == word@,
            v@.len() == w@.len(),
            low == s@.map_values(|c: char| lower_char(c)),
            i <= v@.len(),
            forall|k: int| 0 <= k < i ==> low[k] == word@[k],
        decreases v@.len() - i,
    {
        if lower(v[i]) != w[i] {
            assert(low[i as int] != word@[i as int]);
            return false;
        }
        i += 1;
    }
    assert(low =~= word@);
    true
}

/// The texts with a separator between any two.
pub open spec fn separated(parts: Seq<Seq<char>>, separator: Seq<char>) -> Seq<char>
    decreases parts.len(),
{
    if parts.len() == 0 {
        Seq::empty()
    } else if parts.len() == 1 {
        parts[0]
    } else {
        separated(parts.drop_last(), separator) + separator + parts.last()
    }
}

/// The contents of texts.
pub open spec fn texts_view(v: Seq<String>) -> Seq<Seq<char>> {
    v.map_values(|s: String| s@)
}

pub fn join_texts(parts: &Vec<String>, separator: &str) -> (r: String)
    ensures
        r@ == separated(texts_view(parts@), separator@),
{
    let ghost views = texts_view(parts@);
    if parts.len() == 0 {
        let r = String::new();
        assert(r@ =~= Seq::<char>::empty());
        return r;
    }
    let mut out = parts[0].clone();
    let mut i: usize = 1;
    assert(views.take(1)[0] == out@);
    while i < parts.len()
        invariant
            1 <= i <= parts@.len(),
            views == texts_view(parts@),
            out@ == separated(views.take(i as int), separator@),
        decreases parts.len() - i,
    {
        assert(views.take(i + 1).drop_last() =~= views.take(i as int));
        assert(views.take(i + 1).last() == parts@[i as int]@);
        out.append(separator);
        out.append(parts[i].as_str());
        i += 1;
    }
    assert(views.take(i as int) =~= views);
    out
}

// ---- lines ----

/// How many characters stand before the first line feed.
pub open spec fn line_len(s: Seq<char>) -> nat
    decreases s.len(),
{
    if s.len() == 0 || s[0] == '\n' {
        0
    } else {
        1 + line_len(s.drop_first())
    }
}

/// A line without the carriage return before its line feed.
pub open spec fn without_return(line: Seq<char>) -> Seq<char> {
    if line.len() > 0 && line.last() == '\r' {
        line.drop_last()
    } else {
        line
    }
}

/// The lines of `s`: what line feeds end, and what follows the last one, if anything does.
pub open spec fn lines(s: Seq<char>) -> Seq<Seq<char>>
    decreases s.len(),
{
    let n = line_len(s);
    if s.len() == 0 {
        Seq::empty()
    } else if n < s.len() {
        seq![without_return(s.take(n as int))] + lines(s.skip(n as int + 1))
    } else {
        seq![s]
    }
}

/// The lines of `s`: what line feeds end, and what follows the last one, if anything does.
pub fn split_lines(s: &str) -> (r: Vec<String>)
    ensures
        texts_view(r@) == lines(s@),
{
    let v = chars_of(s);
    let mut out: Vec<String> = Vec::new();
    let mut i: usize = 0;
    assert(s@.skip(0) =~= s@);
    assert(texts_view(out@) + lines(s@) =~= lines(s@));
    while i < v.len()
        invariant
            v@ == s@,
            i <= v@.len(),
            lines(s@) == texts_view(out@) + lines(s@.skip(i as int)),
        decreases v@.len() - i,
    {
        let start = i;
        let ghost rest = s@.skip(start as int);
        while i < v.len() && v[i] != '\n'
            invariant
                v@ == s@,
                start <= i <= v@.len(),
                rest == s@.skip(start as int),
                line_len(rest) == (i - start) + line_len(s@.skip(i as int)),
            decreases v@.len() - i,
        {
            assert(s@.skip(i as int)[0] == v@[i as int]);
            assert(s@.skip(i as int).drop_first() =~= s@.skip(i + 1));
            i += 1;
        }
        let ghost before = texts_view(out@);
        if i < v.len() {
            assert(s@.skip(i as int)[0] == v@[i as int]);
            let end = if i > start && v[i - 1] == '\r' {
                i - 1
            } else {
                i
            };
            let line = s.substring_char(start, end).to_owned();
            proof {
                assert(rest.take(i - start).len() == i - start);
                assert(line@ =~= without_return(rest.take(i - start)));
                assert(rest.skip(i - start + 1) =~= s@.skip(i + 1));
                assert(lines(rest) == seq![line@] + lines(s@.skip(i + 1)));
                assert(texts_view(out@.push(line)) =~= before.push(line@));
                assert(before + (seq![line@] + lines(s@.skip(i + 1))) =~= before.push(line@)
                    + lines(s@.skip(i + 1)));
            }
            out.push(line);
            i += 1;
        } else {
            let line = s.substring_char(start, i).to_owned();
            proof {
                assert(line@ =~= rest);
                assert(line_len(rest) == rest.len());
                assert(s@.skip(i as int).len() == 0);
                assert(lines(s@.skip(i as int)) =~= Seq::empty());
                assert(texts_view(out@.push(line)) =~= before.push(line@));
                assert(before + seq![line@] =~= before.push(line@) + lines(s@.skip(i as int)));
            }
            out.push(line);
        }
    }
    assert(s@.skip(i as int).len() == 0);
    assert(lines(s@.skip(i as int)) =~= Seq::empty());
    assert(texts_view(out@) =~= texts_view(out@) + Seq::<Seq<char>>::empty());
    out
}

} // verus!
