//! Fail-closed admin auth defaults for the coordinator Axum bridge.
//!
//! Product mounts default to **require admin auth** unless [`OPEN_LAB_MODE_ENV`] opts into an
//! open lab mount.

use vstd::prelude::*;

verus! {

/// Environment variable: when `1`/`true`/`yes`, opt into an **open lab** mount (no admin verifier).
pub const OPEN_LAB_MODE_ENV: &'static str = "BOSON_OPEN_LAB_MODE";

/// Unicode `White_Space` property, the notion of whitespace that `str::trim` removes.
pub open spec fn is_white_space(c: char) -> bool {
    ||| ('\u{9}' <= c && c <= '\u{d}')
    ||| c == ' '
    ||| c == '\u{85}'
    ||| c == '\u{a0}'
    ||| c == '\u{1680}'
    ||| ('\u{2000}' <= c && c <= '\u{200a}')
    ||| c == '\u{2028}'
    ||| c == '\u{2029}'
    ||| c == '\u{202f}'
    ||| c == '\u{205f}'
    ||| c == '\u{3000}'
}

/// `s` without its leading whitespace.
pub open spec fn trim_leading(s: Seq<char>) -> Seq<char>
    decreases s.len(),
{
    if s.len() > 0 && is_white_space(s[0]) {
        trim_leading(s.drop_first())
    } else {
        s
    }
}

/// `s` without its trailing whitespace.
pub open spec fn trim_trailing(s: Seq<char>) -> Seq<char>
    decreases s.len(),
{
    if s.len() > 0 && is_white_space(s.last()) {
        trim_trailing(s.drop_last())
    } else {
        s
    }
}

/// `s` without leading and trailing whitespace.
pub open spec fn trim_white_space(s: Seq<char>) -> Seq<char> {
    trim_trailing(trim_leading(s))
}

/// ASCII lowercase of one character; every other character is kept.
pub open spec fn ascii_lower(c: char) -> char {
    if 'A' <= c && c <= 'Z' {
        ((c as u32) + 32) as char
    } else {
        c
    }
}

/// ASCII lowercase of a string.
pub open spec fn ascii_lower_seq(s: Seq<char>) -> Seq<char> {
    s.map_values(|c: char| ascii_lower(c))
}

/// The three truthy spellings, already lowercase.
pub open spec fn is_truthy_flag(s: Seq<char>) -> bool {
    ||| s == seq!['1']
    ||| s == seq!['t', 'r', 'u', 'e']
    ||| s == seq!['y', 'e', 's']
}

/// Whether an open-lab flag string reads as truthy (`1` / `true` / `yes`, case-insensitive,
/// surrounding whitespace ignored).
pub open spec fn open_lab_flag(value: Seq<char>) -> bool {
    is_truthy_flag(ascii_lower_seq(trim_white_space(value)))
}

fn is_white_space_char(c: char) -> (r: bool)
    ensures
        r == is_white_space(c),
{
    ('\u{9}' <= c && c <= '\u{d}') || c == ' ' || c == '\u{85}' || c == '\u{a0}' || c == '\u{1680}'
        || ('\u{2000}' <= c && c <= '\u{200a}') || c == '\u{2028}' || c == '\u{2029}'
        || c == '\u{202f}' || c == '\u{205f}' || c == '\u{3000}'
}

fn ascii_lower_char(c: char) -> (r: char)
    ensures
        r == ascii_lower(c),
{
    if 'A' <= c && c <= 'Z' {
        let code: u8 = (c as u8) + 32;
        code as char
    } else {
        c
    }
}

fn chars_of(value: &str) -> (chars: Vec<char>)
    ensures
        chars@ == value@,
{
    let mut chars: Vec<char> = Vec::new();
    for c in it: value.chars()
        invariant
            chars@ == it.seq().take(it.index() as int),
    {
        chars.push(c);
    }
    chars
}

proof fn lemma_trim_leading_skips(s: Seq<char>, k: int)
    requires
        0 <= k <= s.len(),
        forall|i: int| 0 <= i < k ==> is_white_space(#[trigger] s[i]),
        k == s.len() || !is_white_space(s[k]),
    ensures
        trim_leading(s) == s.skip(k),
    decreases k,
{
    if k == 0 {
        assert(s.skip(0) =~= s);
    } else {
        let rest = s.drop_first();
        assert forall|i: int| 0 <= i < k - 1 implies is_white_space(#[trigger] rest[i]) by {
            assert(rest[i] == s[i + 1]);
        }
        lemma_trim_leading_skips(rest, k - 1);
        assert(rest.skip(k - 1) =~= s.skip(k));
    }
}

proof fn lemma_trim_trailing_takes(s: Seq<char>, k: int)
    requires
        0 <= k <= s.len(),
        forall|i: int| k <= i < s.len() ==> is_white_space(#[trigger] s[i]),
        k == 0 || !is_white_space(s[k - 1]),
    ensures
        trim_trailing(s) == s.take(k),
    decreases s.len() - k,
{
    if k == s.len() {
        assert(s.take(k) =~= s);
    } else {
        let rest = s.drop_last();
        assert forall|i: int| k <= i < rest.len() implies is_white_space(#[trigger] rest[i]) by {
            assert(rest[i] == s[i]);
        }
        lemma_trim_trailing_takes(rest, k);
        assert(rest.take(k) =~= s.take(k));
    }
}

/// Parse an open-lab flag string (`1` / `true` / `yes`, case-insensitive).
pub fn parse_open_lab_mode(value: &str) -> (open_lab: bool)
    ensures
        open_lab == open_lab_flag(value@),
        open_lab <==> exists|i: int, j: int|
            #![trigger value@.subrange(i, j)]
            0 <= i <= j <= value@.len() && all_white_space(value@.subrange(0, i)) && all_white_space(
                value@.subrange(j, value@.len() as int),
            ) && is_truthy_word(value@.subrange(i, j)),
{
    proof {
        lemma_open_lab_truthy_values(value@);
    }
    let chars = chars_of(value);
    let n = chars.len();
    let mut start: usize = 0;
    while start < n && is_white_space_char(chars[start])
        invariant
            n == chars@.len(),
            start <= n,
            forall|i: int| 0 <= i < start ==> is_white_space(#[trigger] chars@[i]),
        decreases n - start,
    {
        start = start + 1;
    }
    let mut end: usize = n;
    while end > start && is_white_space_char(chars[end - 1])
        invariant
            n == chars@.len(),
            start <= end <= n,
            forall|i: int| end <= i < n ==> is_white_space(#[trigger] chars@[i]),
        decreases end - start,
    {
        end = end - 1;
    }
    let ghost skipped = chars@.skip(start as int);
    proof {
        lemma_trim_leading_skips(chars@, start as int);
        assert forall|i: int| end - start <= i < skipped.len() implies is_white_space(
            #[trigger] skipped[i],
        ) by {
            assert(skipped[i] == chars@[start + i]);
        }
        if end > start {
            assert(skipped[end - start - 1] == chars@[end - 1]);
        }
        lemma_trim_trailing_takes(skipped, end - start);
    }
    let ghost trimmed = trim_white_space(value@);
    assert(trimmed =~= chars@.subrange(start as int, end as int));
    let len = end - start;
    let matches = if len == 1 {
        ascii_lower_char(chars[start]) == '1'
    } else if len == 4 {
        ascii_lower_char(chars[start]) == 't' && ascii_lower_char(chars[start + 1]) == 'r'
            && ascii_lower_char(chars[start + 2]) == 'u' && ascii_lower_char(chars[start + 3]) == 'e'
    } else if len == 3 {
        ascii_lower_char(chars[start]) == 'y' && ascii_lower_char(chars[start + 1]) == 'e'
            && ascii_lower_char(chars[start + 2]) == 's'
    } else {
        false
    };
    let ghost lowered = ascii_lower_seq(trimmed);
    assert(lowered.len() == len);
    assert(forall|i: int| 0 <= i < len ==> lowered[i] == ascii_lower(#[trigger] chars@[start + i]));
    proof {
        if len == 1 {
            assert(lowered[0] == ascii_lower(chars@[start as int]));
            assert(matches <==> lowered =~= seq!['1']);
        } else if len == 4 {
            assert(matches <==> lowered =~= seq!['t', 'r', 'u', 'e']);
        } else if len == 3 {
            assert(matches <==> lowered =~= seq!['y', 'e', 's']);
        }
    }
    matches
}


/// Whether admin routes require auth by default for new coordinator mounts, given the value of
/// [`OPEN_LAB_MODE_ENV`] (`None` when it is unset or not Unicode).
///
/// **`true` by default (fail closed).** Only a truthy open-lab value opts out.
pub fn require_admin_auth_default(open_lab_value: Option<&str>) -> (require: bool)
    ensures
        require == require_admin_by_default(open_lab_value),
        !require <==> (open_lab_value is Some && open_lab_flag(open_lab_value->0@)),
{
    match open_lab_value {
        Some(value) => !parse_open_lab_mode(value),
        None => true,
    }
}

/// The default require-admin flag: required unless the open-lab value is present and truthy.
pub open spec fn require_admin_by_default(open_lab_value: Option<&str>) -> bool {
    match open_lab_value {
        Some(value) => !open_lab_flag(value@),
        None => true,
    }
}

/// Fail closed: only a present, truthy open-lab value turns the require-admin default off.
pub proof fn lemma_only_open_lab_opts_out(open_lab_value: Option<&str>)
    ensures
        !require_admin_by_default(open_lab_value) <==> (open_lab_value is Some
            && open_lab_flag(open_lab_value->0@)),
{
}

proof fn lemma_trim_leading_of_blank_prefix(pre: Seq<char>, s: Seq<char>)
    requires
        forall|i: int| 0 <= i < pre.len() ==> is_white_space(#[trigger] pre[i]),
    ensures
        trim_leading(pre + s) == trim_leading(s),
    decreases pre.len(),
{
    if pre.len() > 0 {
        let rest = pre.drop_first();
        assert(is_white_space((pre + s)[0]));
        assert((pre + s).drop_first() =~= rest + s);
        assert forall|i: int| 0 <= i < rest.len() implies is_white_space(#[trigger] rest[i]) by {
            assert(rest[i] == pre[i + 1]);
        }
        lemma_trim_leading_of_blank_prefix(rest, s);
    } else {
        assert(pre + s =~= s);
    }
}

proof fn lemma_trim_trailing_of_blank_suffix(s: Seq<char>, post: Seq<char>)
    requires
        forall|i: int| 0 <= i < post.len() ==> is_white_space(#[trigger] post[i]),
    ensures
        trim_trailing(s + post) == trim_trailing(s),
    decreases post.len(),
{
    if post.len() > 0 {
        let rest = post.drop_last();
        assert(is_white_space((s + post).last()));
        assert((s + post).drop_last() =~= s + rest);
        assert forall|i: int| 0 <= i < rest.len() implies is_white_space(#[trigger] rest[i]) by {
            assert(rest[i] == post[i]);
        }
        lemma_trim_trailing_of_blank_suffix(s, rest);
    } else {
        assert(s + post =~= s);
    }
}

proof fn lemma_trim_leading_keeps_tail(s: Seq<char>, post: Seq<char>)
    requires
        exists|i: int| 0 <= i < s.len() && !is_white_space(#[trigger] s[i]),
    ensures
        trim_leading(s + post) == trim_leading(s) + post,
    decreases s.len(),
{
    if is_white_space(s[0]) {
        let rest = s.drop_first();
        let w = choose|i: int| 0 <= i < s.len() && !is_white_space(#[trigger] s[i]);
        assert(w != 0);
        assert(!is_white_space(rest[w - 1]));
        assert((s + post)[0] == s[0]);
        assert((s + post).drop_first() =~= rest + post);
        lemma_trim_leading_keeps_tail(rest, post);
    } else {
        assert((s + post)[0] == s[0]);
    }
}

proof fn lemma_trim_leading_of_blank(s: Seq<char>)
    requires
        forall|i: int| 0 <= i < s.len() ==> is_white_space(#[trigger] s[i]),
    ensures
        trim_leading(s) == Seq::<char>::empty(),
{
    lemma_trim_leading_of_blank_prefix(s, Seq::<char>::empty());
    assert(s + Seq::<char>::empty() =~= s);
}

/// Surrounding whitespace never changes how an open-lab value reads.
pub proof fn lemma_open_lab_ignores_surrounding_white_space(
    pre: Seq<char>,
    value: Seq<char>,
    post: Seq<char>,
)
    requires
        forall|i: int| 0 <= i < pre.len() ==> is_white_space(#[trigger] pre[i]),
        forall|i: int| 0 <= i < post.len() ==> is_white_space(#[trigger] post[i]),
    ensures
        open_lab_flag(pre + value + post) == open_lab_flag(value),
{
    assert(pre + value + post =~= pre + (value + post));
    lemma_trim_leading_of_blank_prefix(pre, value + post);
    if exists|i: int| 0 <= i < value.len() && !is_white_space(#[trigger] value[i]) {
        lemma_trim_leading_keeps_tail(value, post);
        lemma_trim_trailing_of_blank_suffix(trim_leading(value), post);
    } else {
        lemma_trim_leading_of_blank(value);
        assert forall|i: int| 0 <= i < (value + post).len() implies is_white_space(
            #[trigger] (value + post)[i],
        ) by {
            if i < value.len() {
                assert((value + post)[i] == value[i]);
            } else {
                assert((value + post)[i] == post[i - value.len()]);
            }
        }
        lemma_trim_leading_of_blank(value + post);
    }
}

proof fn lemma_ascii_lower_keeps_white_space(c: char)
    ensures
        is_white_space(ascii_lower(c)) == is_white_space(c),
        ascii_lower(ascii_lower(c)) == ascii_lower(c),
{
}

proof fn lemma_trim_leading_commutes_with_lower(s: Seq<char>)
    ensures
        trim_leading(ascii_lower_seq(s)) == ascii_lower_seq(trim_leading(s)),
    decreases s.len(),
{
    if s.len() > 0 {
        lemma_ascii_lower_keeps_white_space(s[0]);
        assert(ascii_lower_seq(s)[0] == ascii_lower(s[0]));
        assert(ascii_lower_seq(s).drop_first() =~= ascii_lower_seq(s.drop_first()));
        lemma_trim_leading_commutes_with_lower(s.drop_first());
    } else {
        assert(ascii_lower_seq(s) =~= s);
    }
}

proof fn lemma_trim_trailing_commutes_with_lower(s: Seq<char>)
    ensures
        trim_trailing(ascii_lower_seq(s)) == ascii_lower_seq(trim_trailing(s)),
    decreases s.len(),
{
    if s.len() > 0 {
        lemma_ascii_lower_keeps_white_space(s.last());
        assert(ascii_lower_seq(s).last() == ascii_lower(s.last()));
        assert(ascii_lower_seq(s).drop_last() =~= ascii_lower_seq(s.drop_last()));
        lemma_trim_trailing_commutes_with_lower(s.drop_last());
    } else {
        assert(ascii_lower_seq(s) =~= s);
    }
}

/// ASCII case never changes how an open-lab value reads.
pub proof fn lemma_open_lab_ignores_ascii_case(value: Seq<char>)
    ensures
        open_lab_flag(ascii_lower_seq(value)) == open_lab_flag(value),
{
    lemma_trim_leading_commutes_with_lower(value);
    lemma_trim_trailing_commutes_with_lower(trim_leading(value));
    let t = trim_white_space(value);
    assert forall|i: int| 0 <= i < t.len() implies #[trigger] ascii_lower_seq(ascii_lower_seq(t))[i]
        == ascii_lower_seq(t)[i] by {
        lemma_ascii_lower_keeps_white_space(t[i]);
    }
    assert(ascii_lower_seq(ascii_lower_seq(t)) =~= ascii_lower_seq(t));
}

/// Every character of `s` is whitespace.
pub open spec fn all_white_space(s: Seq<char>) -> bool {
    forall|i: int| 0 <= i < s.len() ==> is_white_space(#[trigger] s[i])
}

/// `1`, or `true` / `yes` in any mix of ASCII case, spelled out character by character.
pub open spec fn is_truthy_word(w: Seq<char>) -> bool {
    ||| w.len() == 1 && w[0] == '1'
    ||| w.len() == 4 && (w[0] == 't' || w[0] == 'T') && (w[1] == 'r' || w[1] == 'R') && (w[2] == 'u'
        || w[2] == 'U') && (w[3] == 'e' || w[3] == 'E')
    ||| w.len() == 3 && (w[0] == 'y' || w[0] == 'Y') && (w[1] == 'e' || w[1] == 'E') && (w[2] == 's'
        || w[2] == 'S')
}

proof fn leading_blank_count(s: Seq<char>) -> (k: int)
    ensures
        0 <= k <= s.len(),
        forall|i: int| 0 <= i < k ==> is_white_space(#[trigger] s[i]),
        trim_leading(s) == s.skip(k),
    decreases s.len(),
{
    if s.len() > 0 && is_white_space(s[0]) {
        let rest = s.drop_first();
        let k = leading_blank_count(rest);
        assert(rest.skip(k) =~= s.skip(k + 1));
        assert forall|i: int| 0 <= i < k + 1 implies is_white_space(#[trigger] s[i]) by {
            if i > 0 {
                assert(s[i] == rest[i - 1]);
            }
        }
        k + 1
    } else {
        assert(s.skip(0) =~= s);
        0
    }
}

proof fn trailing_blank_start(s: Seq<char>) -> (k: int)
    ensures
        0 <= k <= s.len(),
        forall|i: int| k <= i < s.len() ==> is_white_space(#[trigger] s[i]),
        trim_trailing(s) == s.take(k),
    decreases s.len(),
{
    if s.len() > 0 && is_white_space(s.last()) {
        let rest = s.drop_last();
        let k = trailing_blank_start(rest);
        assert(rest.take(k) =~= s.take(k));
        assert forall|i: int| k <= i < s.len() implies is_white_space(#[trigger] s[i]) by {
            if i < s.len() - 1 {
                assert(s[i] == rest[i]);
            }
        }
        k
    } else {
        assert(s.take(s.len() as int) =~= s);
        s.len() as int
    }
}

proof fn lemma_lower_is(c: char, lower: char, upper: char)
    requires
        'a' <= lower <= 'z',
        upper as u32 + 32 == lower as u32,
    ensures
        ascii_lower(c) == lower <==> (c == lower || c == upper),
{
}

/// A value reads as truthy exactly when it is one of `1`, `true`, `yes` (in any ASCII case)
/// surrounded only by whitespace; every other value (`0`, `off`, `no`, ...) reads as false.
pub proof fn lemma_open_lab_truthy_values(value: Seq<char>)
    ensures
        open_lab_flag(value) <==> exists|i: int, j: int|
            #![trigger value.subrange(i, j)]
            0 <= i <= j <= value.len() && all_white_space(value.subrange(0, i)) && all_white_space(
                value.subrange(j, value.len() as int),
            ) && is_truthy_word(value.subrange(i, j)),
{
    assert forall|c: char| #![trigger ascii_lower(c)]
        (ascii_lower(c) == 't' <==> (c == 't' || c == 'T'))
        && (ascii_lower(c) == 'r' <==> (c == 'r' || c == 'R'))
        && (ascii_lower(c) == 'u' <==> (c == 'u' || c == 'U'))
        && (ascii_lower(c) == 'e' <==> (c == 'e' || c == 'E'))
        && (ascii_lower(c) == 'y' <==> (c == 'y' || c == 'Y'))
        && (ascii_lower(c) == 's' <==> (c == 's' || c == 'S'))
        && (ascii_lower(c) == '1' <==> c == '1') by {
        lemma_lower_is(c, 't', 'T');
        lemma_lower_is(c, 'r', 'R');
        lemma_lower_is(c, 'u', 'U');
        lemma_lower_is(c, 'e', 'E');
        lemma_lower_is(c, 'y', 'Y');
        lemma_lower_is(c, 's', 'S');
    }
    let a = leading_blank_count(value);
    let rest = value.skip(a);
    let b = trailing_blank_start(rest);
    let core = value.subrange(a, a + b);
    assert(rest.take(b) =~= core);
    assert(trim_white_space(value) == core);
    assert(all_white_space(value.subrange(0, a)));
    assert forall|i: int| 0 <= i < value.len() - (a + b) implies is_white_space(
        #[trigger] value.subrange(a + b, value.len() as int)[i],
    ) by {
        assert(value.subrange(a + b, value.len() as int)[i] == rest[b + i]);
    }
    let lowered = ascii_lower_seq(core);
    if open_lab_flag(value) {
        assert(lowered.len() == core.len());
        assert forall|k: int| 0 <= k < core.len() implies #[trigger] lowered[k] == ascii_lower(core[k]) by {}
        if lowered == seq!['1'] {
            assert(lowered[0] == '1');
        } else if lowered == seq!['t', 'r', 'u', 'e'] {
            assert(lowered[0] == 't' && lowered[1] == 'r' && lowered[2] == 'u' && lowered[3] == 'e');
        } else {
            assert(lowered[0] == 'y' && lowered[1] == 'e' && lowered[2] == 's');
        }
        assert(is_truthy_word(value.subrange(a, a + b)));
    }
    if exists|i: int, j: int|
        #![trigger value.subrange(i, j)]
        0 <= i <= j <= value.len() && all_white_space(value.subrange(0, i)) && all_white_space(
            value.subrange(j, value.len() as int),
        ) && is_truthy_word(value.subrange(i, j)) {
        let (i, j) = choose|i: int, j: int|
            #![trigger value.subrange(i, j)]
            0 <= i <= j <= value.len() && all_white_space(value.subrange(0, i)) && all_white_space(
                value.subrange(j, value.len() as int),
            ) && is_truthy_word(value.subrange(i, j));
        let pre = value.subrange(0, i);
        let word = value.subrange(i, j);
        let post = value.subrange(j, value.len() as int);
        assert(value =~= pre + word + post);
        lemma_open_lab_ignores_surrounding_white_space(pre, word, post);
        assert(!is_white_space(word[0]));
        assert(!is_white_space(word[word.len() - 1]));
        lemma_trim_leading_skips(word, 0);
        assert(word.skip(0) =~= word);
        lemma_trim_trailing_takes(word, word.len() as int);
        assert(word.take(word.len() as int) =~= word);
        let lw = ascii_lower_seq(word);
        assert(lw.len() == word.len());
        assert forall|k: int| 0 <= k < word.len() implies #[trigger] lw[k] == ascii_lower(word[k]) by {}
        if word.len() == 1 {
            assert(ascii_lower(word[0]) == '1');
            assert(lw =~= seq!['1']);
        } else if word.len() == 4 {
            assert(ascii_lower(word[0]) == 't');
            assert(ascii_lower(word[1]) == 'r');
            assert(ascii_lower(word[2]) == 'u');
            assert(ascii_lower(word[3]) == 'e');
            assert(lw =~= seq!['t', 'r', 'u', 'e']);
        } else {
            assert(ascii_lower(word[0]) == 'y');
            assert(ascii_lower(word[1]) == 'e');
            assert(ascii_lower(word[2]) == 's');
            assert(lw =~= seq!['y', 'e', 's']);
        }
    }
}

} // verus!
