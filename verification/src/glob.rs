//! Matching of action patterns with `*` and `?`.
use crate::text::characters;
#[allow(unused_imports)]
use crate::text::{
    ascii_case_changes_fold, ascii_case_folds, ascii_lowercase, ascii_uppercase, lowercase,
};
use vstd::prelude::*;

verus! {

/// Whether a text matches a pattern in which `*` stands for any run of
/// characters, the empty one included, `?` for exactly one character, and any
/// other character for itself.
pub open spec fn matches_pattern(pattern: Seq<char>, text: Seq<char>) -> bool
    decreases pattern.len(),
{
    if pattern.len() == 0 {
        text.len() == 0
    } else if pattern[0] == '*' {
        exists|k: int|
            0 <= k <= text.len() && matches_pattern(pattern.drop_first(), #[trigger] text.skip(k))
    } else {
        &&& text.len() > 0
        &&& matches_char(pattern[0], text[0])
        &&& matches_pattern(pattern.drop_first(), text.drop_first())
    }
}

/// Whether a character of a pattern, other than `*`, stands for a character.
pub open spec fn matches_char(p: char, c: char) -> bool {
    p == '?' || p == c
}

/// Whether a text, in lowercase, matches a pattern, in lowercase.
pub open spec fn glob_matches(pattern: Seq<char>, text: Seq<char>) -> bool {
    matches_pattern(lowercase(pattern), lowercase(text))
}

/// Whether one of two patterns matches the other's text.
pub open spec fn overlap(a: Seq<char>, b: Seq<char>) -> bool {
    glob_matches(a, b) || glob_matches(b, a)
}

/// Whether the first `n` characters of a pattern are not `*`.
spec fn star_free(pattern: Seq<char>, n: int) -> bool {
    forall|i: int| 0 <= i < n ==> pattern[i] != '*'
}

/// A stretch of a pattern without `*` consumes as many characters of the text,
/// and matches when each stands for its own.
proof fn consume(pattern: Seq<char>, text: Seq<char>, n: int)
    requires
        0 <= n <= pattern.len(),
        star_free(pattern, n),
    ensures
        matches_pattern(pattern, text) ==> n <= text.len() && matches_pattern(
            pattern.skip(n),
            text.skip(n),
        ),
        n <= text.len() && (forall|i: int|
            0 <= i < n ==> matches_char(pattern[i], #[trigger] text[i])) && matches_pattern(
            pattern.skip(n),
            text.skip(n),
        ) ==> matches_pattern(pattern, text),
    decreases n,
{
    if n == 0 {
        assert(pattern.skip(0) =~= pattern);
        assert(text.skip(0) =~= text);
    } else {
        let p = pattern.drop_first();
        assert(pattern[0] != '*');
        assert forall|i: int| 0 <= i < n - 1 implies p[i] != '*' by {
            assert(p[i] == pattern[i + 1]);
        }
        if text.len() > 0 {
            let t = text.drop_first();
            consume(p, t, n - 1);
            assert(p.skip(n - 1) =~= pattern.skip(n));
            if n <= text.len() {
                assert(t.skip(n - 1) =~= text.skip(n));
                if forall|i: int| 0 <= i < n ==> matches_char(pattern[i], #[trigger] text[i]) {
                    assert(matches_char(pattern[0], text[0]));
                    assert forall|i: int| 0 <= i < n - 1 implies matches_char(
                        p[i],
                        #[trigger] t[i],
                    ) by {
                        assert(t[i] == text[i + 1]);
                    }
                }
            }
        }
    }
}

/// Whether the pattern matches some tail of the text that starts at or after
/// `from`.
spec fn matches_from(pattern: Seq<char>, text: Seq<char>, from: int) -> bool {
    exists|k: int|
        from <= k <= text.len() && matches_pattern(pattern, #[trigger] text.skip(k))
}

/// A pattern whose first `*` is at `n` matches a tail at or after `from`, where
/// its first `n` characters fit, if and only if what follows the `*` matches a
/// tail at or after `from + n`.
proof fn restart(pattern: Seq<char>, text: Seq<char>, from: int, n: int)
    requires
        0 <= n < pattern.len(),
        star_free(pattern, n),
        pattern[n] == '*',
        0 <= from,
        from + n <= text.len(),
        forall|i: int| 0 <= i < n ==> matches_char(#[trigger] pattern[i], text[from + i]),
    ensures
        matches_from(pattern, text, from) <==> matches_from(pattern.skip(n + 1), text, from + n),
{
    let rest = pattern.skip(n + 1);
    let star = pattern.skip(n);
    assert(star[0] == '*');
    assert(star.drop_first() =~= rest);
    if matches_from(pattern, text, from) {
        let k = choose|k: int|
            from <= k <= text.len() && matches_pattern(pattern, #[trigger] text.skip(k));
        let tail = text.skip(k);
        consume(pattern, tail, n);
        let tail2 = tail.skip(n);
        assert(matches_pattern(star, tail2));
        let m = choose|m: int|
            0 <= m <= tail2.len() && matches_pattern(
                star.drop_first(),
                #[trigger] tail2.skip(m),
            );
        assert(tail2.skip(m) =~= text.skip(k + n + m));
        assert(matches_pattern(rest, text.skip(k + n + m)));
    }
    if matches_from(rest, text, from + n) {
        let k = choose|k: int|
            from + n <= k <= text.len() && matches_pattern(rest, #[trigger] text.skip(k));
        let tail = text.skip(from);
        let tail2 = tail.skip(n);
        assert(tail2.skip(k - from - n) =~= text.skip(k));
        assert(matches_pattern(star.drop_first(), tail2.skip(k - from - n)));
        assert(matches_pattern(star, tail2));
        assert forall|i: int| 0 <= i < n implies matches_char(pattern[i], #[trigger] tail[i]) by {
            assert(tail[i] == text[from + i]);
        }
        consume(pattern, tail, n);
        assert(matches_pattern(pattern, text.skip(from)));
    }
}

/// A pattern that fails at `from` matches a later tail, or none.
proof fn advance(pattern: Seq<char>, text: Seq<char>, from: int)
    requires
        0 <= from < text.len(),
        !matches_pattern(pattern, text.skip(from)),
    ensures
        matches_from(pattern, text, from) <==> matches_from(pattern, text, from + 1),
{
    if matches_from(pattern, text, from) {
        let k = choose|k: int|
            from <= k <= text.len() && matches_pattern(pattern, #[trigger] text.skip(k));
        assert(k != from);
        assert(matches_pattern(pattern, text.skip(k)));
    }
    if matches_from(pattern, text, from + 1) {
        let k = choose|k: int|
            from + 1 <= k <= text.len() && matches_pattern(pattern, #[trigger] text.skip(k));
        assert(matches_pattern(pattern, text.skip(k)));
    }
}

/// What the scan of [`match_characters`] has settled once it stands at `p` in
/// the pattern and at `t` in the text, with the last `*` it met, if any, at
/// `star` and the tail tried for what follows it at `from`.
spec fn scanned(
    pattern: Seq<char>,
    text: Seq<char>,
    p: int,
    t: int,
    star: Option<usize>,
    from: int,
) -> bool {
    &&& 0 <= p <= pattern.len()
    &&& 0 <= t <= text.len()
    &&& match star {
        None => matches_pattern(pattern, text) <==> matches_pattern(pattern.skip(p), text.skip(t)),
        Some(s) => {
            &&& s < p
            &&& 0 <= from <= t
            &&& t - from == p - s - 1
            &&& forall|i: int|
                0 <= i < p - s - 1 ==> {
                    &&& (#[trigger] pattern.skip(s + 1)[i]) != '*'
                    &&& matches_char(pattern.skip(s + 1)[i], text[from + i])
                }
            &&& matches_pattern(pattern, text) <==> matches_from(pattern.skip(s + 1), text, from)
        },
    }
}

/// The scan may pass over a `*`.
proof fn step_star(
    pattern: Seq<char>,
    text: Seq<char>,
    p: usize,
    t: int,
    star: Option<usize>,
    from: int,
)
    requires
        scanned(pattern, text, p as int, t, star, from),
        p < pattern.len(),
        pattern[p as int] == '*',
    ensures
        scanned(pattern, text, p + 1, t, Some(p), t),
{
    match star {
        None => {
            let rest = pattern.skip(p as int);
            let tail = text.skip(t);
            assert(rest[0] == '*');
            assert(rest.drop_first() =~= pattern.skip(p + 1));
            if matches_pattern(rest, tail) {
                let m = choose|m: int|
                    0 <= m <= tail.len() && matches_pattern(
                        rest.drop_first(),
                        #[trigger] tail.skip(m),
                    );
                assert(tail.skip(m) =~= text.skip(t + m));
            }
            if matches_from(pattern.skip(p + 1), text, t) {
                let k = choose|k: int|
                    t <= k <= text.len() && matches_pattern(
                        pattern.skip(p + 1),
                        #[trigger] text.skip(k),
                    );
                assert(tail.skip(k - t) =~= text.skip(k));
            }
        },
        Some(s) => {
            let after = pattern.skip(s + 1);
            let n = p - s - 1;
            assert(after[n] == '*');
            assert(after.skip(n + 1) =~= pattern.skip(p + 1));
            restart(after, text, from, n);
        },
    }
}

/// The scan may pass over a character that stands for the next of the text.
proof fn step_char(
    pattern: Seq<char>,
    text: Seq<char>,
    p: int,
    t: int,
    star: Option<usize>,
    from: int,
)
    requires
        scanned(pattern, text, p, t, star, from),
        p < pattern.len(),
        t < text.len(),
        pattern[p] != '*',
        matches_char(pattern[p], text[t]),
    ensures
        scanned(pattern, text, p + 1, t + 1, star, from),
{
    match star {
        None => {
            assert(pattern.skip(p).drop_first() =~= pattern.skip(p + 1));
            assert(text.skip(t).drop_first() =~= text.skip(t + 1));
        },
        Some(s) => {
            assert forall|i: int| 0 <= i < p + 1 - s - 1 implies {
                &&& (#[trigger] pattern.skip(s + 1)[i]) != '*'
                &&& matches_char(pattern.skip(s + 1)[i], text[from + i])
            } by {
                if i == p - s - 1 {
                    assert(pattern.skip(s + 1)[i] == pattern[p]);
                }
            }
        },
    }
}

/// Where the next characters do not fit, the scan goes back to the last `*` and
/// tries the next tail.
proof fn step_back(
    pattern: Seq<char>,
    text: Seq<char>,
    p: int,
    t: int,
    star: usize,
    from: int,
)
    requires
        scanned(pattern, text, p, t, Some(star), from),
        t < text.len(),
        p == pattern.len() || pattern[p] != '*' && !matches_char(pattern[p], text[t]),
    ensures
        scanned(pattern, text, star + 1, from + 1, Some(star), from + 1),
{
    let after = pattern.skip(star + 1);
    let n = p - star - 1;
    let tail = text.skip(from);
    consume(after, tail, n);
    assert(after.skip(n) =~= pattern.skip(p));
    assert(tail.skip(n) =~= text.skip(t));
    assert(!matches_pattern(pattern.skip(p), text.skip(t)));
    advance(after, text, from);
}

/// At the end of the text, what is left of the pattern decides.
proof fn scan_end(
    pattern: Seq<char>,
    text: Seq<char>,
    p: int,
    star: Option<usize>,
    from: int,
)
    requires
        scanned(pattern, text, p, text.len() as int, star, from),
    ensures
        matches_pattern(pattern, text) <==> matches_pattern(pattern.skip(p), Seq::empty()),
{
    assert(text.skip(text.len() as int) =~= Seq::<char>::empty());
    if let Some(s) = star {
        let after = pattern.skip(s + 1);
        let n = p - s - 1;
        assert(after.skip(n) =~= pattern.skip(p));
        if matches_from(after, text, from) {
            let k = choose|k: int|
                from <= k <= text.len() && matches_pattern(after, #[trigger] text.skip(k));
            consume(after, text.skip(k), n);
            assert(text.skip(k).skip(n) =~= Seq::<char>::empty());
        }
        if matches_pattern(pattern.skip(p), Seq::empty()) {
            let tail = text.skip(from);
            assert(tail.skip(n) =~= Seq::<char>::empty());
            assert forall|i: int| 0 <= i < n implies matches_char(after[i], #[trigger] tail[i]) by {
                assert(tail[i] == text[from + i]);
            }
            consume(after, tail, n);
        }
    }
}

/// The empty text matches a pattern of `*` alone, and no other.
proof fn matches_empty_text(pattern: Seq<char>)
    ensures
        matches_pattern(pattern, Seq::empty()) <==> forall|i: int|
            0 <= i < pattern.len() ==> pattern[i] == '*',
    decreases pattern.len(),
{
    let empty = Seq::<char>::empty();
    if pattern.len() > 0 {
        let rest = pattern.drop_first();
        matches_empty_text(rest);
        assert(empty.skip(0) =~= empty);
        if pattern[0] == '*' {
            if matches_pattern(pattern, empty) {
                let k = choose|k: int|
                    0 <= k <= empty.len() && matches_pattern(rest, #[trigger] empty.skip(k));
                assert(k == 0);
                assert forall|i: int| 0 <= i < pattern.len() implies pattern[i] == '*' by {
                    if i > 0 {
                        assert(pattern[i] == rest[i - 1]);
                    }
                }
            }
        }
        if forall|i: int| 0 <= i < pattern.len() ==> pattern[i] == '*' {
            assert forall|i: int| 0 <= i < rest.len() implies rest[i] == '*' by {
                assert(rest[i] == pattern[i + 1]);
            }
        }
    }
}

/// Matches characters, as they are, against a pattern: one pass over the text
/// that goes back to the most recent `*` on a mismatch.
pub fn match_characters(pattern: &Vec<char>, text: &Vec<char>) -> (r: bool)
    ensures
        r == matches_pattern(pattern@, text@),
{
    let mut p: usize = 0;
    let mut t: usize = 0;
    let mut star: Option<usize> = None;
    let mut from: usize = 0;
    assert(pattern@.skip(0) =~= pattern@);
    assert(text@.skip(0) =~= text@);
    while t < text.len()
        invariant
            scanned(pattern@, text@, p as int, t as int, star, from as int),
        decreases
            pattern@.len() + 1 - (match star {
                Some(s) => s + 1,
                None => 0,
            }),
            text@.len() - from,
            pattern@.len() - p,
    {
        if p < pattern.len() && pattern[p] == '*' {
            proof {
                step_star(pattern@, text@, p, t as int, star, from as int);
            }
            star = Some(p);
            from = t;
            p += 1;
        } else if p < pattern.len() && (pattern[p] == '?' || pattern[p] == text[t]) {
            proof {
                step_char(pattern@, text@, p as int, t as int, star, from as int);
            }
            p += 1;
            t += 1;
        } else if let Some(s) = star {
            proof {
                step_back(pattern@, text@, p as int, t as int, s, from as int);
            }
            p = s + 1;
            from += 1;
            t = from;
        } else {
            return false;
        }
    }
    proof {
        scan_end(pattern@, text@, p as int, star, from as int);
        matches_empty_text(pattern@.skip(p as int));
    }
    let ghost left = pattern@.skip(p as int);
    let ghost start = p;
    while p < pattern.len() && pattern[p] == '*'
        invariant
            start <= p <= pattern@.len(),
            left == pattern@.skip(start as int),
            forall|i: int| start <= i < p ==> pattern@[i] == '*',
        decreases pattern@.len() - p,
    {
        p += 1;
    }
    proof {
        if p < pattern@.len() {
            assert(left[p - start] == pattern@[p as int]);
        } else {
            assert forall|i: int| 0 <= i < left.len() implies left[i] == '*' by {
                assert(left[i] == pattern@[start + i]);
            }
        }
    }
    p == pattern.len()
}

/// Case-insensitive match of a text against a pattern in which `*` stands for any
/// run of characters, the empty one included, and `?` for exactly one character.
pub fn glob_match(pattern: &str, text: &str) -> (r: bool)
    ensures
        r == glob_matches(pattern@, text@),
{
    let pattern = characters(pattern.to_lowercase().as_str());
    let text = characters(text.to_lowercase().as_str());
    match_characters(&pattern, &text)
}

/// Two action patterns overlap if either of them matches the other's text. This
/// is a heuristic: `iam:C*` and `iam:*User` have actions in common, but neither
/// matches the other's text.
pub fn actions_overlap(a: &str, b: &str) -> (r: bool)
    ensures
        r == overlap(a@, b@),
{
    glob_match(a, b) || glob_match(b, a)
}

/// Whether a text holds neither `*` nor `?`.
pub open spec fn plain(s: Seq<char>) -> bool {
    forall|i: int| 0 <= i < s.len() ==> s[i] != '*' && s[i] != '?'
}

/// A pattern without wildcards, followed by a tail, matches exactly the texts
/// that begin with it and go on with a match of the tail.
pub proof fn plain_prefix(prefix: Seq<char>, tail: Seq<char>, text: Seq<char>)
    requires
        plain(prefix),
    ensures
        matches_pattern(prefix + tail, text) <==> prefix.is_prefix_of(text) && matches_pattern(
            tail,
            text.skip(prefix.len() as int),
        ),
{
    let pattern = prefix + tail;
    let n = prefix.len() as int;
    assert forall|i: int| 0 <= i < n implies pattern[i] != '*' by {
        assert(pattern[i] == prefix[i]);
    }
    consume(pattern, text, n);
    assert(pattern.skip(n) =~= tail);
    if matches_pattern(pattern, text) {
        plain_prefix_agrees(pattern, text, n);
        assert(prefix =~= text.subrange(0, n));
    }
    if prefix.is_prefix_of(text) {
        assert forall|i: int| 0 <= i < n implies matches_char(pattern[i], #[trigger] text[i]) by {
            assert(text.subrange(0, n)[i] == text[i]);
            assert(pattern[i] == prefix[i]);
        }
    }
}

/// A match agrees with the pattern where the pattern has no wildcard yet.
proof fn plain_prefix_agrees(pattern: Seq<char>, text: Seq<char>, n: int)
    requires
        0 <= n <= pattern.len(),
        forall|i: int| 0 <= i < n ==> pattern[i] != '*' && pattern[i] != '?',
        matches_pattern(pattern, text),
    ensures
        n <= text.len(),
        forall|i: int| 0 <= i < n ==> pattern[i] == text[i],
    decreases n,
{
    if n > 0 {
        assert(pattern[0] != '*' && pattern[0] != '?');
        let p = pattern.drop_first();
        let t = text.drop_first();
        assert forall|i: int| 0 <= i < n - 1 implies p[i] != '*' && p[i] != '?' by {
            assert(p[i] == pattern[i + 1]);
        }
        plain_prefix_agrees(p, t, n - 1);
        assert forall|i: int| 0 <= i < n implies pattern[i] == text[i] by {
            if i > 0 {
                assert(p[i - 1] == t[i - 1]);
            }
        }
    }
}

/// `*` alone matches every text.
pub proof fn star_matches_everything(text: Seq<char>)
    ensures
        glob_matches("*"@, text),
{
    reveal_strlit("*");
    let star = seq!['*'];
    assert(ascii_lowercase("*"@) =~= star);
    let t = lowercase(text);
    assert(t.skip(t.len() as int) =~= Seq::<char>::empty());
    assert(star.drop_first() =~= Seq::<char>::empty());
    assert(matches_pattern(star.drop_first(), t.skip(t.len() as int)));
}

/// Every pattern matches its own text.
pub proof fn pattern_matches_itself(pattern: Seq<char>)
    ensures
        glob_matches(pattern, pattern),
{
    self_match(lowercase(pattern));
}

proof fn self_match(pattern: Seq<char>)
    ensures
        matches_pattern(pattern, pattern),
    decreases pattern.len(),
{
    if pattern.len() > 0 {
        self_match(pattern.drop_first());
        assert(pattern.skip(1) =~= pattern.drop_first());
    }
}

/// A pattern without wildcards matches its own text, in any case, and no other.
pub proof fn plain_pattern_is_literal(pattern: Seq<char>, text: Seq<char>)
    requires
        plain(lowercase(pattern)),
    ensures
        glob_matches(pattern, text) <==> lowercase(pattern) == lowercase(text),
{
    let p = lowercase(pattern);
    let t = lowercase(text);
    let empty = Seq::<char>::empty();
    plain_prefix(p, empty, t);
    assert(p + empty =~= p);
    if p.is_prefix_of(t) && t.skip(p.len() as int).len() == 0 {
        assert(p =~= t);
    }
    if p == t {
        assert(t.subrange(0, p.len() as int) =~= p);
    }
}

/// A pattern of `?` alone matches exactly the texts of its length.
pub proof fn question_marks_count(pattern: Seq<char>, text: Seq<char>)
    requires
        forall|i: int| 0 <= i < lowercase(pattern).len() ==> lowercase(pattern)[i] == '?',
    ensures
        glob_matches(pattern, text) <==> lowercase(pattern).len() == lowercase(text).len(),
{
    question_marks(lowercase(pattern), lowercase(text));
}

proof fn question_marks(pattern: Seq<char>, text: Seq<char>)
    requires
        forall|i: int| 0 <= i < pattern.len() ==> pattern[i] == '?',
    ensures
        matches_pattern(pattern, text) <==> pattern.len() == text.len(),
    decreases pattern.len(),
{
    if pattern.len() > 0 && text.len() > 0 {
        let p = pattern.drop_first();
        assert forall|i: int| 0 <= i < p.len() implies p[i] == '?' by {
            assert(p[i] == pattern[i + 1]);
        }
        question_marks(p, text.drop_first());
    }
}

/// Case does not matter: patterns and texts with the same lowercase form match
/// alike.
pub proof fn case_is_ignored(p: Seq<char>, q: Seq<char>, s: Seq<char>, t: Seq<char>)
    requires
        lowercase(p) == lowercase(q),
        lowercase(s) == lowercase(t),
    ensures
        glob_matches(p, s) == glob_matches(q, t),
        overlap(p, s) == overlap(q, t),
{
}

/// The case of ASCII letters, in a pattern or in a text, never changes a match,
/// whatever other characters they hold.
pub proof fn ascii_case_is_ignored(p: Seq<char>, q: Seq<char>, s: Seq<char>, t: Seq<char>)
    requires
        ascii_lowercase(p) == ascii_lowercase(q),
        ascii_lowercase(s) == ascii_lowercase(t),
    ensures
        glob_matches(p, s) == glob_matches(q, t),
        overlap(p, s) == overlap(q, t),
{
    ascii_case_folds(p, q);
    ascii_case_folds(s, t);
}

/// Putting the ASCII letters of a pattern and of a text into capitals or into
/// lowercase, each as one likes, never changes a match.
pub proof fn ascii_case_changes_are_ignored(pattern: Seq<char>, text: Seq<char>)
    ensures
        glob_matches(ascii_uppercase(pattern), ascii_lowercase(text)) == glob_matches(
            pattern,
            text,
        ),
        glob_matches(ascii_lowercase(pattern), ascii_uppercase(text)) == glob_matches(
            pattern,
            text,
        ),
        glob_matches(ascii_uppercase(pattern), ascii_uppercase(text)) == glob_matches(
            pattern,
            text,
        ),
        glob_matches(ascii_lowercase(pattern), ascii_lowercase(text)) == glob_matches(
            pattern,
            text,
        ),
{
    ascii_case_changes_fold(pattern);
    ascii_case_changes_fold(text);
    ascii_case_folds(ascii_uppercase(pattern), pattern);
    ascii_case_folds(ascii_lowercase(pattern), pattern);
    ascii_case_folds(ascii_uppercase(text), text);
    ascii_case_folds(ascii_lowercase(text), text);
}

/// Overlap does not depend on which pattern comes first, and every pattern
/// overlaps itself.
pub proof fn overlap_is_symmetric_and_reflexive(a: Seq<char>, b: Seq<char>)
    ensures
        overlap(a, b) == overlap(b, a),
        overlap(a, a),
{
    pattern_matches_itself(a);
}

} // verus!
