//! What the operations mean, in terms of what goes in and what comes out.
#![allow(unused_imports)]

use crate::glob::{
    glob_matches, matches_pattern, overlap, plain, plain_pattern_is_literal, plain_prefix,
};
use crate::rules::{is_safe_read, is_sensitive, verb_of, SAFE_READ_VERBS, SENSITIVE_ACTIONS};
use crate::text::{ascii_lower, ascii_lowercase, lowercase};
use vstd::prelude::*;

verus! {

/// Case folding maps each capital of the alphabet to the small letter at the same
/// place and keeps every other character.
pub proof fn folding_maps_the_alphabet(c: char)
    ensures
        forall|i: int|
            0 <= i < 26 ==> ascii_lower(#[trigger] "ABCDEFGHIJKLMNOPQRSTUVWXYZ"@[i])
                == "abcdefghijklmnopqrstuvwxyz"@[i],
        !"ABCDEFGHIJKLMNOPQRSTUVWXYZ"@.contains(c) ==> ascii_lower(c) == c,
{
    reveal_strlit("ABCDEFGHIJKLMNOPQRSTUVWXYZ");
    reveal_strlit("abcdefghijklmnopqrstuvwxyz");
    if 'A' <= c <= 'Z' {
        let i = c as int - 'A' as int;
        assert("ABCDEFGHIJKLMNOPQRSTUVWXYZ"@[i] == c);
    }
}

/// The lowercase form of an ASCII text folds each character by itself.
pub proof fn ascii_lowercase_form(s: Seq<char>)
    requires
        forall|i: int| 0 <= i < s.len() ==> (#[trigger] s[i]) as int <= 127,
    ensures
        lowercase(s).len() == s.len(),
        forall|i: int| 0 <= i < s.len() ==> #[trigger] lowercase(s)[i] == ascii_lower(s[i]),
{
}

/// Whether `cuts` divides a text among the characters of a pattern: the part
/// between two neighbouring cuts is what one character of the pattern stands for.
pub open spec fn divides(pattern: Seq<char>, text: Seq<char>, cuts: Seq<int>) -> bool {
    &&& cuts.len() == pattern.len() + 1
    &&& cuts[0] == 0
    &&& cuts[pattern.len() as int] == text.len()
    &&& forall|i: int| 0 <= i <= pattern.len() ==> 0 <= #[trigger] cuts[i] <= text.len()
    &&& forall|i: int|
        0 <= i < pattern.len() ==> if #[trigger] pattern[i] == '*' {
            cuts[i] <= cuts[i + 1]
        } else {
            cuts[i + 1] == cuts[i] + 1 && (pattern[i] == '?' || pattern[i] == text[cuts[i]])
        }
}

/// A text matches a pattern exactly if it can be divided among the characters of
/// the pattern: any part to a `*`, one character to a `?`, and to any other
/// character that character. All are taken in lowercase.
pub proof fn match_is_a_division(pattern: Seq<char>, text: Seq<char>)
    ensures
        glob_matches(pattern, text) <==> exists|cuts: Seq<int>| #[trigger]
            divides(lowercase(pattern), lowercase(text), cuts),
{
    let p = lowercase(pattern);
    let t = lowercase(text);
    if matches_pattern(p, t) {
        let cuts = division(p, t);
        assert(divides(p, t, cuts));
    }
    if exists|cuts: Seq<int>| #[trigger] divides(p, t, cuts) {
        let cuts = choose|cuts: Seq<int>| #[trigger] divides(p, t, cuts);
        division_matches(p, t, cuts);
    }
}

/// A match gives a division.
proof fn division(pattern: Seq<char>, text: Seq<char>) -> (cuts: Seq<int>)
    requires
        matches_pattern(pattern, text),
    ensures
        divides(pattern, text, cuts),
    decreases pattern.len(),
{
    if pattern.len() == 0 {
        seq![0int]
    } else {
        let p = pattern.drop_first();
        let k: int = if pattern[0] == '*' {
            choose|k: int| 0 <= k <= text.len() && matches_pattern(p, #[trigger] text.skip(k))
        } else {
            1
        };
        let t = text.skip(k);
        assert(text.len() > 0 ==> text.skip(1) =~= text.drop_first());
        let rest = division(p, t);
        let cuts = Seq::new(
            pattern.len() + 1,
            |i: int|
                if i == 0 {
                    0int
                } else {
                    rest[i - 1] + k
                },
        );
        assert forall|i: int| 0 <= i <= pattern.len() implies 0 <= #[trigger] cuts[i]
            <= text.len() by {
            if i > 0 {
                assert(0 <= rest[i - 1] <= t.len());
            }
        }
        assert forall|i: int| 0 <= i < pattern.len() implies if #[trigger] pattern[i] == '*' {
            cuts[i] <= cuts[i + 1]
        } else {
            cuts[i + 1] == cuts[i] + 1 && (pattern[i] == '?' || pattern[i] == text[cuts[i]])
        } by {
            if i > 0 {
                assert(p[i - 1] == pattern[i]);
                assert(0 <= rest[i - 1] <= t.len());
                assert(0 <= rest[i] <= t.len());
                if pattern[i] != '*' {
                    assert(t[rest[i - 1]] == text[cuts[i]]);
                }
            }
        }
        cuts
    }
}

/// A division gives a match.
proof fn division_matches(pattern: Seq<char>, text: Seq<char>, cuts: Seq<int>)
    requires
        divides(pattern, text, cuts),
    ensures
        matches_pattern(pattern, text),
    decreases pattern.len(),
{
    if pattern.len() > 0 {
        let p = pattern.drop_first();
        let k = cuts[1];
        assert(0 <= k <= text.len());
        assert(pattern[0] == '*' || k == 1);
        let t = text.skip(k);
        let rest = Seq::new(pattern.len(), |i: int| cuts[i + 1] - k);
        cuts_grow(pattern, text, cuts, 1);
        assert forall|i: int| 0 <= i <= p.len() implies 0 <= #[trigger] rest[i] <= t.len() by {
            assert(0 <= cuts[i + 1] <= text.len());
            cuts_grow(pattern, text, cuts, i + 1);
        }
        assert forall|i: int| 0 <= i < p.len() implies if #[trigger] p[i] == '*' {
            rest[i] <= rest[i + 1]
        } else {
            rest[i + 1] == rest[i] + 1 && (p[i] == '?' || p[i] == t[rest[i]])
        } by {
            assert(p[i] == pattern[i + 1]);
            assert(0 <= rest[i] <= t.len());
            assert(0 <= rest[i + 1] <= t.len());
            if p[i] != '*' {
                assert(t[rest[i]] == text[cuts[i + 1]]);
            }
        }
        division_matches(p, t, rest);
        assert(text.len() > 0 ==> text.skip(1) =~= text.drop_first());
    }
}

/// No cut lies before the first one behind the start.
proof fn cuts_grow(pattern: Seq<char>, text: Seq<char>, cuts: Seq<int>, i: int)
    requires
        divides(pattern, text, cuts),
        1 <= i <= pattern.len(),
    ensures
        cuts[1] <= cuts[i],
    decreases i,
{
    if i > 1 {
        cuts_grow(pattern, text, cuts, i - 1);
        assert(pattern[i - 1] == '*' || cuts[i] == cuts[i - 1] + 1);
    }
}

/// Two patterns overlap exactly if the text of one can be divided among the
/// characters of the other.
pub proof fn overlap_is_a_match_either_way(a: Seq<char>, b: Seq<char>)
    ensures
        overlap(a, b) <==> (exists|cuts: Seq<int>| #[trigger]
            divides(lowercase(a), lowercase(b), cuts)) || (exists|cuts: Seq<int>| #[trigger]
            divides(lowercase(b), lowercase(a), cuts)),
{
    match_is_a_division(a, b);
    match_is_a_division(b, a);
}

/// A pattern put together of two matches every text put together of a match of
/// the first and a match of the second.
pub proof fn matches_can_be_joined(
    p: Seq<char>,
    q: Seq<char>,
    s: Seq<char>,
    t: Seq<char>,
)
    requires
        matches_pattern(p, s),
        matches_pattern(q, t),
    ensures
        matches_pattern(p + q, s + t),
{
    let a = division(p, s);
    let b = division(q, t);
    let n = p.len() as int;
    let pq = p + q;
    let st = s + t;
    let cuts = Seq::new(
        pq.len() + 1,
        |i: int|
            if i <= n {
                a[i]
            } else {
                b[i - n] + s.len()
            },
    );
    assert forall|i: int| 0 <= i <= pq.len() implies 0 <= #[trigger] cuts[i] <= st.len() by {
        if i <= n {
            assert(0 <= a[i] <= s.len());
        } else {
            assert(0 <= b[i - n] <= t.len());
        }
    }
    assert(cuts[pq.len() as int] == st.len());
    assert forall|i: int| 0 <= i < pq.len() implies if #[trigger] pq[i] == '*' {
        cuts[i] <= cuts[i + 1]
    } else {
        cuts[i + 1] == cuts[i] + 1 && (pq[i] == '?' || pq[i] == st[cuts[i]])
    } by {
        if i < n {
            assert(pq[i] == p[i]);
            assert(0 <= a[i] <= s.len());
            assert(0 <= a[i + 1] <= s.len());
        } else {
            assert(pq[i] == q[i - n]);
            assert(0 <= b[i - n] <= t.len());
            assert(0 <= b[i - n + 1] <= t.len());
            assert(cuts[i] == b[i - n] + s.len());
        }
    }
    division_matches(pq, st, cuts);
}

/// The characters of a text that are small letters, digits or other ASCII but no
/// capitals are its lowercase form.
proof fn lowercase_already(s: Seq<char>)
    requires
        forall|i: int| 0 <= i < s.len() ==> #[trigger] s[i] < '\u{80}' && !('A' <= s[i] <= 'Z'),
    ensures
        lowercase(s) == s,
{
    assert(ascii_lowercase(s) =~= s);
}

/// Whether a text is ASCII without capitals, `*` or `?`.
spec fn is_name(s: Seq<char>) -> bool {
    forall|i: int|
        0 <= i < s.len() ==> #[trigger] s[i] < '\u{80}' && !('A' <= s[i] <= 'Z') && s[i] != '*'
            && s[i] != '?'
}

/// The sensitive actions are names, but for the first.
proof fn sensitive_names()
    ensures
        is_name("iam:createuser"@),
        is_name("iam:createaccesskey"@),
        is_name("iam:attachuserpolicy"@),
        is_name("iam:attachrolepolicy"@),
        is_name("iam:putuserpolicy"@),
        is_name("iam:putrolepolicy"@),
        is_name("iam:updateassumerolepolicy"@),
        is_name("iam:passrole"@),
        is_name("iam:createpolicyversion"@),
        is_name("iam:setdefaultpolicyversion"@),
        is_name("iam:deleteuserpolicy"@),
        is_name("iam:deleterolepolicy"@),
        is_name("sts:assumerole"@),
        is_name("s3:deletebucket"@),
        is_name("s3:deletebucketpolicy"@),
        is_name("s3:putbucketpolicy"@),
        is_name("s3:putbucketacl"@),
        is_name("s3:putbucketpublicaccessblock"@),
        is_name("ec2:terminateinstances"@),
        is_name("rds:deletedbinstance"@),
        is_name("rds:deletedbcluster"@),
        is_name("kms:scheduledeletion"@),
        is_name("kms:disablekey"@),
        is_name("kms:putkeypolicy"@),
        is_name("organizations:leaveorganization"@),
        is_name("organizations:deleteorganization"@),
        is_name("cloudtrail:deletetrail"@),
        is_name("cloudtrail:stoplogging"@),
{
    assert(is_name("iam:createuser"@)) by {
        reveal_strlit("iam:createuser");
    }
    assert(is_name("iam:createaccesskey"@)) by {
        reveal_strlit("iam:createaccesskey");
    }
    assert(is_name("iam:attachuserpolicy"@)) by {
        reveal_strlit("iam:attachuserpolicy");
    }
    assert(is_name("iam:attachrolepolicy"@)) by {
        reveal_strlit("iam:attachrolepolicy");
    }
    assert(is_name("iam:putuserpolicy"@)) by {
        reveal_strlit("iam:putuserpolicy");
    }
    assert(is_name("iam:putrolepolicy"@)) by {
        reveal_strlit("iam:putrolepolicy");
    }
    assert(is_name("iam:updateassumerolepolicy"@)) by {
        reveal_strlit("iam:updateassumerolepolicy");
    }
    assert(is_name("iam:passrole"@)) by {
        reveal_strlit("iam:passrole");
    }
    assert(is_name("iam:createpolicyversion"@)) by {
        reveal_strlit("iam:createpolicyversion");
    }
    assert(is_name("iam:setdefaultpolicyversion"@)) by {
        reveal_strlit("iam:setdefaultpolicyversion");
    }
    assert(is_name("iam:deleteuserpolicy"@)) by {
        reveal_strlit("iam:deleteuserpolicy");
    }
    assert(is_name("iam:deleterolepolicy"@)) by {
        reveal_strlit("iam:deleterolepolicy");
    }
    assert(is_name("sts:assumerole"@)) by {
        reveal_strlit("sts:assumerole");
    }
    assert(is_name("s3:deletebucket"@)) by {
        reveal_strlit("s3:deletebucket");
    }
    assert(is_name("s3:deletebucketpolicy"@)) by {
        reveal_strlit("s3:deletebucketpolicy");
    }
    assert(is_name("s3:putbucketpolicy"@)) by {
        reveal_strlit("s3:putbucketpolicy");
    }
    assert(is_name("s3:putbucketacl"@)) by {
        reveal_strlit("s3:putbucketacl");
    }
    assert(is_name("s3:putbucketpublicaccessblock"@)) by {
        reveal_strlit("s3:putbucketpublicaccessblock");
    }
    assert(is_name("ec2:terminateinstances"@)) by {
        reveal_strlit("ec2:terminateinstances");
    }
    assert(is_name("rds:deletedbinstance"@)) by {
        reveal_strlit("rds:deletedbinstance");
    }
    assert(is_name("rds:deletedbcluster"@)) by {
        reveal_strlit("rds:deletedbcluster");
    }
    assert(is_name("kms:scheduledeletion"@)) by {
        reveal_strlit("kms:scheduledeletion");
    }
    assert(is_name("kms:disablekey"@)) by {
        reveal_strlit("kms:disablekey");
    }
    assert(is_name("kms:putkeypolicy"@)) by {
        reveal_strlit("kms:putkeypolicy");
    }
    assert(is_name("organizations:leaveorganization"@)) by {
        reveal_strlit("organizations:leaveorganization");
    }
    assert(is_name("organizations:deleteorganization"@)) by {
        reveal_strlit("organizations:deleteorganization");
    }
    assert(is_name("cloudtrail:deletetrail"@)) by {
        reveal_strlit("cloudtrail:deletetrail");
    }
    assert(is_name("cloudtrail:stoplogging"@)) by {
        reveal_strlit("cloudtrail:stoplogging");
    }
}

/// The list of sensitive actions, entry by entry.
proof fn sensitive_entries()
    ensures
        SENSITIVE_ACTIONS@.len() == 29,
        SENSITIVE_ACTIONS@[0]@ == "iam:*"@,
        SENSITIVE_ACTIONS@[1]@ == "iam:createuser"@,
        SENSITIVE_ACTIONS@[2]@ == "iam:createaccesskey"@,
        SENSITIVE_ACTIONS@[3]@ == "iam:attachuserpolicy"@,
        SENSITIVE_ACTIONS@[4]@ == "iam:attachrolepolicy"@,
        SENSITIVE_ACTIONS@[5]@ == "iam:putuserpolicy"@,
        SENSITIVE_ACTIONS@[6]@ == "iam:putrolepolicy"@,
        SENSITIVE_ACTIONS@[7]@ == "iam:updateassumerolepolicy"@,
        SENSITIVE_ACTIONS@[8]@ == "iam:passrole"@,
        SENSITIVE_ACTIONS@[9]@ == "iam:createpolicyversion"@,
        SENSITIVE_ACTIONS@[10]@ == "iam:setdefaultpolicyversion"@,
        SENSITIVE_ACTIONS@[11]@ == "iam:deleteuserpolicy"@,
        SENSITIVE_ACTIONS@[12]@ == "iam:deleterolepolicy"@,
        SENSITIVE_ACTIONS@[13]@ == "sts:assumerole"@,
        SENSITIVE_ACTIONS@[14]@ == "s3:deletebucket"@,
        SENSITIVE_ACTIONS@[15]@ == "s3:deletebucketpolicy"@,
        SENSITIVE_ACTIONS@[16]@ == "s3:putbucketpolicy"@,
        SENSITIVE_ACTIONS@[17]@ == "s3:putbucketacl"@,
        SENSITIVE_ACTIONS@[18]@ == "s3:putbucketpublicaccessblock"@,
        SENSITIVE_ACTIONS@[19]@ == "ec2:terminateinstances"@,
        SENSITIVE_ACTIONS@[20]@ == "rds:deletedbinstance"@,
        SENSITIVE_ACTIONS@[21]@ == "rds:deletedbcluster"@,
        SENSITIVE_ACTIONS@[22]@ == "kms:scheduledeletion"@,
        SENSITIVE_ACTIONS@[23]@ == "kms:disablekey"@,
        SENSITIVE_ACTIONS@[24]@ == "kms:putkeypolicy"@,
        SENSITIVE_ACTIONS@[25]@ == "organizations:leaveorganization"@,
        SENSITIVE_ACTIONS@[26]@ == "organizations:deleteorganization"@,
        SENSITIVE_ACTIONS@[27]@ == "cloudtrail:deletetrail"@,
        SENSITIVE_ACTIONS@[28]@ == "cloudtrail:stoplogging"@,
{
}

/// An action is sensitive exactly if its pattern matches, or is matched by, one of
/// these entries.
pub proof fn sensitive_means_overlap_with_these(action: Seq<char>)
    ensures
        ({
            let entries = seq![
                "iam:*"@,
                "iam:createuser"@,
                "iam:createaccesskey"@,
                "iam:attachuserpolicy"@,
                "iam:attachrolepolicy"@,
                "iam:putuserpolicy"@,
                "iam:putrolepolicy"@,
                "iam:updateassumerolepolicy"@,
                "iam:passrole"@,
                "iam:createpolicyversion"@,
                "iam:setdefaultpolicyversion"@,
                "iam:deleteuserpolicy"@,
                "iam:deleterolepolicy"@,
                "sts:assumerole"@,
                "s3:deletebucket"@,
                "s3:deletebucketpolicy"@,
                "s3:putbucketpolicy"@,
                "s3:putbucketacl"@,
                "s3:putbucketpublicaccessblock"@,
                "ec2:terminateinstances"@,
                "rds:deletedbinstance"@,
                "rds:deletedbcluster"@,
                "kms:scheduledeletion"@,
                "kms:disablekey"@,
                "kms:putkeypolicy"@,
                "organizations:leaveorganization"@,
                "organizations:deleteorganization"@,
                "cloudtrail:deletetrail"@,
                "cloudtrail:stoplogging"@,
            ];
            is_sensitive(action) <==> exists|i: int|
                0 <= i < entries.len() && (glob_matches(action, #[trigger] entries[i])
                    || glob_matches(entries[i], action))
        }),
{
    sensitive_entries();
    let entries = seq![
        "iam:*"@,
        "iam:createuser"@,
        "iam:createaccesskey"@,
        "iam:attachuserpolicy"@,
        "iam:attachrolepolicy"@,
        "iam:putuserpolicy"@,
        "iam:putrolepolicy"@,
        "iam:updateassumerolepolicy"@,
        "iam:passrole"@,
        "iam:createpolicyversion"@,
        "iam:setdefaultpolicyversion"@,
        "iam:deleteuserpolicy"@,
        "iam:deleterolepolicy"@,
        "sts:assumerole"@,
        "s3:deletebucket"@,
        "s3:deletebucketpolicy"@,
        "s3:putbucketpolicy"@,
        "s3:putbucketacl"@,
        "s3:putbucketpublicaccessblock"@,
        "ec2:terminateinstances"@,
        "rds:deletedbinstance"@,
        "rds:deletedbcluster"@,
        "kms:scheduledeletion"@,
        "kms:disablekey"@,
        "kms:putkeypolicy"@,
        "organizations:leaveorganization"@,
        "organizations:deleteorganization"@,
        "cloudtrail:deletetrail"@,
        "cloudtrail:stoplogging"@,
    ];
    assert forall|i: int| 0 <= i < 29 implies (#[trigger] SENSITIVE_ACTIONS@[i])@ == entries[i] by {
        sensitive_entries();
    }
    if is_sensitive(action) {
        let i = choose|i: int|
            0 <= i < SENSITIVE_ACTIONS@.len() && overlap(
                action,
                (#[trigger] SENSITIVE_ACTIONS@[i])@,
            );
        assert(SENSITIVE_ACTIONS@[i]@ == entries[i]);
    }
    if exists|i: int|
        0 <= i < entries.len() && (glob_matches(action, #[trigger] entries[i]) || glob_matches(
            entries[i],
            action,
        )) {
        let i = choose|i: int|
            0 <= i < entries.len() && (glob_matches(action, #[trigger] entries[i])
                || glob_matches(entries[i], action));
        assert(overlap(action, SENSITIVE_ACTIONS@[i]@));
    }
}

/// An action without wildcards is sensitive exactly if, in lowercase, it belongs to
/// the IAM service or is one of these.
pub proof fn sensitive_without_wildcards(action: Seq<char>)
    requires
        plain(lowercase(action)),
    ensures
        is_sensitive(action) <==> "iam:"@.is_prefix_of(lowercase(action)) || seq![
            "sts:assumerole"@,
            "s3:deletebucket"@,
            "s3:deletebucketpolicy"@,
            "s3:putbucketpolicy"@,
            "s3:putbucketacl"@,
            "s3:putbucketpublicaccessblock"@,
            "ec2:terminateinstances"@,
            "rds:deletedbinstance"@,
            "rds:deletedbcluster"@,
            "kms:scheduledeletion"@,
            "kms:disablekey"@,
            "kms:putkeypolicy"@,
            "organizations:leaveorganization"@,
            "organizations:deleteorganization"@,
            "cloudtrail:deletetrail"@,
            "cloudtrail:stoplogging"@,
        ].contains(lowercase(action)),
{
    let text = lowercase(action);
    let entries = seq![
        "sts:assumerole"@,
        "s3:deletebucket"@,
        "s3:deletebucketpolicy"@,
        "s3:putbucketpolicy"@,
        "s3:putbucketacl"@,
        "s3:putbucketpublicaccessblock"@,
        "ec2:terminateinstances"@,
        "rds:deletedbinstance"@,
        "rds:deletedbcluster"@,
        "kms:scheduledeletion"@,
        "kms:disablekey"@,
        "kms:putkeypolicy"@,
        "organizations:leaveorganization"@,
        "organizations:deleteorganization"@,
        "cloudtrail:deletetrail"@,
        "cloudtrail:stoplogging"@,
    ];
    sensitive_entries();
    sensitive_names();
    assert forall|i: int| 1 <= i < 29 implies is_name((#[trigger] SENSITIVE_ACTIONS@[i])@) by {
        sensitive_entries();
        sensitive_names();
    }
    assert forall|i: int| 1 <= i < 29 implies overlap(
        action,
        (#[trigger] SENSITIVE_ACTIONS@[i])@,
    ) == (text == SENSITIVE_ACTIONS@[i]@) by {
        let entry = SENSITIVE_ACTIONS@[i]@;
        assert(is_name(entry));
        lowercase_already(entry);
        plain_pattern_is_literal(action, entry);
        plain_pattern_is_literal(entry, action);
    }
    iam_entry_matches(action);
    assert forall|i: int| 13 <= i < 29 implies (#[trigger] SENSITIVE_ACTIONS@[i])@ == entries[i
        - 13] by {
        sensitive_entries();
    }
    assert forall|i: int| 1 <= i < 13 implies "iam:"@.is_prefix_of(
        (#[trigger] SENSITIVE_ACTIONS@[i])@,
    ) by {
        iam_entries(i);
    }
    if is_sensitive(action) {
        let i = choose|i: int|
            0 <= i < SENSITIVE_ACTIONS@.len() && overlap(
                action,
                (#[trigger] SENSITIVE_ACTIONS@[i])@,
            );
        if i >= 13 {
            assert(entries[i - 13] == text);
        }
    }
    if "iam:"@.is_prefix_of(text) {
        assert(overlap(action, SENSITIVE_ACTIONS@[0]@));
    }
    if entries.contains(text) {
        let k = entries.index_of(text);
        assert(SENSITIVE_ACTIONS@[k + 13]@ == text);
        assert(overlap(action, SENSITIVE_ACTIONS@[k + 13]@));
    }
}

/// The entries up to the thirteenth belong to the IAM service.
proof fn iam_entries(i: int)
    requires
        1 <= i < 13,
    ensures
        "iam:"@.is_prefix_of(SENSITIVE_ACTIONS@[i]@),
{
    sensitive_entries();
    reveal_strlit("iam:");
    assert("iam:"@.is_prefix_of("iam:createuser"@)) by {
        reveal_strlit("iam:createuser");
    }
    assert("iam:"@.is_prefix_of("iam:createaccesskey"@)) by {
        reveal_strlit("iam:createaccesskey");
    }
    assert("iam:"@.is_prefix_of("iam:attachuserpolicy"@)) by {
        reveal_strlit("iam:attachuserpolicy");
    }
    assert("iam:"@.is_prefix_of("iam:attachrolepolicy"@)) by {
        reveal_strlit("iam:attachrolepolicy");
    }
    assert("iam:"@.is_prefix_of("iam:putuserpolicy"@)) by {
        reveal_strlit("iam:putuserpolicy");
    }
    assert("iam:"@.is_prefix_of("iam:putrolepolicy"@)) by {
        reveal_strlit("iam:putrolepolicy");
    }
    assert("iam:"@.is_prefix_of("iam:updateassumerolepolicy"@)) by {
        reveal_strlit("iam:updateassumerolepolicy");
    }
    assert("iam:"@.is_prefix_of("iam:passrole"@)) by {
        reveal_strlit("iam:passrole");
    }
    assert("iam:"@.is_prefix_of("iam:createpolicyversion"@)) by {
        reveal_strlit("iam:createpolicyversion");
    }
    assert("iam:"@.is_prefix_of("iam:setdefaultpolicyversion"@)) by {
        reveal_strlit("iam:setdefaultpolicyversion");
    }
    assert("iam:"@.is_prefix_of("iam:deleteuserpolicy"@)) by {
        reveal_strlit("iam:deleteuserpolicy");
    }
    assert("iam:"@.is_prefix_of("iam:deleterolepolicy"@)) by {
        reveal_strlit("iam:deleterolepolicy");
    }
}

/// Of actions without wildcards, `iam:*` overlaps those of the IAM service.
proof fn iam_entry_matches(action: Seq<char>)
    requires
        plain(lowercase(action)),
    ensures
        overlap(action, "iam:*"@) <==> "iam:"@.is_prefix_of(lowercase(action)),
{
    reveal_strlit("iam:*");
    reveal_strlit("iam:");
    let entry = "iam:*"@;
    let star = seq!['*'];
    let text = lowercase(action);
    assert(lowercase(entry) =~= "iam:"@ + star);
    plain_prefix("iam:"@, star, text);
    let tail = text.skip(4);
    assert(tail.skip(tail.len() as int) =~= Seq::<char>::empty());
    assert(star.drop_first() =~= Seq::<char>::empty());
    assert(matches_pattern(star.drop_first(), tail.skip(tail.len() as int)));
    assert(matches_pattern(star, tail));
    plain_pattern_is_literal(action, entry);
    if text == lowercase(entry) {
        assert(text[4] == '*');
    }
}

/// An action of a service is read-only exactly if what follows the first `:`, in
/// lowercase, begins with a read-only verb.
pub proof fn read_only_means_a_read_verb(service: Seq<char>, verb: Seq<char>)
    requires
        !service.contains(':'),
    ensures
        is_safe_read(service + seq![':'] + verb) <==> {
            ||| "describe"@.is_prefix_of(lowercase(verb))
            ||| "get"@.is_prefix_of(lowercase(verb))
            ||| "list"@.is_prefix_of(lowercase(verb))
            ||| "view"@.is_prefix_of(lowercase(verb))
            ||| "head"@.is_prefix_of(lowercase(verb))
            ||| "check"@.is_prefix_of(lowercase(verb))
            ||| "lookup"@.is_prefix_of(lowercase(verb))
            ||| "search"@.is_prefix_of(lowercase(verb))
            ||| "query"@.is_prefix_of(lowercase(verb))
        },
{
    verb_of_parts(service, verb);
    read_verbs(service + seq![':'] + verb);
}

/// An action without `:` is read-only exactly if it begins, in lowercase, with a
/// read-only verb.
pub proof fn read_only_without_service(action: Seq<char>)
    requires
        !action.contains(':'),
    ensures
        is_safe_read(action) <==> {
            ||| "describe"@.is_prefix_of(lowercase(action))
            ||| "get"@.is_prefix_of(lowercase(action))
            ||| "list"@.is_prefix_of(lowercase(action))
            ||| "view"@.is_prefix_of(lowercase(action))
            ||| "head"@.is_prefix_of(lowercase(action))
            ||| "check"@.is_prefix_of(lowercase(action))
            ||| "lookup"@.is_prefix_of(lowercase(action))
            ||| "search"@.is_prefix_of(lowercase(action))
            ||| "query"@.is_prefix_of(lowercase(action))
        },
{
    read_verbs(action);
}

proof fn verb_of_parts(service: Seq<char>, verb: Seq<char>)
    requires
        !service.contains(':'),
    ensures
        verb_of(service + seq![':'] + verb) == verb,
{
    let action = service + seq![':'] + verb;
    assert(action[service.len() as int] == ':');
    action.index_of_first_ensures(':');
    let at = action.index_of_first(':')->0;
    if at < service.len() {
        assert(service[at] == ':');
    }
    assert(action.skip(at + 1) =~= verb);
}

proof fn read_verbs(action: Seq<char>)
    ensures
        is_safe_read(action) <==> {
            ||| "describe"@.is_prefix_of(lowercase(verb_of(action)))
            ||| "get"@.is_prefix_of(lowercase(verb_of(action)))
            ||| "list"@.is_prefix_of(lowercase(verb_of(action)))
            ||| "view"@.is_prefix_of(lowercase(verb_of(action)))
            ||| "head"@.is_prefix_of(lowercase(verb_of(action)))
            ||| "check"@.is_prefix_of(lowercase(verb_of(action)))
            ||| "lookup"@.is_prefix_of(lowercase(verb_of(action)))
            ||| "search"@.is_prefix_of(lowercase(verb_of(action)))
            ||| "query"@.is_prefix_of(lowercase(verb_of(action)))
        },
{
    let text = lowercase(verb_of(action));
    assert(SAFE_READ_VERBS@.len() == 9);
    assert(SAFE_READ_VERBS@[0]@ == "describe"@);
    assert(SAFE_READ_VERBS@[1]@ == "get"@);
    assert(SAFE_READ_VERBS@[2]@ == "list"@);
    assert(SAFE_READ_VERBS@[3]@ == "view"@);
    assert(SAFE_READ_VERBS@[4]@ == "head"@);
    assert(SAFE_READ_VERBS@[5]@ == "check"@);
    assert(SAFE_READ_VERBS@[6]@ == "lookup"@);
    assert(SAFE_READ_VERBS@[7]@ == "search"@);
    assert(SAFE_READ_VERBS@[8]@ == "query"@);
}

/// An action whose verb begins with a character that begins no read-only verb,
/// `*` included, is not read-only; nor is one with an empty verb.
pub proof fn other_verbs_are_not_read_only(service: Seq<char>, verb: Seq<char>)
    requires
        !service.contains(':'),
        lowercase(verb).len() == 0 || !seq!['d', 'g', 'l', 'v', 'h', 'c', 's', 'q'].contains(
            lowercase(verb)[0],
        ),
    ensures
        !is_safe_read(service + seq![':'] + verb),
{
    read_only_means_a_read_verb(service, verb);
    let text = lowercase(verb);
    let initials = seq!['d', 'g', 'l', 'v', 'h', 'c', 's', 'q'];
    assert(!"describe"@.is_prefix_of(text)) by {
        reveal_strlit("describe");
        assert("describe"@[0] == initials[0]);
        if "describe"@.is_prefix_of(text) {
            assert(text.subrange(0, "describe"@.len() as int)[0] == text[0]);
        }
    }
    assert(!"get"@.is_prefix_of(text)) by {
        reveal_strlit("get");
        assert("get"@[0] == initials[1]);
        if "get"@.is_prefix_of(text) {
            assert(text.subrange(0, "get"@.len() as int)[0] == text[0]);
        }
    }
    assert(!"list"@.is_prefix_of(text)) by {
        reveal_strlit("list");
        assert("list"@[0] == initials[2]);
        if "list"@.is_prefix_of(text) {
            assert(text.subrange(0, "list"@.len() as int)[0] == text[0]);
        }
    }
    assert(!"view"@.is_prefix_of(text)) by {
        reveal_strlit("view");
        assert("view"@[0] == initials[3]);
        if "view"@.is_prefix_of(text) {
            assert(text.subrange(0, "view"@.len() as int)[0] == text[0]);
        }
    }
    assert(!"head"@.is_prefix_of(text)) by {
        reveal_strlit("head");
        assert("head"@[0] == initials[4]);
        if "head"@.is_prefix_of(text) {
            assert(text.subrange(0, "head"@.len() as int)[0] == text[0]);
        }
    }
    assert(!"check"@.is_prefix_of(text)) by {
        reveal_strlit("check");
        assert("check"@[0] == initials[5]);
        if "check"@.is_prefix_of(text) {
            assert(text.subrange(0, "check"@.len() as int)[0] == text[0]);
        }
    }
    assert(!"lookup"@.is_prefix_of(text)) by {
        reveal_strlit("lookup");
        assert("lookup"@[0] == initials[2]);
        if "lookup"@.is_prefix_of(text) {
            assert(text.subrange(0, "lookup"@.len() as int)[0] == text[0]);
        }
    }
    assert(!"search"@.is_prefix_of(text)) by {
        reveal_strlit("search");
        assert("search"@[0] == initials[6]);
        if "search"@.is_prefix_of(text) {
            assert(text.subrange(0, "search"@.len() as int)[0] == text[0]);
        }
    }
    assert(!"query"@.is_prefix_of(text)) by {
        reveal_strlit("query");
        assert("query"@[0] == initials[7]);
        if "query"@.is_prefix_of(text) {
            assert(text.subrange(0, "query"@.len() as int)[0] == text[0]);
        }
    }
}

} // verus!
