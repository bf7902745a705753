use iamlint::glob::{actions_overlap, glob_match, match_characters};

fn characters(s: &str) -> Vec<char> {
    s.chars().collect()
}

#[test]
fn star_matches_any_text() {
    assert!(glob_match("*", ""));
    assert!(glob_match("*", "iam:CreateUser"));
    assert!(glob_match("**", "x"));
}

#[test]
fn star_in_the_text_is_an_ordinary_character() {
    assert!(glob_match("*", "*a"));
    assert!(glob_match("iam:*", "iam:*User"));
    assert!(glob_match("*b", "*ab"));
    assert!(!glob_match("a", "*"));
}

#[test]
fn question_mark_matches_exactly_one_character() {
    assert!(glob_match("???", "abc"));
    assert!(!glob_match("???", "ab"));
    assert!(!glob_match("???", "abcd"));
    assert!(!glob_match("?", ""));
}

#[test]
fn the_scan_goes_back_to_the_last_star() {
    assert!(glob_match("a*bc", "abbbc"));
    assert!(glob_match("*ab*ab", "abxabab"));
    assert!(!glob_match("*ab*ab", "abx"));
    assert!(!glob_match("a*b", "a"));
    assert!(glob_match("a*?c", "abbc"));
}

#[test]
fn a_pattern_without_wildcards_is_literal() {
    assert!(glob_match("s3:GetObject", "S3:getobject"));
    assert!(!glob_match("s3:GetObject", "s3:GetObjectAcl"));
    assert!(!glob_match("s3:GetObject", "s3:GetObjec"));
    assert!(glob_match("", ""));
    assert!(!glob_match("", "a"));
}

#[test]
fn every_pattern_matches_itself() {
    for pattern in ["", "*", "iam:*", "s3:Get?bject", "a*b?c*"] {
        assert!(glob_match(pattern, pattern));
    }
}

#[test]
fn letters_outside_ascii_are_folded_too() {
    assert!(glob_match("É*", "éclair"));
    assert!(glob_match("??", "İ"), "the lowercase form has two characters");
    assert!(!glob_match("?", "İ"));
}

#[test]
fn characters_are_matched_as_they_are() {
    assert!(match_characters(&characters("a?*"), &characters("abc")));
    assert!(!match_characters(&characters("A"), &characters("a")));
}

#[test]
fn overlap_goes_both_ways() {
    assert!(actions_overlap("iam:*", "iam:PassRole"));
    assert!(actions_overlap("iam:PassRole", "iam:*"));
    assert!(!actions_overlap("iam:C*", "iam:*User"));
    assert!(!actions_overlap("s3:GetObject", "iam:*"));
}

#[test]
fn ascii_case_never_changes_a_match() {
    let texts = ["iam:CreateUser", "IAM:*", "ΑΣ", "aΣ", "aΣb", "Éa?B", "ßX*", "\u{212a}k", ""];
    for pattern in texts {
        for text in texts {
            let plain = glob_match(pattern, text);
            let (pu, pl) = (pattern.to_ascii_uppercase(), pattern.to_ascii_lowercase());
            let (tu, tl) = (text.to_ascii_uppercase(), text.to_ascii_lowercase());
            assert_eq!(glob_match(&pu, &tl), plain, "{pattern} {text}");
            assert_eq!(glob_match(&pl, &tu), plain, "{pattern} {text}");
            assert_eq!(glob_match(&pu, &tu), plain, "{pattern} {text}");
            assert_eq!(glob_match(&pl, &tl), plain, "{pattern} {text}");
        }
    }
    assert!(glob_match("AΣ", "aς"));
    assert!(glob_match("aΣB", "Aσb"));
}
