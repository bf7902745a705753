//! Text helpers: views of strings, case folding, and the pieces of text that
//! messages are built from.
use vstd::prelude::*;

verus! {

/// The contents of a list of strings.
pub open spec fn texts(items: Seq<String>) -> Seq<Seq<char>> {
    items.map_values(|s: String| s@)
}

/// The contents of an optional string.
pub open spec fn optional_text(item: Option<String>) -> Option<Seq<char>> {
    match item {
        Some(s) => Some(s@),
        None => None,
    }
}

/// Whether every character is an ASCII character.
pub open spec fn is_ascii_text(s: Seq<char>) -> bool {
    forall|i: int| 0 <= i < s.len() ==> #[trigger] s[i] < '\u{80}'
}

/// A character with `A` to `Z` mapped to `a` to `z` and all others kept.
pub open spec fn ascii_lower(c: char) -> char {
    if 'A' <= c <= 'Z' {
        (c as u32 + 32) as char
    } else {
        c
    }
}

/// [`ascii_lower`] on each character.
pub open spec fn ascii_lowercase(s: Seq<char>) -> Seq<char> {
    s.map_values(|c: char| ascii_lower(c))
}

/// A character with `a` to `z` mapped to `A` to `Z` and all others kept.
pub open spec fn ascii_upper(c: char) -> char {
    if 'a' <= c <= 'z' {
        (c as u32 - 32) as char
    } else {
        c
    }
}

/// [`ascii_upper`] on each character.
pub open spec fn ascii_uppercase(s: Seq<char>) -> Seq<char> {
    s.map_values(|c: char| ascii_upper(c))
}

/// What `str::to_lowercase` returns on a text with a character outside ASCII and
/// without the letters `A` to `Z`.
pub uninterp spec fn unicode_lowercase(s: Seq<char>) -> Seq<char>;

/// The lowercase form of a text.
pub open spec fn lowercase(s: Seq<char>) -> Seq<char> {
    if is_ascii_text(s) {
        ascii_lowercase(s)
    } else {
        unicode_lowercase(ascii_lowercase(s))
    }
}

/// `str::to_lowercase`. On ASCII text it maps the letters `A` to `Z` to `a` to
/// `z` and keeps the rest. On other text the result is given by the Unicode case
/// mappings and is a function of the text alone. It does not depend on the case
/// of ASCII letters: `A` to `Z` are mapped in the same way there, and the one
/// mapping that looks at its neighbours, that of the capital sigma, asks only
/// whether they are letters with case.
pub assume_specification[ str::to_lowercase ](s: &str) -> (r: String)
    ensures
        is_ascii_text(s@) ==> r@ == ascii_lowercase(s@),
        !is_ascii_text(s@) ==> r@ == unicode_lowercase(ascii_lowercase(s@)),
;

/// `str::split_once` with a `char` delimiter: it splits at the first occurrence
/// of the delimiter, which belongs to neither part.
#[verifier::external_body]
pub(crate) fn split_once(s: &str, delimiter: char) -> (r: Option<(&str, &str)>)
    ensures
        r is None <==> !s@.contains(delimiter),
        r matches Some((head, tail)) ==> s@ == head@ + seq![delimiter] + tail@ && !head@.contains(
            delimiter,
        ),
{
    s.split_once(delimiter)
}

/// Whether a text needs no escapes in double quotes: every character is printable
/// ASCII other than the double quote and the backslash.
pub open spec fn needs_no_escape(s: Seq<char>) -> bool {
    forall|i: int|
        0 <= i < s.len() ==> ' ' <= #[trigger] s[i] <= '~' && s[i] != '"' && s[i] != '\\'
}

/// What the `Debug` form of a string is that has a character to escape or one
/// outside ASCII: the text in double quotes, with some characters escaped.
pub uninterp spec fn debug_form(s: Seq<char>) -> Seq<char>;

/// A text in double quotes, with escapes where it needs them.
pub open spec fn quoted(s: Seq<char>) -> Seq<char> {
    if needs_no_escape(s) {
        "\""@ + s + "\""@
    } else {
        debug_form(s)
    }
}

/// The `Debug` form of a `str`. Printable ASCII other than the double quote and
/// the backslash stands unchanged between double quotes. Of other text the form
/// is a function of the text alone; which characters are escaped, and how, is not
/// stated.
#[verifier::external_body]
fn debug_string(s: &str) -> (r: String)
    ensures
        needs_no_escape(s@) ==> r@ == "\""@ + s@ + "\""@,
        !needs_no_escape(s@) ==> r@ == debug_form(s@),
{
    format!("{:?}", s)
}

/// The characters of a string.
pub(crate) fn characters(s: &str) -> (r: Vec<char>)
    ensures
        r@ == s@,
{
    let mut out: Vec<char> = Vec::new();
    for c in it: s.chars()
        invariant
            out@ == it.seq().take(it.index() as int),
            it.seq() == s@,
    {
        out.push(c);
    }
    out
}

/// Whether two strings hold the same text.
pub(crate) fn same_text(a: &str, b: &str) -> (r: bool)
    ensures
        r == (a@ == b@),
{
    a.to_owned() == b.to_owned()
}

/// The code of a character with `A` to `Z` mapped to `a` to `z`.
fn ascii_lower_code(c: char) -> (r: u32)
    ensures
        r == ascii_lower(c) as u32,
{
    if 'A' <= c && c <= 'Z' {
        c as u32 + 32
    } else {
        c as u32
    }
}

/// Whether two strings hold the same text but for the case of ASCII letters.
pub(crate) fn eq_ignore_ascii_case(a: &str, b: &str) -> (r: bool)
    ensures
        r == (ascii_lowercase(a@) == ascii_lowercase(b@)),
{
    let left = characters(a);
    let right = characters(b);
    let ghost la = ascii_lowercase(a@);
    let ghost lb = ascii_lowercase(b@);
    if left.len() != right.len() {
        assert(la.len() != lb.len());
        return false;
    }
    for i in 0..left.len()
        invariant
            left@ == a@,
            right@ == b@,
            left@.len() == right@.len(),
            la == ascii_lowercase(a@),
            lb == ascii_lowercase(b@),
            forall|k: int| 0 <= k < i ==> la[k] == lb[k],
    {
        assert(la[i as int] == ascii_lower(left@[i as int]));
        assert(lb[i as int] == ascii_lower(right@[i as int]));
        if ascii_lower_code(left[i]) != ascii_lower_code(right[i]) {
            return false;
        }
    }
    assert(la =~= lb);
    true
}

/// Texts that differ only in the case of ASCII letters have the same lowercase
/// form.
pub proof fn ascii_case_folds(s: Seq<char>, t: Seq<char>)
    requires
        ascii_lowercase(s) == ascii_lowercase(t),
    ensures
        lowercase(s) == lowercase(t),
{
    let ls = ascii_lowercase(s);
    let lt = ascii_lowercase(t);
    assert(s.len() == ls.len() == lt.len() == t.len());
    assert forall|i: int| 0 <= i < s.len() implies (s[i] < '\u{80}') == (t[i] < '\u{80}') by {
        assert(ls[i] == ascii_lower(s[i]));
        assert(lt[i] == ascii_lower(t[i]));
    }
}

/// A text in ASCII capitals or in ASCII lowercase letters differs from the text
/// only in the case of ASCII letters.
pub proof fn ascii_case_changes_fold(s: Seq<char>)
    ensures
        ascii_lowercase(ascii_uppercase(s)) == ascii_lowercase(s),
        ascii_lowercase(ascii_lowercase(s)) == ascii_lowercase(s),
{
    assert(ascii_lowercase(ascii_uppercase(s)) =~= ascii_lowercase(s));
    assert(ascii_lowercase(ascii_lowercase(s)) =~= ascii_lowercase(s));
}

/// Whether a list of strings holds the given text.
pub(crate) fn contains_text(items: &Vec<String>, wanted: &str) -> (r: bool)
    ensures
        r == texts(items@).contains(wanted@),
{
    let ghost all = texts(items@);
    for i in 0..items.len()
        invariant
            all == texts(items@),
            forall|k: int| 0 <= k < i ==> all[k] != wanted@,
    {
        assert(all[i as int] == items@[i as int]@);
        if same_text(items[i].as_str(), wanted) {
            return true;
        }
    }
    false
}

/// Whether a string begins with another.
pub(crate) fn starts_with(s: &str, prefix: &str) -> (r: bool)
    ensures
        r == prefix@.is_prefix_of(s@),
{
    let text = characters(s);
    let start = characters(prefix);
    if start.len() > text.len() {
        return false;
    }
    for i in 0..start.len()
        invariant
            text@ == s@,
            start@ == prefix@,
            start@.len() <= text@.len(),
            forall|k: int| 0 <= k < i ==> start@[k] == text@[k],
    {
        assert(s@.subrange(0, prefix@.len() as int)[i as int] == text@[i as int]);
        if start[i] != text[i] {
            return false;
        }
    }
    assert(prefix@ =~= s@.subrange(0, prefix@.len() as int));
    true
}

/// A copy of an optional string.
pub(crate) fn copy_optional(item: &Option<String>) -> (r: Option<String>)
    ensures
        optional_text(r) == optional_text(*item),
{
    match item {
        Some(s) => Some(s.clone()),
        None => None,
    }
}

/// A copy of a list of strings.
pub(crate) fn copy_texts(items: &Vec<String>) -> (r: Vec<String>)
    ensures
        texts(r@) == texts(items@),
{
    let mut out: Vec<String> = Vec::new();
    for i in 0..items.len()
        invariant
            out@ == items@.take(i as int),
    {
        out.push(items[i].clone());
    }
    assert(items@.take(items@.len() as int) =~= items@);
    out
}

/// The decimal digit of a number below ten.
pub open spec fn digit(d: nat) -> Seq<char> {
    if d == 0 {
        "0"@
    } else if d == 1 {
        "1"@
    } else if d == 2 {
        "2"@
    } else if d == 3 {
        "3"@
    } else if d == 4 {
        "4"@
    } else if d == 5 {
        "5"@
    } else if d == 6 {
        "6"@
    } else if d == 7 {
        "7"@
    } else if d == 8 {
        "8"@
    } else {
        "9"@
    }
}

/// The decimal notation of a number, without leading zeros.
pub open spec fn decimal(n: nat) -> Seq<char>
    decreases n,
{
    if n < 10 {
        digit(n)
    } else {
        decimal(n / 10) + digit(n % 10)
    }
}

/// The digit of a number below ten.
fn digit_str(d: usize) -> (r: &'static str)
    requires
        d < 10,
    ensures
        r@ == digit(d as nat),
{
    match d {
        0 => "0",
        1 => "1",
        2 => "2",
        3 => "3",
        4 => "4",
        5 => "5",
        6 => "6",
        7 => "7",
        8 => "8",
        _ => "9",
    }
}

/// Writes a number in decimal notation.
pub(crate) fn decimal_string(n: usize) -> (r: String)
    ensures
        r@ == decimal(n as nat),
    decreases n,
{
    if n < 10 {
        digit_str(n).to_owned()
    } else {
        let mut r = decimal_string(n / 10);
        r.append(digit_str(n % 10));
        r
    }
}

/// Some texts in quotes, with a comma and a space between them.
pub open spec fn joined_quoted(items: Seq<Seq<char>>) -> Seq<char>
    decreases items.len(),
{
    if items.len() == 0 {
        Seq::empty()
    } else if items.len() == 1 {
        quoted(items[0])
    } else {
        joined_quoted(items.drop_last()) + ", "@ + quoted(items.last())
    }
}

/// The `Debug` form of a list of texts.
pub open spec fn list_form(items: Seq<Seq<char>>) -> Seq<char> {
    "["@ + joined_quoted(items) + "]"@
}

/// Writes the `Debug` form of a list of strings.
pub(crate) fn list_string(items: &Vec<String>) -> (r: String)
    ensures
        r@ == list_form(texts(items@)),
{
    let ghost all = texts(items@);
    let mut r = "[".to_owned();
    assert(r@ =~= "["@ + joined_quoted(all.take(0)));
    for i in 0..items.len()
        invariant
            all == texts(items@),
            r@ == "["@ + joined_quoted(all.take(i as int)),
    {
        let ghost before = all.take(i as int);
        let ghost after = all.take(i + 1);
        assert(after.drop_last() =~= before);
        assert(after.last() == items@[i as int]@);
        if i > 0 {
            r.append(", ");
        }
        let item = debug_string(items[i].as_str());
        r.append(item.as_str());
        assert(r@ =~= "["@ + joined_quoted(after));
    }
    assert(all.take(all.len() as int) =~= all);
    r.append("]");
    r
}

} // verus!
