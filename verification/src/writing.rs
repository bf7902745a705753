//! What the written report and the messages say.
#![allow(unused_imports)]

use crate::findings::{blocking, rank, severity_name, FindingView, Severity};
use crate::laws::summary_counts_every_finding;
use crate::outcomes::{filter_joined, filter_one};
use crate::policy::StatementView;
use crate::report::{count, entries_text, entry_text, report_text, summary_text};
use crate::rules::findings_on;
use crate::text::{decimal, digit, joined_quoted, list_form, quoted};
use core::cmp::Ordering;
use vstd::prelude::*;
use vstd::std_specs::cmp::PartialOrdSpec;

verus! {

/// The number that some decimal digits stand for.
pub open spec fn number_of(digits: Seq<char>) -> int
    decreases digits.len(),
{
    if digits.len() == 0 {
        0
    } else {
        10 * number_of(digits.drop_last()) + (digits.last() as int - '0' as int)
    }
}

/// A number below ten is written with its digit.
proof fn digit_is_a_digit(d: nat)
    requires
        d < 10,
    ensures
        digit(d).len() == 1,
        digit(d)[0] as int == '0' as int + d,
{
    reveal_strlit("0");
    reveal_strlit("1");
    reveal_strlit("2");
    reveal_strlit("3");
    reveal_strlit("4");
    reveal_strlit("5");
    reveal_strlit("6");
    reveal_strlit("7");
    reveal_strlit("8");
    reveal_strlit("9");
}

/// A number is written with decimal digits alone, at least one and without a leading
/// zero, that stand for the number.
pub proof fn decimal_stands_for_the_number(n: nat)
    ensures
        number_of(decimal(n)) == n,
        decimal(n).len() > 0,
        forall|i: int| 0 <= i < decimal(n).len() ==> '0' <= #[trigger] decimal(n)[i] <= '9',
        decimal(n).len() > 1 ==> decimal(n)[0] != '0',
    decreases n,
{
    if n < 10 {
        digit_is_a_digit(n);
        reveal_with_fuel(number_of, 2);
    } else {
        let head = decimal(n / 10);
        decimal_stands_for_the_number(n / 10);
        digit_is_a_digit(n % 10);
        let all = decimal(n);
        assert(all.drop_last() =~= head);
        assert(all.last() == digit(n % 10)[0]);
        assert(head[0] == all[0]);
        if head.len() == 1 && head[0] == '0' {
            reveal_with_fuel(number_of, 2);
            assert(head.drop_last() =~= Seq::<char>::empty());
        }
        assert forall|i: int| 0 <= i < all.len() implies '0' <= #[trigger] all[i] <= '9' by {
            if i < head.len() {
                assert(all[i] == head[i]);
            }
        }
    }
}

/// The number of findings of a severity adds up over joined lists; a single finding
/// counts for its own severity and for no other.
pub proof fn counts_add_over_joined_lists(
    a: Seq<FindingView>,
    b: Seq<FindingView>,
    f: FindingView,
    severity: Severity,
)
    ensures
        count(a + b, severity) == count(a, severity) + count(b, severity),
        count(seq![f], severity) == if f.severity == severity {
            1nat
        } else {
            0nat
        },
        count(Seq::empty(), severity) == 0,
{
    let p = |g: FindingView| g.severity == severity;
    filter_joined(a, b, p);
    filter_one(f, p);
    reveal(Seq::filter);
}

/// The last line of the report gives, under each severity, how many findings have
/// that severity.
pub proof fn summary_names_the_counts(findings: Seq<FindingView>)
    ensures
        summary_text(findings) == decimal(
            findings.filter(|f: FindingView| f.severity == Severity::Critical).len(),
        ) + " critical, "@ + decimal(
            findings.filter(|f: FindingView| f.severity == Severity::High).len(),
        ) + " high, "@ + decimal(
            findings.filter(|f: FindingView| f.severity == Severity::Medium).len(),
        ) + " medium\n"@,
{
}

/// The three numbers in the last line of a report on a policy add up to the number of
/// findings on it.
pub proof fn summary_numbers_add_up(statements: Seq<StatementView>)
    ensures
        exists|c: nat, h: nat, m: nat|
            summary_text(findings_on(statements)) == #[trigger] decimal(c) + " critical, "@
                + #[trigger] decimal(h) + " high, "@ + #[trigger] decimal(m) + " medium\n"@ && c + h
                + m == findings_on(statements).len() && c == findings_on(statements).filter(
                |f: FindingView| f.severity == Severity::Critical,
            ).len() && h == findings_on(statements).filter(
                |f: FindingView| f.severity == Severity::High,
            ).len(),
{
    let all = findings_on(statements);
    summary_counts_every_finding(statements);
    summary_names_the_counts(all);
    let c = count(all, Severity::Critical);
    let h = count(all, Severity::High);
    let m = count(all, Severity::Medium);
    assert(summary_text(all) == decimal(c) + " critical, "@ + decimal(h) + " high, "@ + decimal(m)
        + " medium\n"@);
}

/// One more high finding raises the number of high findings in the last line by one
/// and leaves the others as they are; so do critical and medium ones.
pub proof fn summary_follows_each_finding(findings: Seq<FindingView>, f: FindingView)
    ensures
        ({
            let c = findings.filter(|g: FindingView| g.severity == Severity::Critical).len();
            let h = findings.filter(|g: FindingView| g.severity == Severity::High).len();
            let m = findings.filter(|g: FindingView| g.severity == Severity::Medium).len();
            &&& f.severity == Severity::Critical ==> summary_text(findings.push(f)) == decimal(
                c + 1,
            ) + " critical, "@ + decimal(h) + " high, "@ + decimal(m) + " medium\n"@
            &&& f.severity == Severity::High ==> summary_text(findings.push(f)) == decimal(c)
                + " critical, "@ + decimal(h + 1) + " high, "@ + decimal(m) + " medium\n"@
            &&& f.severity == Severity::Medium ==> summary_text(findings.push(f)) == decimal(c)
                + " critical, "@ + decimal(h) + " high, "@ + decimal(m + 1) + " medium\n"@
            &&& f.severity == Severity::Low ==> summary_text(findings.push(f)) == summary_text(
                findings,
            )
        }),
{
    assert(findings.push(f) =~= findings + seq![f]);
    counts_add_over_joined_lists(findings, seq![f], f, Severity::Critical);
    counts_add_over_joined_lists(findings, seq![f], f, Severity::High);
    counts_add_over_joined_lists(findings, seq![f], f, Severity::Medium);
    summary_names_the_counts(findings);
    summary_names_the_counts(findings.push(f));
}

/// The name of each severity.
pub proof fn severity_names_are(s: Severity)
    ensures
        s == Severity::Low ==> severity_name(s) == "LOW"@,
        s == Severity::Medium ==> severity_name(s) == "MEDIUM"@,
        s == Severity::High ==> severity_name(s) == "HIGH"@,
        s == Severity::Critical ==> severity_name(s) == "CRITICAL"@,
{
}

/// The entry of a finding shows its severity, statement, `Sid`, rule and message.
pub proof fn entry_shows_every_field(f: FindingView)
    ensures
        f.sid is Some ==> entry_text(f) == "["@ + severity_name(f.severity) + "] statement #"@
            + decimal(f.statement_index as nat) + " ("@ + f.sid->0 + ") — "@ + f.rule + "\n    "@
            + f.message + "\n\n"@,
        f.sid is None ==> entry_text(f) == "["@ + severity_name(f.severity) + "] statement #"@
            + decimal(f.statement_index as nat) + " ("@ + "(no Sid)"@ + ") — "@ + f.rule
            + "\n    "@ + f.message + "\n\n"@,
{
}

/// The entries of joined lists of findings are joined, and each finding has its own.
pub proof fn entries_are_joined(a: Seq<FindingView>, b: Seq<FindingView>, f: FindingView)
    ensures
        entries_text(a + b) == entries_text(a) + entries_text(b),
        entries_text(seq![f]) == entry_text(f),
        entries_text(Seq::empty()) == Seq::<char>::empty(),
    decreases b.len(),
{
    reveal_with_fuel(entries_text, 2);
    assert(seq![f].drop_last() =~= Seq::<FindingView>::empty());
    assert(seq![f].last() == f);
    assert(entries_text(seq![f]) =~= entry_text(f));
    if b.len() == 0 {
        assert(a + b =~= a);
        assert(entries_text(a + b) =~= entries_text(a) + entries_text(b));
    } else {
        entries_are_joined(a, b.drop_last(), f);
        assert((a + b).drop_last() =~= a + b.drop_last());
        assert(entries_text(a + b) =~= entries_text(a) + entries_text(b));
    }
}

/// A report names its source and the numbers of findings and statements; it then
/// holds the entry of each finding, in order, and the counts. Without findings it is
/// one line.
pub proof fn report_holds_every_entry(
    source: Seq<char>,
    findings: Seq<FindingView>,
    statements: nat,
)
    ensures
        findings.len() == 0 ==> report_text(source, findings, statements) == source
            + ": no findings — "@ + decimal(statements) + " statement(s) checked\n"@,
        findings.len() > 0 ==> report_text(source, findings, statements) == source + ": "@
            + decimal(findings.len()) + " finding(s) across "@ + decimal(statements)
            + " statement(s)\n\n"@ + entries_text(findings) + summary_text(findings),
{
}

/// The severities are ordered from low to critical.
pub proof fn severities_are_ordered(a: Severity, b: Severity)
    ensures
        rank(Severity::Low) < rank(Severity::Medium) < rank(Severity::High) < rank(
            Severity::Critical,
        ),
        rank(a) == rank(b) <==> a == b,
        a.partial_cmp_spec(&b) == Some(Ordering::Less) <==> rank(a) < rank(b),
        a.partial_cmp_spec(&b) == Some(Ordering::Equal) <==> a == b,
        a.partial_cmp_spec(&b) == Some(Ordering::Greater) <==> rank(a) > rank(b),
{
}

/// A single finding blocks a run exactly if it is high or critical; no finding does
/// not.
pub proof fn one_finding_blocks(f: FindingView)
    ensures
        blocking(seq![f]) <==> f.severity == Severity::High || f.severity == Severity::Critical,
        !blocking(Seq::empty()),
{
    assert(seq![f][0] == f);
}

/// A list of one text without characters to escape is that text in double quotes and
/// square brackets; the empty list is a pair of brackets.
pub proof fn list_of_one(t: Seq<char>)
    requires
        forall|i: int|
            0 <= i < t.len() ==> ' ' <= #[trigger] t[i] <= '~' && t[i] != '"' && t[i] != '\\',
    ensures
        list_form(seq![t]) == "[\""@ + t + "\"]"@,
        list_form(Seq::empty()) == "[]"@,
{
    reveal_strlit("[");
    reveal_strlit("]");
    reveal_strlit("\"");
    reveal_strlit("[\"");
    reveal_strlit("\"]");
    reveal_strlit("[]");
    assert(quoted(t) == "\""@ + t + "\""@);
    assert(list_form(seq![t]) =~= "[\""@ + t + "\"]"@);
    assert(list_form(Seq::empty()) =~= "[]"@);
}

/// The list form of two joined lists is that of the first without its closing
/// bracket, a comma and a space, and that of the second without its opening bracket.
pub proof fn lists_are_joined(a: Seq<Seq<char>>, b: Seq<Seq<char>>)
    requires
        a.len() > 0,
        b.len() > 0,
    ensures
        list_form(a + b) == list_form(a).drop_last() + ", "@ + list_form(b).drop_first(),
{
    reveal_strlit("[");
    reveal_strlit("]");
    joined_quoted_splits(a, b);
    assert(list_form(a).drop_last() =~= "["@ + joined_quoted(a));
    assert(list_form(b).drop_first() =~= joined_quoted(b) + "]"@);
    assert(list_form(a + b) =~= list_form(a).drop_last() + ", "@ + list_form(b).drop_first());
}

proof fn joined_quoted_splits(a: Seq<Seq<char>>, b: Seq<Seq<char>>)
    requires
        a.len() > 0,
        b.len() > 0,
    ensures
        joined_quoted(a + b) == joined_quoted(a) + ", "@ + joined_quoted(b),
    decreases b.len(),
{
    let all = a + b;
    assert(all.last() == b.last());
    if b.len() == 1 {
        assert(all.drop_last() =~= a);
    } else {
        joined_quoted_splits(a, b.drop_last());
        assert(all.drop_last() =~= a + b.drop_last());
        assert(joined_quoted(all) =~= joined_quoted(a) + ", "@ + joined_quoted(b));
    }
}

} // verus!
