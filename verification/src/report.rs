//! The human-readable report.
#[allow(unused_imports)]
use crate::findings::{blocking, finding_views, severity_name, FindingView};
use crate::findings::{has_blocking_findings, Finding, Severity};
use crate::policy::parse_policy;
#[allow(unused_imports)]
use crate::policy::{policy_of_text, PolicyView};
#[allow(unused_imports)]
use crate::rules::findings_on;
use crate::rules::lint;
use crate::text::decimal_string;
#[allow(unused_imports)]
use crate::text::decimal;
use vstd::prelude::*;

verus! {

/// How many findings have the given severity.
pub open spec fn count(findings: Seq<FindingView>, severity: Severity) -> nat {
    findings.filter(|f: FindingView| f.severity == severity).len()
}

/// The lines of the report for one finding, with an empty line after them.
pub open spec fn entry_text(f: FindingView) -> Seq<char> {
    "["@ + severity_name(f.severity) + "] statement #"@ + decimal(f.statement_index as nat) + " ("@
        + sid_text(f.sid) + ") — "@ + f.rule + "\n    "@ + f.message + "\n\n"@
}

/// How the report names the statement of a finding.
pub open spec fn sid_text(sid: Option<Seq<char>>) -> Seq<char> {
    match sid {
        Some(sid) => sid,
        None => "(no Sid)"@,
    }
}

/// The entries for some findings, in their order.
pub open spec fn entries_text(findings: Seq<FindingView>) -> Seq<char>
    decreases findings.len(),
{
    if findings.len() == 0 {
        Seq::empty()
    } else {
        entries_text(findings.drop_last()) + entry_text(findings.last())
    }
}

/// The last line of the report: how many findings of each severity there are.
pub open spec fn summary_text(findings: Seq<FindingView>) -> Seq<char> {
    decimal(count(findings, Severity::Critical)) + " critical, "@ + decimal(
        count(findings, Severity::High),
    ) + " high, "@ + decimal(count(findings, Severity::Medium)) + " medium\n"@
}

/// The report on a policy of the given number of statements.
pub open spec fn report_text(
    source: Seq<char>,
    findings: Seq<FindingView>,
    statements: nat,
) -> Seq<char> {
    if findings.len() == 0 {
        source + ": no findings — "@ + decimal(statements) + " statement(s) checked\n"@
    } else {
        source + ": "@ + decimal(findings.len()) + " finding(s) across "@ + decimal(statements)
            + " statement(s)\n\n"@ + entries_text(findings) + summary_text(findings)
    }
}

/// Counts the findings of a severity.
pub fn count_findings(findings: &[Finding], severity: Severity) -> (r: usize)
    ensures
        r == count(finding_views(findings@), severity),
{
    let ghost all = finding_views(findings@);
    let ghost wanted = |f: FindingView| f.severity == severity;
    let mut n: usize = 0;
    proof {
        reveal(Seq::filter);
        assert(all.take(0).filter(wanted).len() == 0);
    }
    for i in 0..findings.len()
        invariant
            all == finding_views(findings@),
            wanted == (|f: FindingView| f.severity == severity),
            n == all.take(i as int).filter(wanted).len(),
            n <= i,
    {
        proof {
            reveal(Seq::filter);
            assert(all.take(i + 1).drop_last() =~= all.take(i as int));
            assert(all[i as int] == findings@[i as int]@);
        }
        if findings[i].severity == severity {
            n += 1;
        }
    }
    assert(all.take(all.len() as int) =~= all);
    n
}

/// Writes the lines for one finding.
fn append_entry(out: &mut String, f: &Finding)
    ensures
        final(out)@ == old(out)@ + entry_text(f@),
{
    let ghost before = out@;
    out.append("[");
    out.append(f.severity.to_string().as_str());
    out.append("] statement #");
    out.append(decimal_string(f.statement_index).as_str());
    out.append(" (");
    match &f.sid {
        Some(sid) => out.append(sid.as_str()),
        None => out.append("(no Sid)"),
    }
    out.append(") — ");
    out.append(f.rule);
    out.append("\n    ");
    out.append(f.message.as_str());
    out.append("\n\n");
    assert(out@ =~= before + entry_text(f@));
}

/// Writes the last line of the report.
fn append_summary(out: &mut String, findings: &[Finding])
    ensures
        final(out)@ == old(out)@ + summary_text(finding_views(findings@)),
{
    let ghost before = out@;
    out.append(decimal_string(count_findings(findings, Severity::Critical)).as_str());
    out.append(" critical, ");
    out.append(decimal_string(count_findings(findings, Severity::High)).as_str());
    out.append(" high, ");
    out.append(decimal_string(count_findings(findings, Severity::Medium)).as_str());
    out.append(" medium\n");
    assert(out@ =~= before + summary_text(finding_views(findings@)));
}

/// Writes the report on the policy document that `source` names.
pub fn render_report(source: &str, findings: &[Finding], statements: usize) -> (r: String)
    ensures
        r@ == report_text(source@, finding_views(findings@), statements as nat),
{
    let ghost all = finding_views(findings@);
    let mut out = source.to_owned();
    if findings.len() == 0 {
        out.append(": no findings — ");
        out.append(decimal_string(statements).as_str());
        out.append(" statement(s) checked\n");
        return out;
    }
    out.append(": ");
    out.append(decimal_string(findings.len()).as_str());
    out.append(" finding(s) across ");
    out.append(decimal_string(statements).as_str());
    out.append(" statement(s)\n\n");
    let ghost head = out@;
    assert(out@ =~= head + entries_text(all.take(0)));
    for i in 0..findings.len()
        invariant
            all == finding_views(findings@),
            out@ == head + entries_text(all.take(i as int)),
    {
        assert(all.take(i + 1).drop_last() =~= all.take(i as int));
        assert(all[i as int] == findings@[i as int]@);
        append_entry(&mut out, &findings[i]);
        assert(out@ =~= head + entries_text(all.take(i + 1)));
    }
    assert(all.take(all.len() as int) =~= all);
    append_summary(&mut out, findings);
    out
}

/// What a run on a document comes to: the report and whether the run fails, or the
/// message for a document that is no policy.
pub fn report_on(source: &str, content: &str) -> (r: Result<(String, bool), String>)
    ensures
        match r {
            Ok((report, failed)) => {
                &&& policy_of_text(content@) is Ok
                &&& report@ == report_text(
                    source@,
                    findings_on(policy_of_text(content@)->Ok_0.statements),
                    policy_of_text(content@)->Ok_0.statements.len(),
                )
                &&& failed == blocking(findings_on(policy_of_text(content@)->Ok_0.statements))
            },
            Err(message) => policy_of_text(content@) == Err::<PolicyView, Seq<char>>(message@),
        },
{
    match parse_policy(content) {
        Ok(policy) => {
            let findings = lint(&policy);
            let report = render_report(source, findings.as_slice(), policy.statements.len());
            Ok((report, has_blocking_findings(findings.as_slice())))
        },
        Err(message) => Err(message),
    }
}

} // verus!
