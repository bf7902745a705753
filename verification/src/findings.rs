//! Findings and how severe they are.
use crate::text::copy_optional;
#[allow(unused_imports)]
use crate::text::optional_text;
use core::cmp::Ordering;
use vstd::prelude::*;

verus! {

/// How severe a finding is, from the least to the most.
#[derive(Debug, Clone, Copy, PartialEq, Eq, Ord, Structural)]
pub enum Severity {
    Low,
    Medium,
    High,
    Critical,
}

/// The place of a severity in the order, from zero.
pub open spec fn rank(s: Severity) -> int {
    match s {
        Severity::Low => 0,
        Severity::Medium => 1,
        Severity::High => 2,
        Severity::Critical => 3,
    }
}

impl Severity {
    /// The place of the severity in the order, from zero.
    fn place(&self) -> (r: u8)
        ensures
            r == rank(*self),
    {
        match self {
            Severity::Low => 0,
            Severity::Medium => 1,
            Severity::High => 2,
            Severity::Critical => 3,
        }
    }

    /// The name of the severity in capitals.
    pub fn to_string(&self) -> (r: String)
        ensures
            r@ == severity_name(*self),
    {
        match self {
            Severity::Low => "LOW".to_owned(),
            Severity::Medium => "MEDIUM".to_owned(),
            Severity::High => "HIGH".to_owned(),
            Severity::Critical => "CRITICAL".to_owned(),
        }
    }
}

/// The name of a severity in capitals.
pub open spec fn severity_name(s: Severity) -> Seq<char> {
    match s {
        Severity::Low => "LOW"@,
        Severity::Medium => "MEDIUM"@,
        Severity::High => "HIGH"@,
        Severity::Critical => "CRITICAL"@,
    }
}

impl PartialOrd for Severity {
    fn partial_cmp(&self, other: &Self) -> (r: Option<Ordering>) {
        let a: u8 = self.place();
        let b: u8 = other.place();
        if a < b {
            Some(Ordering::Less)
        } else if a == b {
            Some(Ordering::Equal)
        } else {
            Some(Ordering::Greater)
        }
    }
}

impl vstd::std_specs::cmp::PartialOrdSpecImpl for Severity {
    open spec fn obeys_partial_cmp_spec() -> bool {
        true
    }

    open spec fn partial_cmp_spec(&self, other: &Self) -> Option<Ordering> {
        if rank(*self) < rank(*other) {
            Some(Ordering::Less)
        } else if rank(*self) == rank(*other) {
            Some(Ordering::Equal)
        } else {
            Some(Ordering::Greater)
        }
    }
}

/// A risk found in one statement of a policy.
#[derive(Debug)]
pub struct Finding {
    pub statement_index: usize,
    pub sid: Option<String>,
    pub rule: &'static str,
    pub severity: Severity,
    pub message: String,
}

/// The mathematical contents of a [`Finding`].
pub struct FindingView {
    pub statement_index: int,
    pub sid: Option<Seq<char>>,
    pub rule: Seq<char>,
    pub severity: Severity,
    pub message: Seq<char>,
}

impl View for Finding {
    type V = FindingView;

    open spec fn view(&self) -> FindingView {
        FindingView {
            statement_index: self.statement_index as int,
            sid: optional_text(self.sid),
            rule: self.rule@,
            severity: self.severity,
            message: self.message@,
        }
    }
}

impl Clone for Finding {
    fn clone(&self) -> (r: Self)
        ensures
            r@ == self@,
    {
        Finding {
            statement_index: self.statement_index,
            sid: copy_optional(&self.sid),
            rule: self.rule,
            severity: self.severity,
            message: self.message.clone(),
        }
    }
}

/// The contents of some findings.
pub open spec fn finding_views(findings: Seq<Finding>) -> Seq<FindingView> {
    findings.map_values(|f: Finding| f@)
}

/// Whether some finding is high or critical.
pub open spec fn blocking(findings: Seq<FindingView>) -> bool {
    exists|i: int|
        0 <= i < findings.len() && ((#[trigger] findings[i]).severity == Severity::High
            || findings[i].severity == Severity::Critical)
}

/// Whether any finding is severe enough to fail a run: high or critical.
pub fn has_blocking_findings(findings: &[Finding]) -> (r: bool)
    ensures
        r == blocking(finding_views(findings@)),
{
    let ghost all = finding_views(findings@);
    for i in 0..findings.len()
        invariant
            all == finding_views(findings@),
            forall|k: int|
                0 <= k < i ==> (#[trigger] all[k]).severity != Severity::High && all[k].severity
                    != Severity::Critical,
    {
        assert(all[i as int] == findings@[i as int]@);
        if findings[i].severity >= Severity::High {
            return true;
        }
    }
    false
}

} // verus!
