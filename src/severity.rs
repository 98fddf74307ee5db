use vstd::prelude::*;

verus! {

/// Locally computed classification of a detection; `Clear` is the label `none`.
#[derive(Clone, Copy, Debug, PartialEq, Eq, Structural)]
pub enum Severity {
    Clear,
    Low,
    Medium,
    High,
}

impl Severity {
    /// Elevated severities bypass the quiet window and trigger enrichment.
    pub open spec fn spec_is_elevated(self) -> bool {
        self == Severity::Medium || self == Severity::High
    }

    /// Whether this severity is elevated (`medium` or `high`).
    #[verifier::when_used_as_spec(spec_is_elevated)]
    pub fn is_elevated(self) -> (r: bool)
        ensures
            r == self.spec_is_elevated(),
    {
        match self {
            Severity::Medium | Severity::High => true,
            _ => false,
        }
    }

    /// The severity a label denotes; unknown labels count as `none`.
    pub open spec fn spec_from_label(s: Seq<char>) -> Severity {
        if s == "low"@ {
            Severity::Low
        } else if s == "medium"@ {
            Severity::Medium
        } else if s == "high"@ {
            Severity::High
        } else {
            Severity::Clear
        }
    }

    /// Reads a severity label such as `"high"`.
    pub fn from_label(s: &str) -> (r: Severity)
        ensures
            r == Severity::spec_from_label(s@),
    {
        let owned = s.to_owned();
        if owned == "low".to_owned() {
            Severity::Low
        } else if owned == "medium".to_owned() {
            Severity::Medium
        } else if owned == "high".to_owned() {
            Severity::High
        } else {
            Severity::Clear
        }
    }

    /// The label of this severity.
    pub fn label(self) -> (r: &'static str)
        ensures
            Severity::spec_from_label(r@) == self,
    {
        proof {
            reveal_strlit("none");
            reveal_strlit("low");
            reveal_strlit("medium");
            reveal_strlit("high");
            assert("none"@.len() != "low"@.len() && "none"@.len() != "medium"@.len());
            assert("none"@[0] != "high"@[0]);
        }
        match self {
            Severity::Clear => "none",
            Severity::Low => "low",
            Severity::Medium => "medium",
            Severity::High => "high",
        }
    }
}

} // verus!
