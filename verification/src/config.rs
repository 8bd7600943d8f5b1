//! Run configuration: the target repository and the label rule set.

use vstd::prelude::*;

verus! {

/// The repository whose issues are triaged, identified by owner and name.
pub struct Repository {
    pub owner: String,
    pub name: String,
}

/// Mathematical image of a `Repository`.
#[verifier::ext_equal]
pub struct RepositoryView {
    pub owner: Seq<char>,
    pub name: Seq<char>,
}

impl View for Repository {
    type V = RepositoryView;

    open spec fn view(&self) -> RepositoryView {
        RepositoryView { owner: self.owner@, name: self.name@ }
    }
}

impl DeepView for Repository {
    type V = RepositoryView;

    open spec fn deep_view(&self) -> RepositoryView {
        self.view()
    }
}

/// One labeling rule: apply the label called `name` whenever the issue
/// meets the natural-language `condition`.
pub struct LabelRule {
    pub name: String,
    pub condition: String,
}

/// Mathematical image of a `LabelRule`.
#[verifier::ext_equal]
pub struct LabelRuleView {
    pub name: Seq<char>,
    pub condition: Seq<char>,
}

impl View for LabelRule {
    type V = LabelRuleView;

    open spec fn view(&self) -> LabelRuleView {
        LabelRuleView { name: self.name@, condition: self.condition@ }
    }
}

impl DeepView for LabelRule {
    type V = LabelRuleView;

    open spec fn deep_view(&self) -> LabelRuleView {
        self.view()
    }
}

/// Immutable configuration for one triage run.  The rule names play the
/// role of keys of a mapping: a well-formed configuration never lists
/// the same label name twice.
pub struct Config {
    pub repository: Repository,
    pub labels: Vec<LabelRule>,
}

/// Mathematical image of a `Config`.
#[verifier::ext_equal]
pub struct ConfigView {
    pub repository: RepositoryView,
    pub labels: Seq<LabelRuleView>,
}

impl View for Config {
    type V = ConfigView;

    open spec fn view(&self) -> ConfigView {
        ConfigView { repository: self.repository@, labels: self.labels.deep_view() }
    }
}

impl ConfigView {
    /// A configuration is well formed when the repository reference is
    /// non-empty and no label name is listed twice.
    pub open spec fn wf(self) -> bool {
        &&& self.repository.owner.len() > 0
        &&& self.repository.name.len() > 0
        &&& forall|i: int, j: int|
            0 <= i < j < self.labels.len() ==> self.labels[i].name != self.labels[j].name
    }
}

impl Config {
    /// Decides well-formedness of a configuration handed in from
    /// unverified surroundings (parsed from a file, say).
    pub fn is_valid(&self) -> (r: bool)
        ensures
            r == self@.wf(),
    {
        if self.repository.owner.as_str().is_empty() {
            return false;
        }
        if self.repository.name.as_str().is_empty() {
            return false;
        }
        let n = self.labels.len();
        let mut i: usize = 0;
        while i < n
            invariant
                n == self.labels.len(),
                i <= n,
                forall|p: int, q: int|
                    0 <= p < q < n && p < i ==> self@.labels[p].name != self@.labels[q].name,
            decreases n - i,
        {
            let mut j: usize = i + 1;
            while j < n
                invariant
                    n == self.labels.len(),
                    i < j <= n,
                    forall|q: int| i < q < j ==> self@.labels[i as int].name != self@.labels[q].name,
                decreases n - j,
            {
                if self.labels[i].name == self.labels[j].name {
                    proof {
                        assert(self@.labels[i as int].name == self@.labels[j as int].name);
                    }
                    return false;
                }
                j += 1;
            }
            i += 1;
        }
        true
    }
}

} // verus!
