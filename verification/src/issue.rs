//! Issues as the triage core sees them, and the pull-request filter.

use vstd::prelude::*;

verus! {

/// One issue of the repository, read-only within the core.  An entry
/// with `has_pull_request` set is a pull request, not an issue, and is
/// excluded from triage before the pipeline ever sees it.
pub struct Issue {
    pub number: u64,
    pub title: String,
    pub body: Option<String>,
    pub has_pull_request: bool,
}

/// Mathematical image of an `Issue`.
#[verifier::ext_equal]
pub struct IssueView {
    pub number: u64,
    pub title: Seq<char>,
    pub body: Option<Seq<char>>,
    pub has_pull_request: bool,
}

impl View for Issue {
    type V = IssueView;

    open spec fn view(&self) -> IssueView {
        IssueView {
            number: self.number,
            title: self.title@,
            body: match self.body {
                Some(b) => Some(b@),
                None => None,
            },
            has_pull_request: self.has_pull_request,
        }
    }
}

impl DeepView for Issue {
    type V = IssueView;

    open spec fn deep_view(&self) -> IssueView {
        self.view()
    }
}

impl IssueView {
    /// The issue body, with an absent body read as the empty text.
    pub open spec fn body_or_empty(self) -> Seq<char> {
        match self.body {
            Some(b) => b,
            None => Seq::empty(),
        }
    }
}

/// Holds exactly of the entries that triage may touch.
pub open spec fn is_triagable(i: IssueView) -> bool {
    !i.has_pull_request
}

/// The entries of `s` that are genuine issues, in order, with every
/// pull request dropped.
pub open spec fn triagable_only(s: Seq<IssueView>) -> Seq<IssueView> {
    s.filter(|i: IssueView| is_triagable(i))
}

/// Every entry that the pull-request filter keeps is a genuine issue.
pub proof fn lemma_triagable_only_is_triagable(s: Seq<IssueView>)
    ensures
        forall|k: int|
            0 <= k < triagable_only(s).len() ==> is_triagable(#[trigger] triagable_only(s)[k]),
{
    assert forall|k: int|
        0 <= k < triagable_only(s).len() implies is_triagable(triagable_only(s)[k]) by {
        s.lemma_filter_pred(|i: IssueView| is_triagable(i), k);
    }
}

/// Keeps, in order, the entries that are genuine issues and drops every
/// pull request.
pub fn filter_issues(issues: Vec<Issue>) -> (r: Vec<Issue>)
    ensures
        r.deep_view() == triagable_only(issues.deep_view()),
{
    let n = issues.len();
    let mut r: Vec<Issue> = Vec::new();
    let mut k: usize = 0;
    proof {
        assert(issues.deep_view().subrange(0, 0) =~= Seq::<IssueView>::empty());
        reveal(Seq::filter);
    }
    while k < n
        invariant
            n == issues.len(),
            k <= n,
            r.deep_view() == issues.deep_view().subrange(0, k as int).filter(
                |i: IssueView| is_triagable(i),
            ),
        decreases n - k,
    {
        let ghost prefix = issues.deep_view().subrange(0, k as int);
        let issue_is_pr = issues[k].has_pull_request;
        let ghost iv = issues.deep_view()[k as int];
        if !issue_is_pr {
            let item = Issue {
                number: issues[k].number,
                title: issues[k].title.clone(),
                body: match &issues[k].body {
                    Some(b) => Some(b.clone()),
                    None => None,
                },
                has_pull_request: issues[k].has_pull_request,
            };
            assert(item.deep_view() == iv);
            r.push(item);
        }
        proof {
            reveal(Seq::filter);
            let next = issues.deep_view().subrange(0, k + 1int);
            assert(next.drop_last() =~= prefix);
            assert(next.last() == iv);
            assert(next.filter(|i: IssueView| is_triagable(i)) == if is_triagable(iv) {
                prefix.filter(|i: IssueView| is_triagable(i)).push(iv)
            } else {
                prefix.filter(|i: IssueView| is_triagable(i))
            });
        }
        k += 1;
    }
    proof {
        assert(issues.deep_view().subrange(0, n as int) =~= issues.deep_view());
    }
    r
}

} // verus!
