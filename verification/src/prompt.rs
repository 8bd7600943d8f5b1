//! Deterministic rendering of one issue plus the label rules into the
//! model prompt.
//!
//! The prompt opens with a fixed instruction block, then carries the
//! issue title and body verbatim, then one line per label rule.  The
//! rendering is a pure function of its inputs: the same issue and
//! configuration always yield byte-identical text.

use vstd::prelude::*;

use crate::config::{Config, ConfigView, LabelRuleView};
use crate::issue::{Issue, IssueView};

verus! {

/// The fixed instruction block that opens every prompt.
pub open spec fn instructions() -> Seq<char> {
    "Based on the following issue, respond ONLY with a comma-separated list of labels that should be applied.\n"@
        + "If no labels apply, respond with 'none'.\n"@
        + "If none of the label rules apply, respond with 'none'.\n"@
        + "Do not suggest labels other than the ones provided below.\n"@ + "\n\n"@
}

/// The issue's title and body, rendered verbatim; an absent body is
/// rendered as empty text.
pub open spec fn issue_block(i: IssueView) -> Seq<char> {
    "Issue Title: "@ + i.title + "\n"@ + "Issue Body: "@ + i.body_or_empty() + "\n\n"@
}

/// The header that opens the rule section.
pub open spec fn rules_header() -> Seq<char> {
    "Labels and their conditions:\n"@
}

/// The line rendered for one label rule.
pub open spec fn rule_line(r: LabelRuleView) -> Seq<char> {
    "- Apply '"@ + r.name + "' if the issue "@ + r.condition + "\n"@
}

/// The lines of all label rules, in the order the configuration lists
/// them.
pub open spec fn rule_lines(rs: Seq<LabelRuleView>) -> Seq<char>
    decreases rs.len(),
{
    if rs.len() == 0 {
        Seq::empty()
    } else {
        rule_line(rs[0]) + rule_lines(rs.drop_first())
    }
}

/// The whole prompt for one issue under one configuration.
pub open spec fn prompt_spec(i: IssueView, c: ConfigView) -> Seq<char> {
    instructions() + issue_block(i) + rules_header() + rule_lines(c.labels)
}

/// Rendering the rules of `rs` and then one more rule appends that
/// rule's line.
pub proof fn lemma_rule_lines_push(rs: Seq<LabelRuleView>, x: LabelRuleView)
    ensures
        rule_lines(rs.push(x)) == rule_lines(rs) + rule_line(x),
    decreases rs.len(),
{
    if rs.len() == 0 {
        assert(rs.push(x).drop_first() =~= rs);
        assert(rs.push(x)[0] == x);
        assert(rule_lines(rs.push(x)) == rule_line(x) + rule_lines(rs));
        assert(rule_lines(rs.push(x)) =~= rule_lines(rs) + rule_line(x));
    } else {
        assert(rs.push(x)[0] == rs[0]);
        assert(rs.push(x).drop_first() =~= rs.drop_first().push(x));
        lemma_rule_lines_push(rs.drop_first(), x);
        assert(rule_lines(rs.push(x)) == rule_line(rs[0]) + (rule_lines(rs.drop_first())
            + rule_line(x)));
        assert(rule_lines(rs.push(x)) =~= rule_lines(rs) + rule_line(x));
    }
}

/// With an empty rule set the prompt still carries the instruction
/// block and the issue content, closed by the bare rule header.
pub proof fn lemma_prompt_empty_rules(i: IssueView, c: ConfigView)
    requires
        c.labels.len() == 0,
    ensures
        prompt_spec(i, c) == instructions() + issue_block(i) + rules_header(),
{
    assert(prompt_spec(i, c) =~= instructions() + issue_block(i) + rules_header());
}

/// Renders the prompt for `issue` under `config`.  The result is a
/// pure function of the two arguments: calling this twice on equal
/// inputs yields byte-identical text.
pub fn build_prompt(issue: &Issue, config: &Config) -> (r: String)
    ensures
        r@ == prompt_spec(issue@, config@),
{
    let mut prompt = String::new();
    prompt.append(
        "Based on the following issue, respond ONLY with a comma-separated list of labels that should be applied.\n",
    );
    prompt.append("If no labels apply, respond with 'none'.\n");
    prompt.append("If none of the label rules apply, respond with 'none'.\n");
    prompt.append("Do not suggest labels other than the ones provided below.\n");
    prompt.append("\n\n");
    prompt.append("Issue Title: ");
    prompt.append(issue.title.as_str());
    prompt.append("\n");
    prompt.append("Issue Body: ");
    match &issue.body {
        Some(b) => prompt.append(b.as_str()),
        None => (),
    }
    prompt.append("\n\n");
    prompt.append("Labels and their conditions:\n");
    let ghost head = instructions() + issue_block(issue@) + rules_header();
    proof {
        assert(prompt@ =~= head);
        assert(config@.labels.subrange(0, 0) =~= Seq::<LabelRuleView>::empty());
        assert(prompt@ =~= head + rule_lines(config@.labels.subrange(0, 0)));
    }
    let nrules = config.labels.len();
    let mut k: usize = 0;
    while k < nrules
        invariant
            nrules == config.labels.len(),
            k <= nrules,
            prompt@ == head + rule_lines(config@.labels.subrange(0, k as int)),
        decreases nrules - k,
    {
        let ghost done = config@.labels.subrange(0, k as int);
        prompt.append("- Apply '");
        prompt.append(config.labels[k].name.as_str());
        prompt.append("' if the issue ");
        prompt.append(config.labels[k].condition.as_str());
        prompt.append("\n");
        proof {
            let rule = config@.labels[k as int];
            lemma_rule_lines_push(done, rule);
            assert(config@.labels.subrange(0, k + 1int) =~= done.push(rule));
            assert(prompt@ =~= head + rule_lines(config@.labels.subrange(0, k + 1int)));
        }
        k += 1;
    }
    proof {
        assert(config@.labels.subrange(0, nrules as int) =~= config@.labels);
    }
    prompt
}

} // verus!
