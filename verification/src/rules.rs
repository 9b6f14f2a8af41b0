//! Registering the rules of the rule directory: each as a rule on sentences where it can be
//! one, else as a rule on chunks, and all of them enabled.
use vstd::prelude::*;

verus! {

/// A rule that has been read: on sentences, or else on chunks.
pub struct WeirRule<S, C> {
    pub name: String,
    /// The rule on sentences, or, where it cannot be one, the rule on chunks.
    pub linter: Result<S, C>,
}

/// A rule as it is registered.
pub enum RegisteredLinter<S, C> {
    Sentence(S),
    Chunk(C),
}

/// An entry of a lint group.
pub struct LintGroupEntry<S, C> {
    pub name: String,
    pub linter: RegisteredLinter<S, C>,
    /// Whether the rule is enabled; `None` would leave that to the default.
    pub enabled: Option<bool>,
}

/// The entry for a rule.
pub open spec fn entry_for<S, C>(rule: WeirRule<S, C>) -> LintGroupEntry<S, C> {
    LintGroupEntry {
        name: rule.name,
        linter: match rule.linter {
            Ok(linter) => RegisteredLinter::Sentence(linter),
            Err(linter) => RegisteredLinter::Chunk(linter),
        },
        enabled: Some(true),
    }
}

/// The entries for the rules, in their order.
pub fn lint_group<S, C>(rules: Vec<WeirRule<S, C>>) -> (group: Vec<LintGroupEntry<S, C>>)
    ensures
        group@ == rules@.map_values(|rule: WeirRule<S, C>| entry_for(rule)),
        group@.len() == rules@.len(),
        forall|i: int|
            0 <= i < rules@.len() ==> {
                let entry = #[trigger] group@[i];
                &&& entry.name == rules@[i].name
                &&& entry.enabled == Some(true)
                &&& match rules@[i].linter {
                    Ok(linter) => entry.linter == RegisteredLinter::<S, C>::Sentence(linter),
                    Err(linter) => entry.linter == RegisteredLinter::<S, C>::Chunk(linter),
                }
            },
{
    let mut group: Vec<LintGroupEntry<S, C>> = Vec::new();
    for rule in it: rules
        invariant
            it.seq() == rules@,
            group@ =~= rules@.take(it.index()).map_values(
                |rule: WeirRule<S, C>| entry_for(rule),
            ),
    {
        let linter = match rule.linter {
            Ok(linter) => RegisteredLinter::Sentence(linter),
            Err(linter) => RegisteredLinter::Chunk(linter),
        };
        group.push(LintGroupEntry { name: rule.name, linter, enabled: Some(true) });
    }
    assert(rules@.take(rules@.len() as int) == rules@);
    group
}

/// A rule is registered under its own name and enabled: on sentences where it can be read so, and
/// on chunks exactly where it cannot.
pub proof fn law_every_rule_is_enabled<S, C>(rule: WeirRule<S, C>)
    ensures
        entry_for(rule).name == rule.name,
        entry_for(rule).enabled == Some(true),
        rule.linter matches Ok(linter) ==> entry_for(rule).linter
            == RegisteredLinter::<S, C>::Sentence(linter),
        rule.linter matches Err(linter) ==> entry_for(rule).linter
            == RegisteredLinter::<S, C>::Chunk(linter),
{
}

} // verus!
