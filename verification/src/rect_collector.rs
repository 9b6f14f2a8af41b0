//! Collecting the lints of an element together with the place of each on the screen.
use vstd::prelude::*;

use crate::accessibility::is_textarea;
#[allow(unused_imports)]
use crate::dictionary::{lemma_text_le_reflexive, text_le};
use crate::rect::Rect;

verus! {

/// A lint, and the place of its text where the element could tell it.
pub struct PlacedLint<L, N, E> {
    pub lint: L,
    pub rect: Result<Option<Rect<N>>, E>,
}

/// The lints of one rule, in the order of the text.
pub struct RuleLints<L, N, E> {
    pub rule_name: String,
    pub lints: Vec<PlacedLint<L, N, E>>,
}

/// A lint that can be shown and acted on.
pub struct ActionableLint<L, N> {
    pub rect: Rect<N>,
    pub rule_name: String,
    pub lint: L,
    /// The whole text of the element that the lint is in.
    pub source_text: String,
}

/// The lints collected so far.
pub struct RectCollector<L, N> {
    pub rects: Vec<ActionableLint<L, N>>,
}

/// The lints of a rule that have a place, in their order.
pub open spec fn actionable<L, N, E>(
    rule_name: String,
    lints: Seq<PlacedLint<L, N, E>>,
    source_text: String,
) -> Seq<ActionableLint<L, N>>
    decreases lints.len(),
{
    if lints.len() == 0 {
        Seq::empty()
    } else {
        let before = actionable(rule_name, lints.drop_last(), source_text);
        match lints.last().rect {
            Ok(Some(rect)) => before.push(
                ActionableLint { rect, rule_name, lint: lints.last().lint, source_text },
            ),
            _ => before,
        }
    }
}

/// The lints of all rules that have a place, rule by rule.
pub open spec fn all_actionable<L, N, E>(
    organized: Seq<RuleLints<L, N, E>>,
    source_text: String,
) -> Seq<ActionableLint<L, N>>
    decreases organized.len(),
{
    if organized.len() == 0 {
        Seq::empty()
    } else {
        all_actionable(organized.drop_last(), source_text) + actionable(
            organized.last().rule_name,
            organized.last().lints@,
            source_text,
        )
    }
}

/// Whether the rules run by ascending name, each name once: the order in which the linter hands
/// its lints over.
pub open spec fn rules_ascend<L, N, E>(organized: Seq<RuleLints<L, N, E>>) -> bool {
    forall|i: int, j: int|
        #![trigger organized[i], organized[j]]
        0 <= i < j < organized.len() ==> {
            &&& text_le(organized[i].rule_name@, organized[j].rule_name@)
            &&& organized[i].rule_name@ != organized[j].rule_name@
        }
}

/// Whether lints run by ascending rule name.
pub open spec fn lints_ascend<L, N>(lints: Seq<ActionableLint<L, N>>) -> bool {
    forall|a: int, b: int|
        #![trigger lints[a], lints[b]]
        0 <= a <= b < lints.len() ==> text_le(lints[a].rule_name@, lints[b].rule_name@)
}

/// Whether a lint was found by the rule with this name.
pub open spec fn named<L, N>(rule_name: Seq<char>) -> spec_fn(ActionableLint<L, N>) -> bool {
    |lint: ActionableLint<L, N>| lint.rule_name@ == rule_name
}

impl<L, N> RectCollector<L, N> {
    /// A collector that holds nothing.
    pub fn new() -> (collector: Self)
        ensures
            collector.rects@ == Seq::<ActionableLint<L, N>>::empty(),
    {
        RectCollector { rects: Vec::new() }
    }

    /// Whether the text of an element is to be linted: it has a value, and it is a text area.
    pub fn wants_element(has_value: bool, role: Option<&str>) -> (wanted: bool)
        ensures
            wanted <==> has_value && role is Some && role->0@ == "AXTextArea"@,
    {
        has_value && is_textarea(role)
    }

    /// Adds the lints of an element whose place is known, rule by rule and in their order; the
    /// others are left out.
    pub fn enter_element<E>(&mut self, organized: Vec<RuleLints<L, N, E>>, source_text: String)
        ensures
            final(self).rects@ == old(self).rects@ + all_actionable(organized@, source_text),
    {
        let ghost before = self.rects@;
        for rule in it: organized
            invariant
                it.seq() == organized@,
                self.rects@ == before + all_actionable(
                    organized@.take(it.index()),
                    source_text,
                ),
        {
            let ghost so_far = self.rects@;
            let ghost k = it.index();
            let rule_name = rule.rule_name;
            let lints = rule.lints;
            for placed in inner: lints
                invariant
                    inner.seq() == lints@,
                    self.rects@ == so_far + actionable(
                        rule_name,
                        lints@.take(inner.index()),
                        source_text,
                    ),
            {
                let ghost n = inner.index();
                assert(lints@.take(n + 1).drop_last() == lints@.take(n));
                if let Ok(Some(rect)) = placed.rect {
                    self.rects.push(
                        ActionableLint {
                            rect,
                            rule_name: rule_name.clone(),
                            lint: placed.lint,
                            source_text: source_text.clone(),
                        },
                    );
                }
            }
            assert(lints@.take(lints@.len() as int) == lints@);
            assert(organized@.take(k + 1).drop_last() == organized@.take(k));
        }
        assert(organized@.take(organized@.len() as int) == organized@);
    }

    /// The lints that were collected.
    pub fn unwrap_rects(self) -> (rects: Vec<ActionableLint<L, N>>)
        ensures
            rects == self.rects,
    {
        self.rects
    }
}

/// Everything that is collected from an element is one of its lints, under the rule that it was
/// found by, at the place that the element gave, with the element's text.
pub proof fn law_collected_lints_are_placed<L, N, E>(
    organized: Seq<RuleLints<L, N, E>>,
    source_text: String,
    k: int,
)
    requires
        0 <= k < all_actionable(organized, source_text).len(),
    ensures
        ({
            let collected = all_actionable(organized, source_text)[k];
            &&& collected.source_text == source_text
            &&& exists|r: int, i: int|
                0 <= r < organized.len() && 0 <= i < organized[r].lints@.len()
                    && organized[r].rule_name == collected.rule_name
                    && (#[trigger] organized[r].lints@[i]).lint == collected.lint
                    && organized[r].lints@[i].rect == Ok::<Option<Rect<N>>, E>(
                    Some(collected.rect),
                )
        }),
    decreases organized.len(),
{
    let before = organized.drop_last();
    let rule = organized.last();
    let earlier = all_actionable(before, source_text);
    if k < earlier.len() {
        law_collected_lints_are_placed(before, source_text, k);
        let (r, i) = choose|r: int, i: int|
            0 <= r < before.len() && 0 <= i < before[r].lints@.len() && before[r].rule_name
                == earlier[k].rule_name && (#[trigger] before[r].lints@[i]).lint
                == earlier[k].lint && before[r].lints@[i].rect == Ok::<Option<Rect<N>>, E>(
                Some(earlier[k].rect),
            );
        assert(organized[r].lints@[i].lint == earlier[k].lint);
    } else {
        let i = lemma_actionable_source(
            rule.rule_name,
            rule.lints@,
            source_text,
            k - earlier.len(),
        );
        assert(organized[organized.len() - 1].lints@[i].lint == all_actionable(
            organized,
            source_text,
        )[k].lint);
    }
}

/// No lint that has a place is left out: it is collected under its rule.
pub proof fn law_placed_lints_are_collected<L, N, E>(
    organized: Seq<RuleLints<L, N, E>>,
    source_text: String,
    r: int,
    i: int,
    rect: Rect<N>,
)
    requires
        0 <= r < organized.len(),
        0 <= i < organized[r].lints@.len(),
        organized[r].lints@[i].rect == Ok::<Option<Rect<N>>, E>(Some(rect)),
    ensures
        all_actionable(organized, source_text).contains(
            ActionableLint {
                rect,
                rule_name: organized[r].rule_name,
                lint: organized[r].lints@[i].lint,
                source_text,
            },
        ),
    decreases organized.len(),
{
    let rule = organized.last();
    let earlier = all_actionable(organized.drop_last(), source_text);
    let collected = ActionableLint {
        rect,
        rule_name: organized[r].rule_name,
        lint: organized[r].lints@[i].lint,
        source_text,
    };
    let all = all_actionable(organized, source_text);
    if r < organized.len() - 1 {
        law_placed_lints_are_collected(organized.drop_last(), source_text, r, i, rect);
        let k = choose|k: int| 0 <= k < earlier.len() && earlier[k] == collected;
        assert(all[k] == collected);
    } else {
        let of_rule = actionable(rule.rule_name, rule.lints@, source_text);
        lemma_actionable_holds(rule.rule_name, rule.lints@, source_text, i, rect);
        let k = choose|k: int| 0 <= k < of_rule.len() && of_rule[k] == collected;
        assert(all[earlier.len() + k] == collected);
    }
}

/// The lints collected from an element run by ascending rule name where the rules do.
pub proof fn law_collected_lints_ascend<L, N, E>(
    organized: Seq<RuleLints<L, N, E>>,
    source_text: String,
)
    requires
        rules_ascend(organized),
    ensures
        lints_ascend(all_actionable(organized, source_text)),
    decreases organized.len(),
{
    if organized.len() > 0 {
        let before = organized.drop_last();
        let rule = organized.last();
        let earlier = all_actionable(before, source_text);
        let of_rule = actionable(rule.rule_name, rule.lints@, source_text);
        let all = all_actionable(organized, source_text);
        assert(rules_ascend(before)) by {
            assert(forall|i: int| 0 <= i < before.len() ==> before[i] == organized[i]);
        }
        law_collected_lints_ascend(before, source_text);
        assert forall|a: int, b: int|
            #![trigger all[a], all[b]]
            0 <= a <= b < all.len() implies text_le(all[a].rule_name@, all[b].rule_name@) by {
            if b < earlier.len() {
                assert(all[a] == earlier[a] && all[b] == earlier[b]);
            } else {
                lemma_actionable_source(
                    rule.rule_name,
                    rule.lints@,
                    source_text,
                    b - earlier.len(),
                );
                assert(all[b] == of_rule[b - earlier.len()]);
                if a < earlier.len() {
                    law_collected_lints_are_placed(before, source_text, a);
                    let r = choose|r: int|
                        0 <= r < before.len() && (#[trigger] before[r]).rule_name
                            == earlier[a].rule_name;
                    assert(organized[r].rule_name == all[a].rule_name);
                    assert(organized[organized.len() - 1] == rule);
                } else {
                    lemma_actionable_source(
                        rule.rule_name,
                        rule.lints@,
                        source_text,
                        a - earlier.len(),
                    );
                    assert(all[a] == of_rule[a - earlier.len()]);
                    lemma_text_le_reflexive(rule.rule_name@);
                }
            }
        }
    }
}

/// Where each rule name stands once, the lints collected under the name of a rule are that
/// rule's lints that have a place, in their order, and no others.
pub proof fn law_a_name_stands_for_one_rule<L, N, E>(
    organized: Seq<RuleLints<L, N, E>>,
    source_text: String,
    r: int,
)
    requires
        rules_ascend(organized),
        0 <= r < organized.len(),
    ensures
        all_actionable(organized, source_text).filter(named(organized[r].rule_name@)) == actionable(
            organized[r].rule_name,
            organized[r].lints@,
            source_text,
        ),
    decreases organized.len(),
{
    let before = organized.drop_last();
    let rule = organized.last();
    let earlier = all_actionable(before, source_text);
    let of_rule = actionable(rule.rule_name, rule.lints@, source_text);
    let wanted = named(organized[r].rule_name@);
    assert(forall|i: int| 0 <= i < before.len() ==> before[i] == organized[i]);
    assert(rules_ascend(before));
    assert(organized[organized.len() - 1] == rule);
    Seq::filter_distributes_over_add(earlier, of_rule, wanted);
    assert forall|k: int| 0 <= k < of_rule.len() implies (#[trigger] of_rule[k]).rule_name
        == rule.rule_name by {
        lemma_actionable_source(rule.rule_name, rule.lints@, source_text, k);
    }
    if r < organized.len() - 1 {
        law_a_name_stands_for_one_rule(before, source_text, r);
        assert(organized[r].rule_name@ != rule.rule_name@);
        lemma_filter_none(of_rule, wanted);
    } else {
        assert forall|k: int| 0 <= k < earlier.len() implies !wanted(#[trigger] earlier[k]) by {
            law_collected_lints_are_placed(before, source_text, k);
            let q = choose|q: int|
                0 <= q < before.len() && (#[trigger] before[q]).rule_name == earlier[k].rule_name;
            assert(organized[q].rule_name@ != rule.rule_name@);
        }
        lemma_filter_none(earlier, wanted);
        lemma_filter_all(of_rule, wanted);
    }
    assert(Seq::empty() + of_rule == of_rule);
    assert(earlier.filter(wanted) + Seq::empty() == earlier.filter(wanted));
}

proof fn lemma_filter_none<A>(s: Seq<A>, wanted: spec_fn(A) -> bool)
    requires
        forall|k: int| 0 <= k < s.len() ==> !wanted(#[trigger] s[k]),
    ensures
        s.filter(wanted) == Seq::<A>::empty(),
    decreases s.len(),
{
    reveal(Seq::filter);
    if s.len() > 0 {
        assert(!wanted(s[s.len() - 1]));
        lemma_filter_none(s.drop_last(), wanted);
    }
}

proof fn lemma_filter_all<A>(s: Seq<A>, wanted: spec_fn(A) -> bool)
    requires
        forall|k: int| 0 <= k < s.len() ==> wanted(#[trigger] s[k]),
    ensures
        s.filter(wanted) == s,
    decreases s.len(),
{
    reveal(Seq::filter);
    if s.len() > 0 {
        assert(wanted(s[s.len() - 1]));
        lemma_filter_all(s.drop_last(), wanted);
        assert(s.drop_last().push(s.last()) == s);
    }
}

proof fn lemma_actionable_holds<L, N, E>(
    rule_name: String,
    lints: Seq<PlacedLint<L, N, E>>,
    source_text: String,
    i: int,
    rect: Rect<N>,
)
    requires
        0 <= i < lints.len(),
        lints[i].rect == Ok::<Option<Rect<N>>, E>(Some(rect)),
    ensures
        actionable(rule_name, lints, source_text).contains(
            ActionableLint { rect, rule_name, lint: lints[i].lint, source_text },
        ),
    decreases lints.len(),
{
    let collected = ActionableLint { rect, rule_name, lint: lints[i].lint, source_text };
    let before = actionable(rule_name, lints.drop_last(), source_text);
    let all = actionable(rule_name, lints, source_text);
    if i < lints.len() - 1 {
        lemma_actionable_holds(rule_name, lints.drop_last(), source_text, i, rect);
        let k = choose|k: int| 0 <= k < before.len() && before[k] == collected;
        assert(all[k] == collected);
    } else {
        assert(all[before.len() as int] == collected);
    }
}

proof fn lemma_actionable_source<L, N, E>(
    rule_name: String,
    lints: Seq<PlacedLint<L, N, E>>,
    source_text: String,
    k: int,
) -> (i: int)
    requires
        0 <= k < actionable(rule_name, lints, source_text).len(),
    ensures
        0 <= i < lints.len(),
        ({
            let collected = actionable(rule_name, lints, source_text)[k];
            &&& collected.source_text == source_text
            &&& collected.rule_name == rule_name
            &&& collected.lint == lints[i].lint
            &&& lints[i].rect == Ok::<Option<Rect<N>>, E>(Some(collected.rect))
        }),
    decreases lints.len(),
{
    let before = actionable(rule_name, lints.drop_last(), source_text);
    if k < before.len() {
        lemma_actionable_source(rule_name, lints.drop_last(), source_text, k)
    } else {
        lints.len() - 1
    }
}

/// A lint with a place is collected once, with its place, its rule and the text as they are, and
/// one without a place not at all; the lints of a rule are collected one after the other.
pub proof fn law_lints_are_collected_one_by_one<L, N, E>(
    rule_name: String,
    earlier: Seq<PlacedLint<L, N, E>>,
    later: Seq<PlacedLint<L, N, E>>,
    placed: PlacedLint<L, N, E>,
    source_text: String,
)
    ensures
        actionable(rule_name, earlier + later, source_text) == actionable(
            rule_name,
            earlier,
            source_text,
        ) + actionable(rule_name, later, source_text),
        actionable(rule_name, Seq::<PlacedLint<L, N, E>>::empty(), source_text).len() == 0,
        ({
            let collected = actionable(rule_name, seq![placed], source_text);
            match placed.rect {
                Ok(Some(rect)) => {
                    &&& collected.len() == 1
                    &&& collected[0].rect == rect
                    &&& collected[0].rule_name == rule_name
                    &&& collected[0].lint == placed.lint
                    &&& collected[0].source_text == source_text
                },
                _ => collected.len() == 0,
            }
        }),
    decreases later.len(),
{
    assert(seq![placed].drop_last() == Seq::<PlacedLint<L, N, E>>::empty());
    assert(seq![placed].last() == placed);
    assert(actionable(rule_name, seq![placed].drop_last(), source_text).len() == 0);
    if later.len() == 0 {
        assert(earlier + later == earlier);
    } else {
        law_lints_are_collected_one_by_one(
            rule_name,
            earlier,
            later.drop_last(),
            placed,
            source_text,
        );
        assert((earlier + later).drop_last() == earlier + later.drop_last());
        assert((earlier + later).last() == later.last());
        assert(actionable(rule_name, earlier + later, source_text) =~= actionable(
            rule_name,
            earlier,
            source_text,
        ) + actionable(rule_name, later, source_text));
    }
}

/// The rules are collected one after the other, each under its own name.
pub proof fn law_rules_are_collected_one_by_one<L, N, E>(
    earlier: Seq<RuleLints<L, N, E>>,
    later: Seq<RuleLints<L, N, E>>,
    rule: RuleLints<L, N, E>,
    source_text: String,
)
    ensures
        all_actionable(earlier + later, source_text) == all_actionable(earlier, source_text)
            + all_actionable(later, source_text),
        all_actionable(Seq::<RuleLints<L, N, E>>::empty(), source_text).len() == 0,
        all_actionable(seq![rule], source_text) == actionable(
            rule.rule_name,
            rule.lints@,
            source_text,
        ),
    decreases later.len(),
{
    let none = Seq::<RuleLints<L, N, E>>::empty();
    assert(seq![rule].drop_last() == none);
    assert(seq![rule].last() == rule);
    assert(all_actionable(none, source_text) =~= Seq::<ActionableLint<L, N>>::empty());
    assert(all_actionable(seq![rule], source_text) =~= actionable(
        rule.rule_name,
        rule.lints@,
        source_text,
    ));
    if later.len() == 0 {
        assert(earlier + later == earlier);
        assert(later == none);
        assert(all_actionable(earlier + later, source_text) =~= all_actionable(earlier, source_text)
            + all_actionable(later, source_text));
    } else {
        law_rules_are_collected_one_by_one(earlier, later.drop_last(), rule, source_text);
        assert((earlier + later).drop_last() == earlier + later.drop_last());
        assert((earlier + later).last() == later.last());
        assert(all_actionable(earlier + later, source_text) =~= all_actionable(earlier, source_text)
            + all_actionable(later, source_text));
    }
}

} // verus!
