//! What the highlighter process works with, and how linting, ignoring, learning words and
//! refreshing change it.
//!
//! The linter itself is made and run by the owner of the session. A linter has rules of its
//! own, which need not be those of the settings that it was made from; the session is told
//! them whenever a linter is made.
use vstd::pervasive::cloned;
use vstd::prelude::*;

use crate::config::Config;

verus! {

/// The state of a highlighter process.
///
/// `lint_config` holds the rules that the linter in use goes by.
pub struct HighlighterSession<D, W, I, L, N> {
    pub ignored_lints: I,
    pub user_dictionary: W,
    pub dialect: D,
    pub integrations: Vec<N>,
    pub debounce_ms: u64,
    pub lint_config: L,
}

/// The state that settings lead to, where the linter made from them goes by `linter_rules`.
pub open spec fn session_of<D, W, I, L, N>(
    config: Config<D, W, I, L, N>,
    linter_rules: L,
) -> HighlighterSession<D, W, I, L, N> {
    HighlighterSession {
        ignored_lints: config.ignored_lints,
        user_dictionary: config.mutable_dictionary,
        dialect: config.dialect,
        integrations: config.integrations,
        debounce_ms: config.debounce_ms,
        lint_config: linter_rules,
    }
}

/// Whether these are the settings from which the linter of a session is made anew: with its
/// dictionary, its dialect, its rules and its pause in typing.
pub open spec fn makes_linter<D, W: Clone, I, L: Clone, N>(
    session: HighlighterSession<D, W, I, L, N>,
    no_ignored_lints: I,
    config: Config<D, W, I, L, N>,
) -> bool {
    &&& cloned(session.user_dictionary, config.mutable_dictionary)
    &&& cloned(session.lint_config, config.lint_config)
    &&& config.dialect == session.dialect
    &&& config.ignored_lints == no_ignored_lints
    &&& config.integrations@ == Seq::<N>::empty()
    &&& config.debounce_ms == session.debounce_ms
    &&& config.auto_update
    &&& config.last_update_check is None
}

impl<D, W, I, L, N> HighlighterSession<D, W, I, L, N> {
    /// The state that the process starts in, with a linter made from the same settings.
    pub fn new(config: Config<D, W, I, L, N>, linter_rules: L) -> (session: Self)
        ensures
            session == session_of(config, linter_rules),
    {
        HighlighterSession {
            ignored_lints: config.ignored_lints,
            user_dictionary: config.mutable_dictionary,
            dialect: config.dialect,
            integrations: config.integrations,
            debounce_ms: config.debounce_ms,
            lint_config: linter_rules,
        }
    }

    /// Takes over fresh settings, and the linter made from them.
    pub fn apply_highlighter_config(&mut self, config: Config<D, W, I, L, N>, linter_rules: L)
        ensures
            *final(self) == session_of(config, linter_rules),
    {
        self.ignored_lints = config.ignored_lints;
        self.user_dictionary = config.mutable_dictionary;
        self.dialect = config.dialect;
        self.integrations = config.integrations;
        self.debounce_ms = config.debounce_ms;
        self.lint_config = linter_rules;
    }

    /// Takes over fresh settings, and the linter made from them, where the settings could be
    /// fetched. Otherwise everything stays, and the error is handed back to be logged.
    pub fn refresh_config<E>(&mut self, fetched: Result<(Config<D, W, I, L, N>, L), E>) -> (
        refreshed: Result<(), E>)
        ensures
            match fetched {
                Ok((config, linter_rules)) => refreshed is Ok && *final(self) == session_of(
                    config,
                    linter_rules,
                ),
                Err(error) => refreshed == Err::<(), E>(error) && *final(self) == *old(self),
            },
    {
        match fetched {
            Ok((config, linter_rules)) => {
                self.apply_highlighter_config(config, linter_rules);
                Ok(())
            },
            Err(error) => Err(error),
        }
    }

    /// Takes over a linter that was made anew.
    pub fn use_linter(&mut self, linter_rules: L)
        ensures
            *final(self) == (HighlighterSession { lint_config: linter_rules, ..*old(self) }),
    {
        self.lint_config = linter_rules;
    }

    /// Takes over the lints that are ignored from now on. They take effect here whether or not
    /// the other process can be told of them.
    pub fn ignore_lint(&mut self, ignored_lints: I)
        ensures
            *final(self) == (HighlighterSession { ignored_lints, ..*old(self) }),
    {
        self.ignored_lints = ignored_lints;
    }

    /// Takes over the rules that are left once one has been disabled, where the other process
    /// has answered with them; the linter is to go by them. Otherwise everything stays, and
    /// the error is handed back to be logged.
    pub fn disable_rule<E>(&mut self, answer: Result<L, E>) -> (disabled: Result<(), E>)
        ensures
            match answer {
                Ok(lint_config) => disabled is Ok && *final(self) == (HighlighterSession {
                    lint_config,
                    ..*old(self)
                }),
                Err(error) => disabled == Err::<(), E>(error) && *final(self) == *old(self),
            },
    {
        match answer {
            Ok(lint_config) => {
                self.lint_config = lint_config;
                Ok(())
            },
            Err(error) => Err(error),
        }
    }
}

impl<D: Copy, W: Clone, I, L: Clone, N> HighlighterSession<D, W, I, L, N> {
    /// Takes over the dictionary with a word added, and gives the settings from which the
    /// linter is to be made anew. The word takes effect here whether or not the other process
    /// can be told of it.
    pub fn add_to_dictionary(&mut self, user_dictionary: W, no_ignored_lints: I) -> (config: Config<
        D,
        W,
        I,
        L,
        N,
    >)
        ensures
            *final(self) == (HighlighterSession { user_dictionary, ..*old(self) }),
            makes_linter(*final(self), no_ignored_lints, config),
    {
        self.user_dictionary = user_dictionary;
        self.linter_config(no_ignored_lints)
    }

    /// The settings from which the linter is made anew after a word has been added: the
    /// dictionary, the dialect, the rules and the pause in typing as they are here, and
    /// nothing ignored and no integrations, which have no bearing on a linter.
    fn linter_config(&self, no_ignored_lints: I) -> (config: Config<D, W, I, L, N>)
        ensures
            makes_linter(*self, no_ignored_lints, config),
    {
        Config {
            mutable_dictionary: self.user_dictionary.clone(),
            dialect: self.dialect,
            ignored_lints: no_ignored_lints,
            lint_config: self.lint_config.clone(),
            integrations: Vec::new(),
            debounce_ms: self.debounce_ms,
            auto_update: true,
            last_update_check: None,
        }
    }
}

/// What has happened to a text that is to be linted. `R` is the type of its lints.
pub enum LintTextEvent<R> {
    /// Typing has not paused for long enough: these lints are still good.
    Cached(R),
    /// The text is ready to be linted.
    Ready,
    /// The linter has found these.
    Linted(R),
    /// The ignored lints have been taken out, and these are left.
    Filtered(R),
}

/// What is to be done with a text that is to be linted.
pub enum LintTextAction<R> {
    /// Run the linter.
    Lint,
    /// Take the ignored lints out of these.
    RemoveIgnored(R),
    /// Remember these as the lints of the text, and answer with them.
    StoreAndReturn(R),
    /// Answer with these.
    Return(R),
}

/// The action that follows an event.
pub open spec fn lint_text_action<R>(event: LintTextEvent<R>) -> LintTextAction<R> {
    match event {
        LintTextEvent::Cached(lints) => LintTextAction::Return(lints),
        LintTextEvent::Ready => LintTextAction::Lint,
        LintTextEvent::Linted(lints) => LintTextAction::RemoveIgnored(lints),
        LintTextEvent::Filtered(lints) => LintTextAction::StoreAndReturn(lints),
    }
}

/// Decides what is to be done next with a text that is to be linted.
pub fn lint_text<R>(event: LintTextEvent<R>) -> (action: LintTextAction<R>)
    ensures
        action == lint_text_action(event),
{
    match event {
        LintTextEvent::Cached(lints) => LintTextAction::Return(lints),
        LintTextEvent::Ready => LintTextAction::Lint,
        LintTextEvent::Linted(lints) => LintTextAction::RemoveIgnored(lints),
        LintTextEvent::Filtered(lints) => LintTextAction::StoreAndReturn(lints),
    }
}

/// The answer for a text, and what is remembered for it, where the linter finds `found` and
/// `without_ignored` takes the ignored lints out.
pub open spec fn lint_text_answer<R>(
    found: R,
    without_ignored: spec_fn(R) -> R,
    event: LintTextEvent<R>,
    steps: nat,
) -> Option<(R, Option<R>)>
    decreases steps,
{
    if steps == 0 {
        None
    } else {
        let rest = (steps - 1) as nat;
        match lint_text_action(event) {
            LintTextAction::Lint => lint_text_answer(
                found,
                without_ignored,
                LintTextEvent::Linted(found),
                rest,
            ),
            LintTextAction::RemoveIgnored(lints) => lint_text_answer(
                found,
                without_ignored,
                LintTextEvent::Filtered(without_ignored(lints)),
                rest,
            ),
            LintTextAction::StoreAndReturn(lints) => Some((lints, Some(lints))),
            LintTextAction::Return(lints) => Some((lints, None)),
        }
    }
}

/// Lints that are still good are answered with, and nothing new is remembered. Otherwise the
/// answer is what the linter finds without the ignored lints, and exactly that is remembered.
pub proof fn law_lint_text<R>(found: R, without_ignored: spec_fn(R) -> R, cached: R)
    ensures
        lint_text_answer(found, without_ignored, LintTextEvent::Cached(cached), 1) == Some(
            (cached, None::<R>),
        ),
        lint_text_answer(found, without_ignored, LintTextEvent::Ready, 3) == Some(
            (without_ignored(found), Some(without_ignored(found))),
        ),
{
    reveal_with_fuel(lint_text_answer, 4);
}

/// Settings reach the session field by field, as they are; the rules are those of the linter.
pub proof fn law_session_has_the_settings<D, W, I, L, N>(
    config: Config<D, W, I, L, N>,
    linter_rules: L,
)
    ensures
        session_of(config, linter_rules).ignored_lints == config.ignored_lints,
        session_of(config, linter_rules).user_dictionary == config.mutable_dictionary,
        session_of(config, linter_rules).dialect == config.dialect,
        session_of(config, linter_rules).integrations == config.integrations,
        session_of(config, linter_rules).debounce_ms == config.debounce_ms,
        session_of(config, linter_rules).lint_config == linter_rules,
{
}

/// A linter that is made anew knows the words, the dialect and the rules of the session, and
/// ignores nothing.
pub proof fn law_new_linter_has_the_session<D, W: Clone, I, L: Clone, N>(
    session: HighlighterSession<D, W, I, L, N>,
    no_ignored_lints: I,
    config: Config<D, W, I, L, N>,
)
    requires
        makes_linter(session, no_ignored_lints, config),
    ensures
        cloned(session.user_dictionary, config.mutable_dictionary),
        cloned(session.lint_config, config.lint_config),
        config.dialect == session.dialect,
        config.ignored_lints == no_ignored_lints,
        config.integrations@.len() == 0,
        config.debounce_ms == session.debounce_ms,
        config.auto_update,
        config.last_update_check is None,
{
}

/// Lints that are still good are the answer as they are; a text that is ready is linted; what the
/// linter finds is freed of the ignored lints; and what is then left is remembered and answered.
pub proof fn law_lints_on_their_way<R>(lints: R)
    ensures
        lint_text_action(LintTextEvent::Cached(lints)) == LintTextAction::Return(lints),
        lint_text_action(LintTextEvent::<R>::Ready) is Lint,
        lint_text_action(LintTextEvent::Linted(lints)) == LintTextAction::RemoveIgnored(lints),
        lint_text_action(LintTextEvent::Filtered(lints)) == LintTextAction::StoreAndReturn(lints),
{
}

} // verus!
