//! Fetching the settings over the protocol of the highlighter: one request after the other,
//! until all have been answered or one has failed.
use vstd::prelude::*;

use crate::config::Config;

verus! {

/// What is asked for.
#[derive(Debug, Clone, Copy, PartialEq, Eq, Structural)]
pub enum FetchRequest {
    Dialect,
    Dictionary,
    IgnoredLints,
    LintConfig,
    Integrations,
    DebounceMs,
}

/// The answer to a request.
pub enum FetchReply<D, W, I, L, N> {
    Dialect(D),
    Dictionary(W),
    IgnoredLints(I),
    LintConfig(L),
    Integrations(Vec<N>),
    DebounceMs(u64),
}

/// How far the fetching has come, with the answers so far.
pub enum ConfigFetch<D, W, I, L, N> {
    Begun,
    HasDialect(D),
    HasDictionary(D, W),
    HasIgnoredLints(D, W, I),
    HasLintConfig(D, W, I, L),
    HasIntegrations(D, W, I, L, Vec<N>),
    Complete(Config<D, W, I, L, N>),
}

/// The request that is to be sent next.
pub open spec fn pending<D, W, I, L, N>(fetch: ConfigFetch<D, W, I, L, N>) -> Option<FetchRequest> {
    match fetch {
        ConfigFetch::Begun => Some(FetchRequest::Dialect),
        ConfigFetch::HasDialect(..) => Some(FetchRequest::Dictionary),
        ConfigFetch::HasDictionary(..) => Some(FetchRequest::IgnoredLints),
        ConfigFetch::HasIgnoredLints(..) => Some(FetchRequest::LintConfig),
        ConfigFetch::HasLintConfig(..) => Some(FetchRequest::Integrations),
        ConfigFetch::HasIntegrations(..) => Some(FetchRequest::DebounceMs),
        ConfigFetch::Complete(_) => None,
    }
}

/// Whether a reply answers a request.
pub open spec fn answers<D, W, I, L, N>(
    reply: FetchReply<D, W, I, L, N>,
    request: FetchRequest,
) -> bool {
    match request {
        FetchRequest::Dialect => reply is Dialect,
        FetchRequest::Dictionary => reply is Dictionary,
        FetchRequest::IgnoredLints => reply is IgnoredLints,
        FetchRequest::LintConfig => reply is LintConfig,
        FetchRequest::Integrations => reply is Integrations,
        FetchRequest::DebounceMs => reply is DebounceMs,
    }
}

/// The settings that the answers make up. What the protocol does not carry has the value that
/// it has by default.
pub open spec fn fetched<D, W, I, L, N>(
    dialect: D,
    dictionary: W,
    ignored_lints: I,
    lint_config: L,
    integrations: Vec<N>,
    debounce_ms: u64,
) -> Config<D, W, I, L, N> {
    Config {
        dialect,
        mutable_dictionary: dictionary,
        ignored_lints,
        lint_config,
        integrations,
        debounce_ms,
        auto_update: true,
        last_update_check: None,
    }
}

/// How far the fetching has come once a reply to the pending request has been taken in.
pub open spec fn after_reply<D, W, I, L, N>(
    fetch: ConfigFetch<D, W, I, L, N>,
    reply: FetchReply<D, W, I, L, N>,
) -> ConfigFetch<D, W, I, L, N> {
    match (fetch, reply) {
        (ConfigFetch::Begun, FetchReply::Dialect(d)) => ConfigFetch::HasDialect(d),
        (ConfigFetch::HasDialect(d), FetchReply::Dictionary(w)) => ConfigFetch::HasDictionary(d, w),
        (ConfigFetch::HasDictionary(d, w), FetchReply::IgnoredLints(i)) =>
        ConfigFetch::HasIgnoredLints(d, w, i),
        (ConfigFetch::HasIgnoredLints(d, w, i), FetchReply::LintConfig(l)) =>
        ConfigFetch::HasLintConfig(d, w, i, l),
        (ConfigFetch::HasLintConfig(d, w, i, l), FetchReply::Integrations(n)) =>
        ConfigFetch::HasIntegrations(d, w, i, l, n),
        (ConfigFetch::HasIntegrations(d, w, i, l, n), FetchReply::DebounceMs(ms)) =>
        ConfigFetch::Complete(fetched(d, w, i, l, n, ms)),
        (fetch, _) => fetch,
    }
}

impl<D, W, I, L, N> ConfigFetch<D, W, I, L, N> {
    /// The beginning of a fetch.
    pub fn new() -> (fetch: Self)
        ensures
            fetch is Begun,
    {
        ConfigFetch::Begun
    }

    /// The request that is to be sent next, `None` where the settings are complete.
    pub fn pending_request(&self) -> (request: Option<FetchRequest>)
        ensures
            request == pending(*self),
    {
        match self {
            ConfigFetch::Begun => Some(FetchRequest::Dialect),
            ConfigFetch::HasDialect(..) => Some(FetchRequest::Dictionary),
            ConfigFetch::HasDictionary(..) => Some(FetchRequest::IgnoredLints),
            ConfigFetch::HasIgnoredLints(..) => Some(FetchRequest::LintConfig),
            ConfigFetch::HasLintConfig(..) => Some(FetchRequest::Integrations),
            ConfigFetch::HasIntegrations(..) => Some(FetchRequest::DebounceMs),
            ConfigFetch::Complete(_) => None,
        }
    }

    /// Takes in the reply to the pending request. The first failure ends the fetch; a reply to
    /// another request is passed over.
    pub fn fetch_highlighter_config<E>(self, reply: Result<FetchReply<D, W, I, L, N>, E>) -> (next:
        Result<Self, E>)
        ensures
            next == (match reply {
                Ok(reply) => Ok::<Self, E>(after_reply(self, reply)),
                Err(error) => Err::<Self, E>(error),
            }),
    {
        let reply = match reply {
            Ok(reply) => reply,
            Err(error) => return Err(error),
        };
        let next = match (self, reply) {
            (ConfigFetch::Begun, FetchReply::Dialect(d)) => ConfigFetch::HasDialect(d),
            (ConfigFetch::HasDialect(d), FetchReply::Dictionary(w)) => ConfigFetch::HasDictionary(
                d,
                w,
            ),
            (ConfigFetch::HasDictionary(d, w), FetchReply::IgnoredLints(i)) =>
            ConfigFetch::HasIgnoredLints(d, w, i),
            (ConfigFetch::HasIgnoredLints(d, w, i), FetchReply::LintConfig(l)) =>
            ConfigFetch::HasLintConfig(d, w, i, l),
            (ConfigFetch::HasLintConfig(d, w, i, l), FetchReply::Integrations(n)) =>
            ConfigFetch::HasIntegrations(d, w, i, l, n),
            (ConfigFetch::HasIntegrations(d, w, i, l, n), FetchReply::DebounceMs(debounce_ms)) =>
            ConfigFetch::Complete(
                Config {
                    dialect: d,
                    mutable_dictionary: w,
                    ignored_lints: i,
                    lint_config: l,
                    integrations: n,
                    debounce_ms,
                    auto_update: true,
                    last_update_check: None,
                },
            ),
            (fetch, _) => fetch,
        };
        Ok(next)
    }
}

/// How far the fetching has come once replies have been taken in, one after the other.
pub open spec fn after_replies<D, W, I, L, N>(
    replies: Seq<FetchReply<D, W, I, L, N>>,
) -> ConfigFetch<D, W, I, L, N>
    decreases replies.len(),
{
    if replies.len() == 0 {
        ConfigFetch::Begun
    } else {
        after_reply(after_replies(replies.drop_last()), replies.last())
    }
}

/// Six replies complete the settings, with each answer in its place: those to the requests for
/// the dialect, the dictionary, the ignored lints, the lint rules, the integrations and the
/// pause in typing, which are sent in this order.
pub proof fn law_six_replies_complete<D, W, I, L, N>(
    dialect: D,
    dictionary: W,
    ignored_lints: I,
    lint_config: L,
    integrations: Vec<N>,
    debounce_ms: u64,
)
    ensures
        ({
            let replies = seq![
                FetchReply::<D, W, I, L, N>::Dialect(dialect),
                FetchReply::Dictionary(dictionary),
                FetchReply::IgnoredLints(ignored_lints),
                FetchReply::LintConfig(lint_config),
                FetchReply::Integrations(integrations),
                FetchReply::DebounceMs(debounce_ms),
            ];
            &&& forall|k: int|
                0 <= k < 6 ==> {
                    let request = pending(#[trigger] after_replies(replies.take(k)));
                    request is Some && answers(replies[k], request->0)
                }
            &&& after_replies(replies) == ConfigFetch::Complete(
                fetched(
                    dialect,
                    dictionary,
                    ignored_lints,
                    lint_config,
                    integrations,
                    debounce_ms,
                ),
            )
        }),
{
    let replies = seq![
        FetchReply::<D, W, I, L, N>::Dialect(dialect),
        FetchReply::Dictionary(dictionary),
        FetchReply::IgnoredLints(ignored_lints),
        FetchReply::LintConfig(lint_config),
        FetchReply::Integrations(integrations),
        FetchReply::DebounceMs(debounce_ms),
    ];
    assert(after_replies(replies.take(0)) is Begun);
    assert(replies.take(1).drop_last() == replies.take(0));
    assert(after_replies(replies.take(1)) == ConfigFetch::<D, W, I, L, N>::HasDialect(dialect));
    assert(replies.take(2).drop_last() == replies.take(1));
    assert(after_replies(replies.take(2)) == ConfigFetch::<D, W, I, L, N>::HasDictionary(
        dialect,
        dictionary,
    ));
    assert(replies.take(3).drop_last() == replies.take(2));
    assert(replies.take(4).drop_last() == replies.take(3));
    assert(replies.take(5).drop_last() == replies.take(4));
    assert(replies.take(6).drop_last() == replies.take(5));
    assert(replies.take(6) == replies);
    assert(after_replies(replies.take(3)) is HasIgnoredLints);
    assert(after_replies(replies.take(4)) is HasLintConfig);
    assert(after_replies(replies.take(5)) is HasIntegrations);
}

/// A reply to the pending request takes the fetch one step further; there are six steps.
pub proof fn law_each_answer_is_progress<D, W, I, L, N>(
    fetch: ConfigFetch<D, W, I, L, N>,
    reply: FetchReply<D, W, I, L, N>,
)
    requires
        pending(fetch) is Some,
        answers(reply, pending(fetch)->0),
    ensures
        steps_left(after_reply(fetch, reply)) == steps_left(fetch) - 1,
{
}

/// The number of answers that the settings still lack.
pub open spec fn steps_left<D, W, I, L, N>(fetch: ConfigFetch<D, W, I, L, N>) -> int {
    match fetch {
        ConfigFetch::Begun => 6,
        ConfigFetch::HasDialect(..) => 5,
        ConfigFetch::HasDictionary(..) => 4,
        ConfigFetch::HasIgnoredLints(..) => 3,
        ConfigFetch::HasLintConfig(..) => 2,
        ConfigFetch::HasIntegrations(..) => 1,
        ConfigFetch::Complete(_) => 0,
    }
}

/// The settings that are fetched are the six values that the protocol answered with, each in its
/// own place and as it was sent, whatever they are; updates are installed unasked, and none was
/// looked for yet.
pub proof fn law_fetched_settings_are_the_replies<D, W, I, L, N>(
    dialect: D,
    dictionary: W,
    ignored_lints: I,
    lint_config: L,
    integrations: Vec<N>,
    debounce_ms: u64,
)
    ensures
        ({
            let begun = ConfigFetch::<D, W, I, L, N>::Begun;
            let one = after_reply(begun, FetchReply::Dialect(dialect));
            let two = after_reply(one, FetchReply::Dictionary(dictionary));
            let three = after_reply(two, FetchReply::IgnoredLints(ignored_lints));
            let four = after_reply(three, FetchReply::LintConfig(lint_config));
            let five = after_reply(four, FetchReply::Integrations(integrations));
            let six = after_reply(five, FetchReply::DebounceMs(debounce_ms));
            &&& pending(begun) == Some(FetchRequest::Dialect)
            &&& pending(one) == Some(FetchRequest::Dictionary)
            &&& pending(two) == Some(FetchRequest::IgnoredLints)
            &&& pending(three) == Some(FetchRequest::LintConfig)
            &&& pending(four) == Some(FetchRequest::Integrations)
            &&& pending(five) == Some(FetchRequest::DebounceMs)
            &&& pending(six) is None
            &&& six is Complete
            &&& six->Complete_0.dialect == dialect
            &&& six->Complete_0.mutable_dictionary == dictionary
            &&& six->Complete_0.ignored_lints == ignored_lints
            &&& six->Complete_0.lint_config == lint_config
            &&& six->Complete_0.integrations == integrations
            &&& six->Complete_0.debounce_ms == debounce_ms
            &&& six->Complete_0.auto_update
            &&& six->Complete_0.last_update_check is None
        }),
{
}

/// Each stage of a fetch keeps what was answered before it and adds the answer to its own
/// request; a reply to any other request changes nothing, and neither does one that comes after
/// the end.
pub proof fn law_replies_are_kept_apart<D, W, I, L, N>(
    fetch: ConfigFetch<D, W, I, L, N>,
    reply: FetchReply<D, W, I, L, N>,
)
    ensures
        match fetch {
            ConfigFetch::Begun => if reply is Dialect {
                after_reply(fetch, reply) == ConfigFetch::<D, W, I, L, N>::HasDialect(
                    reply->Dialect_0,
                )
            } else {
                after_reply(fetch, reply) == fetch
            },
            ConfigFetch::HasDialect(d) => if reply is Dictionary {
                after_reply(fetch, reply) == ConfigFetch::<D, W, I, L, N>::HasDictionary(
                    d,
                    reply->Dictionary_0,
                )
            } else {
                after_reply(fetch, reply) == fetch
            },
            ConfigFetch::HasDictionary(d, w) => if reply is IgnoredLints {
                after_reply(fetch, reply) == ConfigFetch::<D, W, I, L, N>::HasIgnoredLints(
                    d,
                    w,
                    reply->IgnoredLints_0,
                )
            } else {
                after_reply(fetch, reply) == fetch
            },
            ConfigFetch::HasIgnoredLints(d, w, i) => if reply is LintConfig {
                after_reply(fetch, reply) == ConfigFetch::<D, W, I, L, N>::HasLintConfig(
                    d,
                    w,
                    i,
                    reply->LintConfig_0,
                )
            } else {
                after_reply(fetch, reply) == fetch
            },
            ConfigFetch::HasLintConfig(d, w, i, l) => if reply is Integrations {
                after_reply(fetch, reply) == ConfigFetch::<D, W, I, L, N>::HasIntegrations(
                    d,
                    w,
                    i,
                    l,
                    reply->Integrations_0,
                )
            } else {
                after_reply(fetch, reply) == fetch
            },
            ConfigFetch::HasIntegrations(..) => !(reply is DebounceMs) ==> after_reply(fetch, reply)
                == fetch,
            ConfigFetch::Complete(_) => after_reply(fetch, reply) == fetch,
        },
{
}

} // verus!
