//! The event dispatcher: from one inbound event to the plugins that are
//! invoked for it, and from their outcomes to what is logged.
//!
//! The dispatcher never waits on a network itself. It is a state machine:
//! [`begin`] and [`step`] say what to do next, the caller does it and hands
//! the result back.

use crate::event::Event;
use crate::plugin_config::{lemma_resolve_is_ordered_set, lemma_resolve_selects_enabled};
use crate::plugin_config::{distinct, PluginConfig, PluginHandle};
use vstd::prelude::*;

verus! {

/// A failure that one plugin reported for one event.
#[derive(Debug, PartialEq, Eq)]
pub struct Failure<E> {
    pub plugin: &'static str,
    pub error: E,
}

/// What the dispatcher notes, at low severity, about an event it drops.
#[derive(Clone, Copy, PartialEq, Eq, Structural, Debug)]
pub enum Note {
    /// A shard reported that it connected.
    Connected,
    /// The event is of a kind the worker has no use for.
    UnknownKind,
}

/// Where the dispatch of one event stands.
#[derive(Debug, PartialEq, Eq)]
pub enum DispatchState {
    /// The enablement store has been asked which plugins the guild enabled.
    Resolving { guild: u64 },
    /// The named plugins are running; their outcomes are awaited.
    Invoking { guild: u64, names: Vec<&'static str> },
    /// Nothing is left to do for the event.
    Finished,
}

/// What the caller hands back to the dispatcher.
pub enum DispatchInput<E> {
    /// The answer of the enablement store: the enabled names, or `None`
    /// where the lookup failed.
    Enablement(Option<Vec<String>>),
    /// The outcome of each invoked plugin, in the order of the invocation list.
    Outcomes(Vec<Result<(), E>>),
}

/// What the dispatcher asks the caller to do.
pub enum DispatchAction<E> {
    /// Drop the event; write the note, if there is one.
    Ignore { note: Option<Note> },
    /// Ask the enablement store for the plugins enabled for `guild`.
    Lookup { guild: u64 },
    /// Invoke the reactive handler of every listed plugin, all at once and
    /// each with its own copy of the event, then hand back the outcomes.
    /// Where `lookup_failed`, warn that the enablement of `guild` could not
    /// be read.
    Invoke { guild: u64, plugins: Vec<PluginHandle>, lookup_failed: bool },
    /// Log each failure under its plugin's name. Nothing is retried.
    Report { failures: Vec<Failure<E>>, succeeded: Vec<&'static str> },
    /// The input does not belong to the state: do nothing.
    Nothing,
}

/// The note that is written when `event` is dropped.
pub open spec fn note_of(event: Event) -> Option<Note> {
    match event {
        Event::ShardConnected => Some(Note::Connected),
        Event::Other => Some(Note::UnknownKind),
        _ => None,
    }
}

/// The failures among `outcomes`, each under the name of the plugin at the
/// same position, in invocation order.
pub open spec fn failures_of<E>(names: Seq<&'static str>, outcomes: Seq<Result<(), E>>) -> Seq<
    Failure<E>,
>
    decreases outcomes.len(),
{
    if outcomes.len() == 0 {
        Seq::empty()
    } else {
        let earlier = failures_of(names.drop_last(), outcomes.drop_last());
        match outcomes.last() {
            Err(error) => earlier.push(Failure { plugin: names.last(), error }),
            Ok(_) => earlier,
        }
    }
}

/// The names of the plugins that succeeded, in invocation order.
pub open spec fn successes_of<E>(names: Seq<&'static str>, outcomes: Seq<Result<(), E>>) -> Seq<
    &'static str,
>
    decreases outcomes.len(),
{
    if outcomes.len() == 0 {
        Seq::empty()
    } else {
        let earlier = successes_of(names.drop_last(), outcomes.drop_last());
        match outcomes.last() {
            Err(_) => earlier,
            Ok(_) => earlier.push(names.last()),
        }
    }
}

/// The invocations with their outcomes, pair by pair.
pub open spec fn runs<E>(names: Seq<&'static str>, outcomes: Seq<Result<(), E>>) -> Seq<
    (&'static str, Result<(), E>),
> {
    Seq::new(outcomes.len(), |i: int| (names[i], outcomes[i]))
}

/// What [`begin`] answers for `event`.
pub open spec fn begins<E>(event: Event, state: DispatchState, action: DispatchAction<E>) -> bool {
    match event.spec_scope() {
        Some(guild) => {
            &&& state == DispatchState::Resolving { guild }
            &&& action == DispatchAction::<E>::Lookup { guild }
        },
        None => {
            &&& state == DispatchState::Finished
            &&& action == DispatchAction::<E>::Ignore { note: note_of(event) }
        },
    }
}

/// The transition relation of the dispatcher: from `pre`, on `input`, it
/// moves to `post` and asks for `action`.
pub open spec fn steps<E>(
    config: PluginConfig,
    pre: DispatchState,
    input: DispatchInput<E>,
    post: DispatchState,
    action: DispatchAction<E>,
) -> bool {
    match (pre, input) {
        (DispatchState::Resolving { guild }, DispatchInput::Enablement(enabled)) => {
            &&& post matches DispatchState::Invoking { guild: post_guild, names }
            &&& post_guild == guild
            &&& names@.len() == config.selected(enabled).len()
            &&& forall|k: int|
                0 <= k < names@.len() ==> (#[trigger] names@[k])@ == config.selected(
                    enabled,
                )[k].spec_name()
            &&& action matches DispatchAction::Invoke { guild: asked, plugins, lookup_failed }
            &&& asked == guild
            &&& plugins@ == config.selected(enabled)
            &&& lookup_failed == (enabled is None)
        },
        (DispatchState::Invoking { guild, names }, DispatchInput::Outcomes(outcomes)) => {
            if names@.len() == outcomes@.len() {
                &&& post == DispatchState::Finished
                &&& action matches DispatchAction::Report { failures, succeeded }
                &&& failures@ == failures_of(names@, outcomes@)
                &&& succeeded@ == successes_of(names@, outcomes@)
            } else {
                post == pre && action == DispatchAction::<E>::Nothing
            }
        },
        _ => post == pre && action == DispatchAction::<E>::Nothing,
    }
}

/// A run of the dispatcher for `event`: `states[0]` and `actions[0]` are what
/// [`begin`] answers, and each input leads from one state to the next.
pub open spec fn is_run<E>(
    config: PluginConfig,
    event: Event,
    states: Seq<DispatchState>,
    inputs: Seq<DispatchInput<E>>,
    actions: Seq<DispatchAction<E>>,
) -> bool {
    &&& states.len() == inputs.len() + 1
    &&& actions.len() == states.len()
    &&& begins(event, states[0], actions[0])
    &&& forall|k: int|
        0 <= k < inputs.len() ==> steps(
            config,
            #[trigger] states[k],
            inputs[k],
            states[k + 1],
            actions[k + 1],
        )
}

/// An event without a guild reaches no plugin: whatever is handed to the
/// dispatcher afterwards, it never asks for a lookup or an invocation.
pub proof fn lemma_unscoped_event_invokes_nothing<E>(
    config: PluginConfig,
    event: Event,
    states: Seq<DispatchState>,
    inputs: Seq<DispatchInput<E>>,
    actions: Seq<DispatchAction<E>>,
)
    requires
        event.spec_scope() is None,
        is_run(config, event, states, inputs, actions),
    ensures
        forall|k: int|
            0 <= k < actions.len() ==> !(#[trigger] actions[k] is Invoke) && !(actions[k]
                is Lookup),
        forall|k: int| 0 <= k < states.len() ==> #[trigger] states[k] is Finished,
{
    lemma_unscoped_prefix(config, event, states, inputs, actions, inputs.len() as int);
}

proof fn lemma_unscoped_prefix<E>(
    config: PluginConfig,
    event: Event,
    states: Seq<DispatchState>,
    inputs: Seq<DispatchInput<E>>,
    actions: Seq<DispatchAction<E>>,
    upto: int,
)
    requires
        event.spec_scope() is None,
        is_run(config, event, states, inputs, actions),
        0 <= upto <= inputs.len(),
    ensures
        forall|k: int|
            0 <= k <= upto ==> !(#[trigger] actions[k] is Invoke) && !(actions[k] is Lookup),
        forall|k: int| 0 <= k <= upto ==> #[trigger] states[k] is Finished,
    decreases upto,
{
    if upto > 0 {
        lemma_unscoped_prefix(config, event, states, inputs, actions, upto - 1);
        assert(states[upto - 1] is Finished);
        assert(steps(config, states[upto - 1], inputs[upto - 1], states[upto], actions[upto]));
    }
}

/// Every plugin is invoked at most once for an event, and only for the
/// guild that owns the event: a run holds at most one invocation, it answers
/// a lookup for that guild, and the plugins it names are those that the
/// answer selects.
pub proof fn lemma_single_invocation<E>(
    config: PluginConfig,
    event: Event,
    states: Seq<DispatchState>,
    inputs: Seq<DispatchInput<E>>,
    actions: Seq<DispatchAction<E>>,
)
    requires
        is_run(config, event, states, inputs, actions),
    ensures
        forall|j: int, k: int|
            0 <= j < k < actions.len() ==> !(#[trigger] actions[j] is Invoke
                && #[trigger] actions[k] is Invoke),
        forall|k: int|
            0 <= k < actions.len() && #[trigger] actions[k] is Invoke ==> {
                &&& k > 0
                &&& inputs[k - 1] is Enablement
                &&& event.spec_scope() == Some(actions[k]->Invoke_guild)
                &&& actions[k]->plugins@ == config.selected(inputs[k - 1]->Enablement_0)
            },
{
    assert forall|k: int| 0 <= k < actions.len() && #[trigger] actions[k] is Invoke implies {
        &&& k > 0
        &&& inputs[k - 1] is Enablement
        &&& event.spec_scope() == Some(actions[k]->Invoke_guild)
        &&& actions[k]->plugins@ == config.selected(inputs[k - 1]->Enablement_0)
    } by {
        assert(k > 0);
        assert(steps(config, states[k - 1], inputs[k - 1], states[k], actions[k]));
        lemma_resolving_from_the_start(config, event, states, inputs, actions, k - 1, 0);
    }
    assert forall|j: int, k: int| 0 <= j < k < actions.len() implies !(#[trigger] actions[j]
        is Invoke && #[trigger] actions[k] is Invoke) by {
        if actions[j] is Invoke && actions[k] is Invoke {
            assert(steps(config, states[j - 1], inputs[j - 1], states[j], actions[j]));
            assert(steps(config, states[k - 1], inputs[k - 1], states[k], actions[k]));
            assert(states[j] is Invoking);
            lemma_resolving_from_the_start(config, event, states, inputs, actions, k - 1, j);
        }
    }
}

/// Nothing is delivered twice and nothing is lost: where every plugin is
/// registered under a name of its own and the enablement store answers with
/// a set of names, the fan-out reaches each registered plugin whose name is
/// in the set exactly once, and no other plugin.
pub proof fn lemma_fan_out_is_exact<E>(
    config: PluginConfig,
    guild: u64,
    names: Vec<String>,
    post: DispatchState,
    action: DispatchAction<E>,
)
    requires
        config.well_formed(),
        distinct(names.deep_view()),
        steps(
            config,
            DispatchState::Resolving { guild },
            DispatchInput::<E>::Enablement(Some(names)),
            post,
            action,
        ),
    ensures
        action is Invoke,
        action->plugins@.len() == config.selection(Some(names)).len(),
        forall|i: int|
            0 <= i < config.plugins@.len() ==> (names.deep_view().contains(
                #[trigger] config.names()[i],
            ) <==> config.selection(Some(names)).contains(i)),
        forall|a: int, b: int|
            0 <= a < b < config.selection(Some(names)).len() ==> config.selection(Some(names))[a]
                != config.selection(Some(names))[b],
        forall|k: int|
            0 <= k < action->plugins@.len() ==> 0 <= config.selection(Some(names))[k]
                < config.plugins@.len() && #[trigger] action->plugins@[k]
                == config.plugins@[config.selection(Some(names))[k]],
{
    lemma_resolve_selects_enabled(config.names(), names.deep_view());
    lemma_resolve_is_ordered_set(config.names(), names.deep_view());
}

/// A dispatch that still awaits the enablement has awaited it ever since it
/// began, for the guild of the event.
proof fn lemma_resolving_from_the_start<E>(
    config: PluginConfig,
    event: Event,
    states: Seq<DispatchState>,
    inputs: Seq<DispatchInput<E>>,
    actions: Seq<DispatchAction<E>>,
    at: int,
    before: int,
)
    requires
        is_run(config, event, states, inputs, actions),
        0 <= before <= at < states.len(),
        states[at] is Resolving,
    ensures
        states[before] is Resolving,
        event.spec_scope() == Some(states[at]->Resolving_guild),
    decreases at,
{
    if at > 0 {
        assert(steps(config, states[at - 1], inputs[at - 1], states[at], actions[at]));
        assert(states[at - 1] == states[at]);
        if before < at {
            lemma_resolving_from_the_start(config, event, states, inputs, actions, at - 1, before);
        } else {
            lemma_resolving_from_the_start(config, event, states, inputs, actions, at - 1, at - 1);
        }
    }
}

/// No outcome is lost and none is made up: each failed invocation is among
/// the failures under its plugin's name, each successful one among the
/// successes, whatever the other plugins did.
pub proof fn lemma_every_outcome_is_kept<E>(
    names: Seq<&'static str>,
    outcomes: Seq<Result<(), E>>,
)
    requires
        names.len() == outcomes.len(),
    ensures
        failures_of(names, outcomes).len() + successes_of(names, outcomes).len()
            == outcomes.len(),
        forall|i: int|
            0 <= i < outcomes.len() ==> match #[trigger] outcomes[i] {
                Err(error) => failures_of(names, outcomes).contains(
                    Failure { plugin: names[i], error },
                ),
                Ok(_) => successes_of(names, outcomes).contains(names[i]),
            },
    decreases outcomes.len(),
{
    if outcomes.len() > 0 {
        let earlier_names = names.drop_last();
        let earlier = outcomes.drop_last();
        lemma_every_outcome_is_kept(earlier_names, earlier);
        let failures = failures_of(names, outcomes);
        let successes = successes_of(names, outcomes);
        assert forall|i: int| 0 <= i < outcomes.len() implies match #[trigger] outcomes[i] {
            Err(error) => failures.contains(Failure { plugin: names[i], error }),
            Ok(_) => successes.contains(names[i]),
        } by {
            if i < earlier.len() {
                match earlier[i] {
                    Err(error) => {
                        let wanted = Failure { plugin: earlier_names[i], error };
                        let at = choose|at: int|
                            0 <= at < failures_of(earlier_names, earlier).len() && failures_of(
                                earlier_names,
                                earlier,
                            )[at] == wanted;
                        assert(failures[at] == wanted);
                    },
                    Ok(_) => {
                        let at = choose|at: int|
                            0 <= at < successes_of(earlier_names, earlier).len() && successes_of(
                                earlier_names,
                                earlier,
                            )[at] == earlier_names[i];
                        assert(successes[at] == names[i]);
                    },
                }
            } else {
                match outcomes[i] {
                    Err(error) => {
                        assert(failures[failures.len() - 1] == Failure {
                            plugin: names[i],
                            error,
                        });
                    },
                    Ok(_) => {
                        assert(successes[successes.len() - 1] == names[i]);
                    },
                }
            }
        }
    }
}

/// How often a failure is reported is how often its plugin failed that way.
proof fn lemma_failure_count<E>(
    names: Seq<&'static str>,
    outcomes: Seq<Result<(), E>>,
    failure: Failure<E>,
)
    requires
        names.len() == outcomes.len(),
    ensures
        failures_of(names, outcomes).to_multiset().count(failure) == runs(
            names,
            outcomes,
        ).to_multiset().count((failure.plugin, Err(failure.error))),
    decreases outcomes.len(),
{
    broadcast use vstd::seq_lib::to_multiset_build;

    if outcomes.len() == 0 {
        assert(failures_of(names, outcomes) =~= Seq::empty());
        assert(runs(names, outcomes) =~= Seq::empty());
        Seq::<Failure<E>>::empty().to_multiset_ensures();
        Seq::<(&'static str, Result<(), E>)>::empty().to_multiset_ensures();
    } else {
        let earlier_names = names.drop_last();
        let earlier = outcomes.drop_last();
        lemma_failure_count(earlier_names, earlier, failure);
        assert(runs(names, outcomes) =~= runs(earlier_names, earlier).push(
            (names.last(), outcomes.last()),
        ));
    }
}

/// How often a plugin is listed as succeeded is how often it succeeded.
proof fn lemma_success_count<E>(
    names: Seq<&'static str>,
    outcomes: Seq<Result<(), E>>,
    plugin: &'static str,
)
    requires
        names.len() == outcomes.len(),
    ensures
        successes_of(names, outcomes).to_multiset().count(plugin) == runs(
            names,
            outcomes,
        ).to_multiset().count((plugin, Ok(()))),
    decreases outcomes.len(),
{
    broadcast use vstd::seq_lib::to_multiset_build;

    if outcomes.len() == 0 {
        assert(successes_of(names, outcomes) =~= Seq::empty());
        assert(runs(names, outcomes) =~= Seq::empty());
        Seq::<&'static str>::empty().to_multiset_ensures();
        Seq::<(&'static str, Result<(), E>)>::empty().to_multiset_ensures();
    } else {
        let earlier_names = names.drop_last();
        let earlier = outcomes.drop_last();
        lemma_success_count(earlier_names, earlier, plugin);
        assert(runs(names, outcomes) =~= runs(earlier_names, earlier).push(
            (names.last(), outcomes.last()),
        ));
        match outcomes.last() {
            Ok(unit) => {
                assert(unit == ());
                assert(outcomes.last() == Ok::<(), E>(()));
                assert(successes_of(names, outcomes) == successes_of(earlier_names, earlier).push(
                    names.last(),
                ));
                assert(((names.last(), outcomes.last()) == (plugin, Ok::<(), E>(()))) == (
                    names.last() == plugin));
            },
            Err(_) => {
                assert((names.last(), outcomes.last()) != (plugin, Ok::<(), E>(())));
            },
        }
    }
}

/// Failure isolation does not depend on the order of invocation: two
/// invocation orders that hold the same plugins with the same outcomes
/// report the same failures and the same successes, as multisets.
pub proof fn lemma_report_ignores_order<E>(
    names: Seq<&'static str>,
    outcomes: Seq<Result<(), E>>,
    other_names: Seq<&'static str>,
    other_outcomes: Seq<Result<(), E>>,
)
    requires
        names.len() == outcomes.len(),
        other_names.len() == other_outcomes.len(),
        runs(names, outcomes).to_multiset() == runs(other_names, other_outcomes).to_multiset(),
    ensures
        failures_of(names, outcomes).to_multiset() == failures_of(
            other_names,
            other_outcomes,
        ).to_multiset(),
        successes_of(names, outcomes).to_multiset() == successes_of(
            other_names,
            other_outcomes,
        ).to_multiset(),
{
    assert forall|failure: Failure<E>|
        failures_of(names, outcomes).to_multiset().count(failure) == failures_of(
            other_names,
            other_outcomes,
        ).to_multiset().count(failure) by {
        lemma_failure_count(names, outcomes, failure);
        lemma_failure_count(other_names, other_outcomes, failure);
    }
    assert(failures_of(names, outcomes).to_multiset() =~= failures_of(
        other_names,
        other_outcomes,
    ).to_multiset());
    assert forall|plugin: &'static str|
        successes_of(names, outcomes).to_multiset().count(plugin) == successes_of(
            other_names,
            other_outcomes,
        ).to_multiset().count(plugin) by {
        lemma_success_count(names, outcomes, plugin);
        lemma_success_count(other_names, other_outcomes, plugin);
    }
    assert(successes_of(names, outcomes).to_multiset() =~= successes_of(
        other_names,
        other_outcomes,
    ).to_multiset());
}

/// Pairs each outcome with the plugin that produced it: the failures to be
/// logged and the plugins that succeeded. No outcome is lost, whatever the
/// others are.
pub fn isolate<E>(names: &Vec<&'static str>, outcomes: Vec<Result<(), E>>) -> (report: (
    Vec<Failure<E>>,
    Vec<&'static str>,
))
    requires
        names@.len() == outcomes@.len(),
    ensures
        report.0@ == failures_of(names@, outcomes@),
        report.1@ == successes_of(names@, outcomes@),
{
    let mut failures: Vec<Failure<E>> = Vec::new();
    let mut succeeded: Vec<&'static str> = Vec::new();
    let ghost all = outcomes@;
    let mut rest = outcomes;
    let mut reversed: Vec<Result<(), E>> = Vec::new();
    while rest.len() > 0
        invariant
            rest@.len() + reversed@.len() == all.len(),
            forall|i: int| 0 <= i < rest@.len() ==> rest@[i] == all[i],
            forall|i: int|
                0 <= i < reversed@.len() ==> reversed@[i] == all[all.len() - 1 - i],
        decreases rest@.len(),
    {
        let last = rest.pop().unwrap();
        reversed.push(last);
    }
    let mut k: usize = 0;
    let n = names.len();
    assert(names@.take(0) =~= Seq::empty());
    assert(all.take(0) =~= Seq::empty());
    while reversed.len() > 0
        invariant
            n == all.len(),
            names@.len() == all.len(),
            k + reversed@.len() == all.len(),
            forall|i: int|
                0 <= i < reversed@.len() ==> reversed@[i] == all[all.len() - 1 - i],
            failures@ == failures_of(names@.take(k as int), all.take(k as int)),
            succeeded@ == successes_of(names@.take(k as int), all.take(k as int)),
        decreases reversed@.len(),
    {
        let outcome = reversed.pop().unwrap();
        assert(outcome == all[k as int]);
        assert(names@.take(k as int + 1).drop_last() =~= names@.take(k as int));
        assert(all.take(k as int + 1).drop_last() =~= all.take(k as int));
        match outcome {
            Err(error) => {
                failures.push(Failure { plugin: names[k], error });
            },
            Ok(_) => {
                succeeded.push(names[k]);
            },
        }
        k += 1;
    }
    assert(names@.take(k as int) =~= names@);
    assert(all.take(k as int) =~= all);
    (failures, succeeded)
}

/// Starts the dispatch of `event`, after the shared cache has taken it in.
/// An event without a guild is dropped on the spot; for any other the
/// enablement of its guild is looked up.
pub fn begin<E>(event: &Event) -> (next: (DispatchState, DispatchAction<E>))
    ensures
        begins(*event, next.0, next.1),
{
    match event.scope() {
        Some(guild) => (DispatchState::Resolving { guild }, DispatchAction::Lookup { guild }),
        None => {
            let note = match event {
                Event::ShardConnected => Some(Note::Connected),
                Event::Other => Some(Note::UnknownKind),
                _ => None,
            };
            (DispatchState::Finished, DispatchAction::Ignore { note })
        },
    }
}

/// Advances the dispatch by one input.
pub fn step<E>(config: &PluginConfig, state: DispatchState, input: DispatchInput<E>) -> (next: (
    DispatchState,
    DispatchAction<E>,
))
    ensures
        steps(*config, state, input, next.0, next.1),
{
    match (state, input) {
        (DispatchState::Resolving { guild }, DispatchInput::Enablement(enabled)) => {
            let plugins = config.get_plugins(&enabled);
            let mut names: Vec<&'static str> = Vec::new();
            let mut k: usize = 0;
            while k < plugins.len()
                invariant
                    k <= plugins@.len(),
                    names@.len() == k,
                    forall|a: int|
                        0 <= a < k ==> (#[trigger] names@[a])@ == plugins@[a].spec_name(),
                decreases plugins@.len() - k,
            {
                names.push(plugins[k].name());
                k += 1;
            }
            let lookup_failed = enabled.is_none();
            (
                DispatchState::Invoking { guild, names },
                DispatchAction::Invoke { guild, plugins, lookup_failed },
            )
        },
        (DispatchState::Invoking { guild, names }, DispatchInput::Outcomes(outcomes)) => {
            if names.len() == outcomes.len() {
                let (failures, succeeded) = isolate(&names, outcomes);
                (DispatchState::Finished, DispatchAction::Report { failures, succeeded })
            } else {
                (DispatchState::Invoking { guild, names }, DispatchAction::Nothing)
            }
        },
        (state, _) => (state, DispatchAction::Nothing),
    }
}

} // verus!
