use vstd::prelude::*;
use crate::error::{kind_of, EmitError, ErrorKind};
use crate::options::{bundle_type_of, EmitArgs, LogLevel};
use crate::provider::{lookup, provider_for, request_of, Grant, SourceProvider, SourceRequest};
use crate::session::{next, starts, Action, EmitOutput, EmitSession, Event};

verus! {

/// `actions` is what the session `s` asks for, one for each of `events`,
/// until it is over or is told something it does not wait for.
pub open spec fn runs<D>(s: EmitSession, events: Seq<Event<D>>, actions: Seq<Action<D>>) -> bool
    decreases events.len(),
{
    if events.len() == 0 || !s.awaits(events[0]) {
        actions.len() == 0
    } else {
        &&& actions.len() > 0
        &&& exists|t: EmitSession| #[trigger] next(s, events[0], t, actions[0])
            && runs(t, events.drop_first(), actions.drop_first())
    }
}

/// `actions` is what a request asks for: the first at its start, then one for
/// each of `events`.
pub open spec fn serves<D>(
    args: EmitArgs,
    unstable: bool,
    level: Option<LogLevel>,
    events: Seq<Event<D>>,
    actions: Seq<Action<D>>,
) -> bool {
    &&& actions.len() > 0
    &&& exists|s: EmitSession| #[trigger] starts(args, unstable, level, s, actions[0])
        && runs(s, events, actions.drop_first())
}

/// A session that is over asks for nothing more.
proof fn lemma_over_runs_nothing<D>(s: EmitSession, events: Seq<Event<D>>, actions: Seq<Action<D>>)
    requires
        s.phase is Failed || s.phase is Done,
        runs(s, events, actions),
    ensures
        actions.len() == 0,
{
}

/// Only a session resolving the import map's path asks for it to be fetched.
proof fn lemma_fetch_only_from_path<D>(s: EmitSession, events: Seq<Event<D>>, actions: Seq<Action<D>>)
    requires
        !(s.phase is ResolvingImportMapPath),
        runs(s, events, actions),
    ensures
        forall|i: int| 0 <= i < actions.len() ==> !(#[trigger] actions[i] is FetchImportMap),
    decreases events.len(),
{
    if events.len() > 0 && s.awaits(events[0]) {
        let t = choose|t: EmitSession| #[trigger] next(s, events[0], t, actions[0])
            && runs(t, events.drop_first(), actions.drop_first());
        lemma_fetch_only_from_path(t, events.drop_first(), actions.drop_first());
        assert forall|i: int| 0 <= i < actions.len() implies !(#[trigger] actions[i] is FetchImportMap) by {
            if i > 0 {
                assert(actions[i] == actions.drop_first()[i - 1]);
            }
        }
    }
}

/// A session on the caller's own sources never asks for a fetch.
proof fn lemma_memory_never_fetches<D>(s: EmitSession, events: Seq<Event<D>>, actions: Seq<Action<D>>)
    requires
        s.provider matches Some(SourceProvider::Memory { .. }),
        runs(s, events, actions),
    ensures
        forall|i: int| 0 <= i < actions.len() ==> !(#[trigger] actions[i] is FetchImportMap),
    decreases events.len(),
{
    if events.len() > 0 && s.awaits(events[0]) {
        let t = choose|t: EmitSession| #[trigger] next(s, events[0], t, actions[0])
            && runs(t, events.drop_first(), actions.drop_first());
        lemma_memory_never_fetches(t, events.drop_first(), actions.drop_first());
        assert forall|i: int| 0 <= i < actions.len() implies !(#[trigger] actions[i] is FetchImportMap) by {
            if i > 0 {
                assert(actions[i] == actions.drop_first()[i - 1]);
            }
        }
    }
}

/// Every emission a session asks for is set up as the session was.
proof fn lemma_emit_as_configured<D>(s: EmitSession, events: Seq<Event<D>>, actions: Seq<Action<D>>)
    requires
        runs(s, events, actions),
    ensures
        forall|i: int| 0 <= i < actions.len() && #[trigger] actions[i] is Emit ==> {
            &&& actions[i]->Emit_options.bundle_type == s.bundle_type
            &&& actions[i]->Emit_options.check == s.check
            &&& actions[i]->Emit_options.debug == s.debug
            &&& actions[i]->Emit_options.maybe_user_config == s.compiler_options
        },
    decreases events.len(),
{
    if events.len() > 0 && s.awaits(events[0]) {
        let t = choose|t: EmitSession| #[trigger] next(s, events[0], t, actions[0])
            && runs(t, events.drop_first(), actions.drop_first());
        lemma_emit_as_configured(t, events.drop_first(), actions.drop_first());
        assert forall|i: int| 0 <= i < actions.len() && #[trigger] actions[i] is Emit implies {
            &&& actions[i]->Emit_options.bundle_type == s.bundle_type
            &&& actions[i]->Emit_options.check == s.check
            &&& actions[i]->Emit_options.debug == s.debug
            &&& actions[i]->Emit_options.maybe_user_config == s.compiler_options
        } by {
            if i > 0 {
                assert(actions[i] == actions.drop_first()[i - 1]);
            }
        }
    }
}

/// Every root a session adds is added as a static import.
proof fn lemma_root_added_static<D>(s: EmitSession, events: Seq<Event<D>>, actions: Seq<Action<D>>)
    requires
        runs(s, events, actions),
    ensures
        forall|i: int| 0 <= i < actions.len() && #[trigger] actions[i] is AddRoot ==> !actions[i]->AddRoot_is_dynamic,
    decreases events.len(),
{
    if events.len() > 0 && s.awaits(events[0]) {
        let t = choose|t: EmitSession| #[trigger] next(s, events[0], t, actions[0])
            && runs(t, events.drop_first(), actions.drop_first());
        lemma_root_added_static(t, events.drop_first(), actions.drop_first());
        assert forall|i: int| 0 <= i < actions.len() && #[trigger] actions[i] is AddRoot implies !actions[i]->AddRoot_is_dynamic by {
            if i > 0 {
                assert(actions[i] == actions.drop_first()[i - 1]);
            }
        }
    }
}

/// With the caller's own sources, a specifier among them is served from them,
/// any other is missing, and none is ever fetched.
pub proof fn law_sources_are_not_fetched(sources: Vec<(String, String)>, specifier: String, is_dynamic: bool)
    ensures
        request_of(provider_for(Some(sources)), specifier, is_dynamic) == match lookup(sources@, specifier@) {
            Some(text) => SourceRequest::Found(text),
            None => SourceRequest::Missing,
        },
        !(request_of(provider_for(Some(sources)), specifier, is_dynamic) is Fetch),
{
}

/// A request that brings its own sources never asks for anything to be
/// fetched, the import map included.
pub proof fn law_sources_request_fetches_nothing<D>(
    args: EmitArgs,
    level: Option<LogLevel>,
    events: Seq<Event<D>>,
    actions: Seq<Action<D>>,
)
    requires
        args.sources is Some,
        serves(args, true, level, events, actions),
    ensures
        forall|i: int| 0 <= i < actions.len() ==> !(#[trigger] actions[i] is FetchImportMap),
{
    let s = choose|s: EmitSession| #[trigger] starts(args, true, level, s, actions[0])
        && runs(s, events, actions.drop_first());
    lemma_memory_never_fetches(s, events, actions.drop_first());
    assert forall|i: int| 0 <= i < actions.len() implies !(#[trigger] actions[i] is FetchImportMap) by {
        if i > 0 {
            assert(actions[i] == actions.drop_first()[i - 1]);
        }
    }
}

/// An inline import map without its path fails the request at its start, as
/// a configuration error, whatever else the request holds.
pub proof fn law_import_map_needs_path<D>(
    args: EmitArgs,
    level: Option<LogLevel>,
    events: Seq<Event<D>>,
    actions: Seq<Action<D>>,
)
    requires
        args.import_map is Some,
        args.import_map_path is None,
        serves(args, true, level, events, actions),
    ensures
        actions.len() == 1,
        actions[0] == Action::<D>::Fail(EmitError::ImportMapWithoutPath),
        kind_of(EmitError::ImportMapWithoutPath) == ErrorKind::Configuration,
{
    let s = choose|s: EmitSession| #[trigger] starts(args, true, level, s, actions[0])
        && runs(s, events, actions.drop_first());
    lemma_over_runs_nothing(s, events, actions.drop_first());
}

/// An inline import map with its path is parsed as given: it is never fetched.
pub proof fn law_inline_import_map_is_not_fetched<D>(
    args: EmitArgs,
    level: Option<LogLevel>,
    events: Seq<Event<D>>,
    actions: Seq<Action<D>>,
)
    requires
        args.import_map is Some,
        args.import_map_path is Some,
        serves(args, true, level, events, actions),
    ensures
        forall|i: int| 0 <= i < actions.len() ==> !(#[trigger] actions[i] is FetchImportMap),
{
    let s = choose|s: EmitSession| #[trigger] starts(args, true, level, s, actions[0])
        && runs(s, events, actions.drop_first());
    let rest = actions.drop_first();
    if events.len() > 0 && s.awaits(events[0]) {
        let t = choose|t: EmitSession| #[trigger] next(s, events[0], t, rest[0])
            && runs(t, events.drop_first(), rest.drop_first());
        lemma_fetch_only_from_path(t, events.drop_first(), rest.drop_first());
        assert forall|i: int| 0 <= i < actions.len() implies !(#[trigger] actions[i] is FetchImportMap) by {
            if i > 1 {
                assert(actions[i] == rest.drop_first()[i - 2]);
            }
        }
    }
}

/// An import map given by its path alone, with no sources of the caller's, is
/// fetched exactly once, as soon as its path is resolved, and its text is what
/// is parsed. Where the fetch fails, the request ends there with an import
/// map error, before any graph is built.
pub proof fn law_import_map_path_is_fetched_once<D>(
    args: EmitArgs,
    level: Option<LogLevel>,
    events: Seq<Event<D>>,
    actions: Seq<Action<D>>,
)
    requires
        args.import_map is None,
        args.import_map_path is Some,
        args.sources is None,
        serves(args, true, level, events, actions),
    ensures
        forall|i: int| 0 <= i < actions.len() && i != 1 ==> !(#[trigger] actions[i] is FetchImportMap),
        events.len() > 0 ==> (events[0] matches Event::Resolved(Ok(specifier)) ==> {
            &&& actions.len() > 1
            &&& actions[1] == (Action::<D>::FetchImportMap { specifier, grant: Grant::Runtime })
            &&& events.len() > 1 ==> (events[1] matches Event::Fetched(Ok(text)) ==>
                actions.len() > 2 && actions[2] == (Action::<D>::LoadImportMap { specifier, json: text }))
            &&& events.len() > 1 ==> (events[1] matches Event::Fetched(Err(cause)) ==> {
                &&& actions.len() == 3
                &&& actions[2] == Action::<D>::Fail(EmitError::ImportMapLoad { specifier, cause })
                &&& kind_of(EmitError::ImportMapLoad { specifier, cause }) == ErrorKind::ImportMap
            })
        }),
{
    let s = choose|s: EmitSession| #[trigger] starts(args, true, level, s, actions[0])
        && runs(s, events, actions.drop_first());
    let rest = actions.drop_first();
    if events.len() > 0 && s.awaits(events[0]) {
        let t = choose|t: EmitSession| #[trigger] next(s, events[0], t, rest[0])
            && runs(t, events.drop_first(), rest.drop_first());
        let ev = events.drop_first();
        let rest2 = rest.drop_first();
        if ev.len() > 0 && t.awaits(ev[0]) {
            let u = choose|u: EmitSession| #[trigger] next(t, ev[0], u, rest2[0])
                && runs(u, ev.drop_first(), rest2.drop_first());
            lemma_fetch_only_from_path(u, ev.drop_first(), rest2.drop_first());
            if u.phase is Failed {
                lemma_over_runs_nothing(u, ev.drop_first(), rest2.drop_first());
            }
            assert forall|i: int| 0 <= i < actions.len() && i != 1 implies !(#[trigger] actions[i] is FetchImportMap) by {
                if i > 2 {
                    assert(actions[i] == rest2.drop_first()[i - 3]);
                }
                if i == 2 {
                    assert(actions[i] == rest2[0]);
                }
            }
        } else {
            lemma_fetch_only_from_path(t, ev, rest2);
            if t.phase is Failed {
                lemma_over_runs_nothing(t, ev, rest2);
            }
            assert forall|i: int| 0 <= i < actions.len() && i != 1 implies !(#[trigger] actions[i] is FetchImportMap) by {
                if i > 1 {
                    assert(actions[i] == rest2[i - 2]);
                }
            }
        }
    }
}

/// The root is held to the runtime's permissions, as a dynamic import is,
/// where the caller brings no sources; with sources it is never fetched, so
/// no permission is checked at all.
pub proof fn law_root_permissions(sources: Option<Vec<(String, String)>>, specifier: String)
    ensures
        sources is None ==> request_of(provider_for(sources), specifier, false)
            == (SourceRequest::Fetch { specifier, grant: Grant::Runtime }),
        sources is None ==> request_of(provider_for(sources), specifier, false)
            == request_of(provider_for(sources), specifier, true),
        sources is Some ==> !(request_of(provider_for(sources), specifier, false) is Fetch),
{
}

/// A request adds its root to the graph as a static import: the stricter
/// check is applied by the provider's grant, not by the graph.
pub proof fn law_root_added_as_static<D>(
    args: EmitArgs,
    unstable: bool,
    level: Option<LogLevel>,
    events: Seq<Event<D>>,
    actions: Seq<Action<D>>,
)
    requires
        serves(args, unstable, level, events, actions),
    ensures
        forall|i: int| 0 <= i < actions.len() && #[trigger] actions[i] is AddRoot ==> !actions[i]->AddRoot_is_dynamic,
{
    let s = choose|s: EmitSession| #[trigger] starts(args, unstable, level, s, actions[0])
        && runs(s, events, actions.drop_first());
    lemma_root_added_static(s, events, actions.drop_first());
    assert forall|i: int| 0 <= i < actions.len() && #[trigger] actions[i] is AddRoot implies !actions[i]->AddRoot_is_dynamic by {
        if i > 0 {
            assert(actions[i] == actions.drop_first()[i - 1]);
        }
    }
}

/// The graph's errors come after the emission's diagnostics in the result,
/// both in their own order.
pub proof fn law_graph_errors_follow<D>(s: EmitSession, out: EmitOutput<D>, t: EmitSession, a: Action<D>)
    requires
        s.phase is Emitting,
        next(s, Event::Emitted(Ok(out)), t, a),
    ensures
        a is Finish,
        a->Finish_0.diagnostics@ == out.diagnostics@ + out.graph_errors@,
        t.phase is Done,
{
}

/// The emission is set up as the request asked: its bundle mode maps one to
/// one from the caller's, with none meaning no bundling; type checking is on
/// unless turned off; the compiler options are the caller's own.
pub proof fn law_emit_follows_request<D>(
    args: EmitArgs,
    level: Option<LogLevel>,
    events: Seq<Event<D>>,
    actions: Seq<Action<D>>,
)
    requires
        serves(args, true, level, events, actions),
    ensures
        forall|i: int| 0 <= i < actions.len() && #[trigger] actions[i] is Emit ==> {
            &&& actions[i]->Emit_options.bundle_type == bundle_type_of(args.bundle)
            &&& actions[i]->Emit_options.check == (args.check != Some(false))
            &&& actions[i]->Emit_options.debug == (level == Some(LogLevel::Debug))
            &&& actions[i]->Emit_options.maybe_user_config == args.compiler_options
        },
{
    let s = choose|s: EmitSession| #[trigger] starts(args, true, level, s, actions[0])
        && runs(s, events, actions.drop_first());
    lemma_emit_as_configured(s, events, actions.drop_first());
    assert forall|i: int| 0 <= i < actions.len() && #[trigger] actions[i] is Emit implies {
        &&& actions[i]->Emit_options.bundle_type == bundle_type_of(args.bundle)
        &&& actions[i]->Emit_options.check == (args.check != Some(false))
        &&& actions[i]->Emit_options.debug == (level == Some(LogLevel::Debug))
        &&& actions[i]->Emit_options.maybe_user_config == args.compiler_options
    } by {
        if i > 0 {
            assert(actions[i] == actions.drop_first()[i - 1]);
        }
    }
}

/// Without the unstable APIs the request fails at once: no provider is
/// chosen, and nothing is resolved, fetched or built.
pub proof fn law_unstable_check_comes_first<D>(
    args: EmitArgs,
    level: Option<LogLevel>,
    s: EmitSession,
    events: Seq<Event<D>>,
    actions: Seq<Action<D>>,
)
    requires
        actions.len() > 0,
        starts(args, false, level, s, actions[0]),
        runs(s, events, actions.drop_first()),
    ensures
        s.provider is None,
        actions.len() == 1,
        actions[0] == Action::<D>::Fail(EmitError::FeatureDisabled),
        kind_of(EmitError::FeatureDisabled) == ErrorKind::FeatureDisabled,
{
    lemma_over_runs_nothing(s, events, actions.drop_first());
}

} // verus!
