use vstd::prelude::*;
use vstd::string::StringExecFns;
use crate::error::EmitError;
use crate::options::{bundle_type, bundle_type_of, check_enabled, debug_enabled, BundleType, EmitArgs, EmitOptions, LogLevel};
use crate::provider::{provider_for, request_of, select_provider, Grant, SourceProvider, SourceRequest};

verus! {

/// Where a request stands. The pipeline only moves forward; any failure
/// ends it in `Failed`.
pub enum Phase {
    /// Waiting for the import map's path to be resolved to a specifier.
    ResolvingImportMapPath { path: String },
    /// Waiting for the import map's text to be fetched.
    FetchingImportMap { specifier: String },
    /// Waiting for the import map to be parsed.
    LoadingImportMap,
    /// Waiting for the root specifier to be resolved.
    ResolvingRoot,
    /// Waiting for the graph builder to add the root.
    AddingRoot { specifier: String },
    /// Waiting for the builder to analyse the compiler options.
    Analyzing,
    /// Waiting for the graph to be emitted.
    Emitting,
    Done,
    Failed,
}

/// What a successful emission hands back, with the graph's own errors
/// gathered beside it.
pub struct EmitOutput<D> {
    pub files: Vec<(String, String)>,
    pub diagnostics: Vec<D>,
    pub graph_errors: Vec<D>,
    pub ignored_options: Option<Vec<String>>,
    pub stats: Vec<(String, u64)>,
}

/// The one value a successful request returns.
pub struct EmitResult<D> {
    pub diagnostics: Vec<D>,
    pub files: Vec<(String, String)>,
    pub ignored_options: Option<Vec<String>>,
    pub stats: Vec<(String, u64)>,
}

/// The outcome of the work the host was last asked to do.
pub enum Event<D> {
    /// A specifier was resolved to its absolute form, or could not be.
    Resolved(Result<String, String>),
    /// The import map's text, or why it could not be fetched.
    Fetched(Result<String, String>),
    /// The import map was parsed, or why not.
    ImportMapLoaded(Result<(), String>),
    /// Whether the graph builder could add the root.
    RootAdded(bool),
    /// The builder accepted the compiler options, or why not.
    Analyzed(Result<(), String>),
    /// The emitted graph, or why emission failed.
    Emitted(Result<EmitOutput<D>, String>),
}

/// The work the host is to do next, or the end of the request.
pub enum Action<D> {
    /// Resolve a URL or a path to an absolute specifier.
    ResolveSpecifier { text: String },
    /// Fetch the import map's text, checked against the grant.
    FetchImportMap { specifier: String, grant: Grant },
    /// Parse `json` as the import map, with `specifier` as its base.
    LoadImportMap { specifier: String, json: String },
    /// Build a graph from the provider and the import map, and add the root.
    AddRoot { specifier: String, is_dynamic: bool },
    /// Have the builder analyse the caller's compiler options.
    AnalyzeCompilerOptions { options: Option<String> },
    /// Emit the graph.
    Emit { options: EmitOptions },
    Finish(EmitResult<D>),
    Fail(EmitError),
}

/// One request, from its start to its result or its error.
pub struct EmitSession {
    pub phase: Phase,
    /// The provider chosen for the request; none where it was refused at once.
    pub provider: Option<SourceProvider>,
    pub root_specifier: String,
    pub import_map: Option<String>,
    pub compiler_options: Option<String>,
    pub bundle_type: BundleType,
    pub check: bool,
    pub debug: bool,
}

impl EmitSession {
    /// A provider is chosen for every request that was let past the unstable-API check.
    pub open spec fn wf(self) -> bool {
        self.provider is None ==> self.phase is Failed
    }

    /// Whether the session waits for this kind of event.
    pub open spec fn awaits<D>(self, e: Event<D>) -> bool {
        match self.phase {
            Phase::ResolvingImportMapPath { .. } => e is Resolved,
            Phase::FetchingImportMap { .. } => e is Fetched,
            Phase::LoadingImportMap => e is ImportMapLoaded,
            Phase::ResolvingRoot => e is Resolved,
            Phase::AddingRoot { .. } => e is RootAdded,
            Phase::Analyzing => e is Analyzed,
            Phase::Emitting => e is Emitted,
            Phase::Done => false,
            Phase::Failed => false,
        }
    }

    pub open spec fn is_over(self) -> bool {
        self.phase is Done || self.phase is Failed
    }
}

/// The session moves to `phase`, all else kept, and the host is told `action`.
pub open spec fn moves<D>(s: EmitSession, t: EmitSession, a: Action<D>, phase: Phase, action: Action<D>) -> bool {
    t == (EmitSession { phase, ..s }) && a == action
}

/// The result of an emission: its files, ignored options and stats, and its
/// diagnostics with the graph's errors after them.
pub open spec fn finished_with<D>(out: EmitOutput<D>, a: Action<D>) -> bool {
    &&& a is Finish
    &&& a->Finish_0.diagnostics@ == out.diagnostics@ + out.graph_errors@
    &&& a->Finish_0.files == out.files
    &&& a->Finish_0.ignored_options == out.ignored_options
    &&& a->Finish_0.stats == out.stats
}

/// The cause given when the caller's sources do not hold the import map.
pub open spec fn not_in_sources(specifier: Seq<char>) -> Seq<char> {
    "Unable to find specifier in sources: "@ + specifier
}

/// How a request starts: the unstable-API check first, then the provider, then the first
/// piece of work (the import map's path where there is one, else the root).
pub open spec fn starts<D>(args: EmitArgs, unstable: bool, level: Option<LogLevel>, s: EmitSession, a: Action<D>) -> bool {
    &&& s.root_specifier == args.root_specifier
    &&& s.import_map == args.import_map
    &&& s.compiler_options == args.compiler_options
    &&& s.bundle_type == bundle_type_of(args.bundle)
    &&& s.check == (args.check != Some(false))
    &&& s.debug == (level == Some(LogLevel::Debug))
    &&& if !unstable {
        s.provider is None && s.phase is Failed && a == Action::<D>::Fail(EmitError::FeatureDisabled)
    } else {
        &&& s.provider == Some(provider_for(args.sources))
        &&& match args.import_map_path {
            Some(path) => s.phase == (Phase::ResolvingImportMapPath { path })
                && a == (Action::<D>::ResolveSpecifier { text: path }),
            None => if args.import_map is Some {
                s.phase is Failed && a == Action::<D>::Fail(EmitError::ImportMapWithoutPath)
            } else {
                s.phase is ResolvingRoot && a == (Action::<D>::ResolveSpecifier { text: args.root_specifier })
            },
        }
    }
}

/// One step of a request: the session `s`, told `e`, becomes `t` and asks for `a`.
pub open spec fn next<D>(s: EmitSession, e: Event<D>, t: EmitSession, a: Action<D>) -> bool {
    match s.phase {
        Phase::ResolvingImportMapPath { path } => match e {
            Event::Resolved(Err(cause)) =>
                moves(s, t, a, Phase::Failed, Action::Fail(EmitError::BadImportMapUrl { path, cause })),
            Event::Resolved(Ok(specifier)) => match s.import_map {
                Some(json) => moves(s, t, a, Phase::LoadingImportMap, Action::LoadImportMap { specifier, json }),
                None => match request_of(s.provider->Some_0, specifier, true) {
                    SourceRequest::Found(text) =>
                        moves(s, t, a, Phase::LoadingImportMap, Action::LoadImportMap { specifier, json: text }),
                    SourceRequest::Missing => {
                        &&& t == (EmitSession { phase: Phase::Failed, ..s })
                        &&& a matches Action::Fail(EmitError::ImportMapLoad { specifier: sp, cause })
                        &&& sp == specifier && cause@ == not_in_sources(specifier@)
                    },
                    SourceRequest::Fetch { specifier, grant } =>
                        moves(s, t, a, Phase::FetchingImportMap { specifier }, Action::FetchImportMap { specifier, grant }),
                },
            },
            _ => false,
        },
        Phase::FetchingImportMap { specifier } => match e {
            Event::Fetched(Ok(text)) =>
                moves(s, t, a, Phase::LoadingImportMap, Action::LoadImportMap { specifier, json: text }),
            Event::Fetched(Err(cause)) =>
                moves(s, t, a, Phase::Failed, Action::Fail(EmitError::ImportMapLoad { specifier, cause })),
            _ => false,
        },
        Phase::LoadingImportMap => match e {
            Event::ImportMapLoaded(Ok(_)) =>
                moves(s, t, a, Phase::ResolvingRoot, Action::ResolveSpecifier { text: s.root_specifier }),
            Event::ImportMapLoaded(Err(cause)) =>
                moves(s, t, a, Phase::Failed, Action::Fail(EmitError::ImportMapParse { cause })),
            _ => false,
        },
        Phase::ResolvingRoot => match e {
            Event::Resolved(Ok(specifier)) =>
                moves(s, t, a, Phase::AddingRoot { specifier }, Action::AddRoot { specifier, is_dynamic: false }),
            Event::Resolved(Err(cause)) =>
                moves(s, t, a, Phase::Failed, Action::Fail(EmitError::BadRootSpecifier { cause })),
            _ => false,
        },
        Phase::AddingRoot { specifier } => match e {
            Event::RootAdded(true) =>
                moves(s, t, a, Phase::Analyzing, Action::AnalyzeCompilerOptions { options: s.compiler_options }),
            Event::RootAdded(false) =>
                moves(s, t, a, Phase::Failed, Action::Fail(EmitError::UnhandledSpecifier { specifier })),
            _ => false,
        },
        Phase::Analyzing => match e {
            Event::Analyzed(Ok(_)) => moves(s, t, a, Phase::Emitting, Action::Emit {
                options: EmitOptions {
                    bundle_type: s.bundle_type,
                    check: s.check,
                    debug: s.debug,
                    maybe_user_config: s.compiler_options,
                },
            }),
            Event::Analyzed(Err(cause)) =>
                moves(s, t, a, Phase::Failed, Action::Fail(EmitError::Analysis { cause })),
            _ => false,
        },
        Phase::Emitting => match e {
            Event::Emitted(Ok(out)) => t == (EmitSession { phase: Phase::Done, ..s }) && finished_with(out, a),
            Event::Emitted(Err(cause)) =>
                moves(s, t, a, Phase::Failed, Action::Fail(EmitError::Emit { cause })),
            _ => false,
        },
        Phase::Done => false,
        Phase::Failed => false,
    }
}

/// The emission's diagnostics, then the graph's errors, in that order.
pub fn merge_diagnostics<D>(emitted: Vec<D>, graph_errors: Vec<D>) -> (r: Vec<D>)
    ensures
        r@ == emitted@ + graph_errors@,
{
    let mut r = emitted;
    let mut rest = graph_errors;
    r.append(&mut rest);
    r
}

fn copy_text(t: &Option<String>) -> (r: Option<String>)
    ensures
        r == *t,
{
    match t {
        Some(s) => Some(s.clone()),
        None => None,
    }
}

impl EmitSession {
    /// Starts a request. `unstable` says whether the caller's context has the
    /// unstable APIs enabled; `level` is the host's log level.
    pub fn start<D>(args: EmitArgs, unstable: bool, level: Option<LogLevel>) -> (r: (EmitSession, Action<D>))
        ensures
            starts(args, unstable, level, r.0, r.1),
            r.0.wf(),
    {
        let EmitArgs { bundle, check, compiler_options, import_map, import_map_path, root_specifier, sources } = args;
        let mut s = EmitSession {
            phase: Phase::Failed,
            provider: None,
            root_specifier,
            import_map,
            compiler_options,
            bundle_type: bundle_type(bundle),
            check: check_enabled(check),
            debug: debug_enabled(level),
        };
        if !unstable {
            return (s, Action::Fail(EmitError::FeatureDisabled));
        }
        s.provider = Some(select_provider(sources));
        match import_map_path {
            Some(path) => {
                let text = path.clone();
                s.phase = Phase::ResolvingImportMapPath { path };
                (s, Action::ResolveSpecifier { text })
            },
            None => {
                if s.import_map.is_some() {
                    (s, Action::Fail(EmitError::ImportMapWithoutPath))
                } else {
                    let text = s.root_specifier.clone();
                    s.phase = Phase::ResolvingRoot;
                    (s, Action::ResolveSpecifier { text })
                }
            },
        }
    }

    /// Whether the session waits for this kind of event.
    pub fn accepts<D>(&self, e: &Event<D>) -> (r: bool)
        ensures
            r == self.awaits(*e),
    {
        match self.phase {
            Phase::ResolvingImportMapPath { .. } => matches!(e, Event::Resolved(_)),
            Phase::FetchingImportMap { .. } => matches!(e, Event::Fetched(_)),
            Phase::LoadingImportMap => matches!(e, Event::ImportMapLoaded(_)),
            Phase::ResolvingRoot => matches!(e, Event::Resolved(_)),
            Phase::AddingRoot { .. } => matches!(e, Event::RootAdded(_)),
            Phase::Analyzing => matches!(e, Event::Analyzed(_)),
            Phase::Emitting => matches!(e, Event::Emitted(_)),
            Phase::Done => false,
            Phase::Failed => false,
        }
    }

    /// Takes the outcome of the last piece of work and decides the next.
    pub fn step<D>(self, e: Event<D>) -> (r: (EmitSession, Action<D>))
        requires
            self.wf(),
            self.awaits(e),
        ensures
            next(self, e, r.0, r.1),
            r.0.wf(),
    {
        let mut s = self;
        let mut phase = Phase::Failed;
        std::mem::swap(&mut s.phase, &mut phase);
        match phase {
            Phase::ResolvingImportMapPath { path } => match e {
                Event::Resolved(Err(cause)) => (s, Action::Fail(EmitError::BadImportMapUrl { path, cause })),
                Event::Resolved(Ok(specifier)) => match &s.import_map {
                    Some(json) => {
                        let json = json.clone();
                        s.phase = Phase::LoadingImportMap;
                        (s, Action::LoadImportMap { specifier, json })
                    },
                    None => {
                        let req = match &s.provider {
                            Some(p) => p.request_source(&specifier, true),
                            None => SourceRequest::Missing,
                        };
                        match req {
                            SourceRequest::Found(text) => {
                                s.phase = Phase::LoadingImportMap;
                                (s, Action::LoadImportMap { specifier, json: text })
                            },
                            SourceRequest::Missing => {
                                let mut cause = String::from_str("Unable to find specifier in sources: ");
                                cause.append(specifier.as_str());
                                (s, Action::Fail(EmitError::ImportMapLoad { specifier, cause }))
                            },
                            SourceRequest::Fetch { specifier, grant } => {
                                let target = specifier.clone();
                                s.phase = Phase::FetchingImportMap { specifier: target };
                                (s, Action::FetchImportMap { specifier, grant })
                            },
                        }
                    },
                },
                _ => unreached(),
            },
            Phase::FetchingImportMap { specifier } => match e {
                Event::Fetched(Ok(text)) => {
                    s.phase = Phase::LoadingImportMap;
                    (s, Action::LoadImportMap { specifier, json: text })
                },
                Event::Fetched(Err(cause)) => (s, Action::Fail(EmitError::ImportMapLoad { specifier, cause })),
                _ => unreached(),
            },
            Phase::LoadingImportMap => match e {
                Event::ImportMapLoaded(Ok(_)) => {
                    let text = s.root_specifier.clone();
                    s.phase = Phase::ResolvingRoot;
                    (s, Action::ResolveSpecifier { text })
                },
                Event::ImportMapLoaded(Err(cause)) => (s, Action::Fail(EmitError::ImportMapParse { cause })),
                _ => unreached(),
            },
            Phase::ResolvingRoot => match e {
                Event::Resolved(Ok(specifier)) => {
                    let target = specifier.clone();
                    s.phase = Phase::AddingRoot { specifier: target };
                    (s, Action::AddRoot { specifier, is_dynamic: false })
                },
                Event::Resolved(Err(cause)) => (s, Action::Fail(EmitError::BadRootSpecifier { cause })),
                _ => unreached(),
            },
            Phase::AddingRoot { specifier } => match e {
                Event::RootAdded(added) => {
                    if added {
                        let options = copy_text(&s.compiler_options);
                        s.phase = Phase::Analyzing;
                        (s, Action::AnalyzeCompilerOptions { options })
                    } else {
                        (s, Action::Fail(EmitError::UnhandledSpecifier { specifier }))
                    }
                },
                _ => unreached(),
            },
            Phase::Analyzing => match e {
                Event::Analyzed(Ok(_)) => {
                    let options = EmitOptions {
                        bundle_type: s.bundle_type,
                        check: s.check,
                        debug: s.debug,
                        maybe_user_config: copy_text(&s.compiler_options),
                    };
                    s.phase = Phase::Emitting;
                    (s, Action::Emit { options })
                },
                Event::Analyzed(Err(cause)) => (s, Action::Fail(EmitError::Analysis { cause })),
                _ => unreached(),
            },
            Phase::Emitting => match e {
                Event::Emitted(Ok(out)) => {
                    let EmitOutput { files, diagnostics, graph_errors, ignored_options, stats } = out;
                    let diagnostics = merge_diagnostics(diagnostics, graph_errors);
                    s.phase = Phase::Done;
                    (s, Action::Finish(EmitResult { diagnostics, files, ignored_options, stats }))
                },
                Event::Emitted(Err(cause)) => (s, Action::Fail(EmitError::Emit { cause })),
                _ => unreached(),
            },
            Phase::Done => unreached(),
            Phase::Failed => unreached(),
        }
    }
}

} // verus!
