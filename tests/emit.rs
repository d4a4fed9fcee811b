use runtime_compiler::error::{EmitError, ErrorKind};
use runtime_compiler::options::{bundle_type, check_enabled, debug_enabled, BundleType, EmitArgs, LogLevel, RuntimeBundleType};
use runtime_compiler::provider::{select_provider, Grant, SourceProvider, SourceRequest};
use runtime_compiler::session::{merge_diagnostics, Action, EmitOutput, EmitSession, Event, Phase};

fn request(root: &str) -> EmitArgs {
    EmitArgs {
        bundle: None,
        check: None,
        compiler_options: None,
        import_map: None,
        import_map_path: None,
        root_specifier: root.to_string(),
        sources: None,
    }
}

fn output(diagnostics: Vec<String>, graph_errors: Vec<String>) -> EmitOutput<String> {
    EmitOutput {
        files: vec![("file:///a.ts.js".to_string(), "console.log(1);".to_string())],
        diagnostics,
        graph_errors,
        ignored_options: Some(vec!["foo".to_string()]),
        stats: vec![("Files".to_string(), 1)],
    }
}

fn step(s: EmitSession, e: Event<String>) -> (EmitSession, Action<String>) {
    assert!(s.accepts(&e));
    s.step(e)
}

fn failure(a: Action<String>) -> EmitError {
    match a {
        Action::Fail(e) => e,
        _ => panic!("expected a failure"),
    }
}

/// Runs a request without an import map up to the emission step.
fn up_to_emit(args: EmitArgs) -> (EmitSession, Action<String>) {
    let (s, a) = EmitSession::start::<String>(args, true, None);
    assert!(matches!(&a, Action::ResolveSpecifier { text } if text == "/a.ts"));
    let (s, a) = step(s, Event::Resolved(Ok("file:///a.ts".to_string())));
    assert!(matches!(&a, Action::AddRoot { specifier, is_dynamic: false } if specifier == "file:///a.ts"));
    let (s, a) = step(s, Event::RootAdded(true));
    assert!(matches!(a, Action::AnalyzeCompilerOptions { .. }));
    step(s, Event::Analyzed(Ok(())))
}

#[test]
fn bundle_modes_map_one_to_one() {
    assert_eq!(bundle_type(None), BundleType::Unbundled);
    assert_eq!(bundle_type(Some(RuntimeBundleType::Module)), BundleType::Module);
    assert_eq!(bundle_type(Some(RuntimeBundleType::Classic)), BundleType::Classic);
}

#[test]
fn bundle_modes_reach_the_emission() {
    let cases = vec![
        (None, BundleType::Unbundled),
        (Some(RuntimeBundleType::Module), BundleType::Module),
        (Some(RuntimeBundleType::Classic), BundleType::Classic),
    ];
    for (given, expected) in cases {
        let mut args = request("/a.ts");
        args.bundle = given;
        let (_, a) = up_to_emit(args);
        match a {
            Action::Emit { options } => assert_eq!(options.bundle_type, expected),
            _ => panic!("expected the emission"),
        }
    }
}

#[test]
fn emission_options_follow_the_request() {
    let mut args = request("/a.ts");
    args.check = Some(false);
    args.compiler_options = Some("{\"strict\":false}".to_string());
    let (_, a) = up_to_emit(args);
    match a {
        Action::Emit { options } => {
            assert!(!options.check);
            assert!(!options.debug);
            assert_eq!(options.maybe_user_config, Some("{\"strict\":false}".to_string()));
        },
        _ => panic!("expected the emission"),
    }
}

#[test]
fn check_and_debug_defaults() {
    assert!(check_enabled(None));
    assert!(check_enabled(Some(true)));
    assert!(!check_enabled(Some(false)));
    assert!(debug_enabled(Some(LogLevel::Debug)));
    assert!(!debug_enabled(Some(LogLevel::Info)));
    assert!(!debug_enabled(Some(LogLevel::Trace)));
    assert!(!debug_enabled(None));
}

#[test]
fn unstable_check_refuses_before_anything() {
    let mut args = request("/a.ts");
    args.sources = Some(vec![("file:///a.ts".to_string(), "1".to_string())]);
    let (s, a) = EmitSession::start::<String>(args, false, None);
    assert!(s.provider.is_none());
    assert!(matches!(s.phase, Phase::Failed));
    let e = failure(a);
    assert_eq!(e, EmitError::FeatureDisabled);
    assert_eq!(e.kind(), ErrorKind::FeatureDisabled);
    assert_eq!(e.message(), "Unstable API 'Deno.emit'. The --unstable flag must be provided.");
    assert!(!s.accepts(&Event::<String>::Resolved(Ok("file:///a.ts".to_string()))));
}

#[test]
fn inline_import_map_without_path_is_refused() {
    let mut args = request("/a.ts");
    args.import_map = Some("{\"imports\":{}}".to_string());
    args.bundle = Some(RuntimeBundleType::Module);
    let (s, a) = EmitSession::start::<String>(args, true, None);
    assert!(matches!(s.phase, Phase::Failed));
    let e = failure(a);
    assert_eq!(e, EmitError::ImportMapWithoutPath);
    assert_eq!(e.kind(), ErrorKind::Configuration);
    assert_eq!(
        e.message(),
        "An importMap was specified, but no importMapPath was provided, which is required."
    );
}

#[test]
fn inline_import_map_is_parsed_without_fetch() {
    let mut args = request("/a.ts");
    args.import_map = Some("{\"imports\":{}}".to_string());
    args.import_map_path = Some("./map.json".to_string());
    let (s, a) = EmitSession::start::<String>(args, true, None);
    assert!(matches!(&a, Action::ResolveSpecifier { text } if text == "./map.json"));
    let (s, a) = step(s, Event::Resolved(Ok("file:///map.json".to_string())));
    assert!(matches!(&a, Action::LoadImportMap { specifier, json }
        if specifier == "file:///map.json" && json == "{\"imports\":{}}"));
    let (s, a) = step(s, Event::ImportMapLoaded(Ok(())));
    assert!(matches!(&a, Action::ResolveSpecifier { text } if text == "/a.ts"));
    let (s, a) = step(s, Event::Resolved(Ok("file:///a.ts".to_string())));
    assert!(matches!(a, Action::AddRoot { .. }));
    let (s, _) = step(s, Event::RootAdded(true));
    let (s, _) = step(s, Event::Analyzed(Ok(())));
    let (_, a) = step(s, Event::Emitted(Ok(output(vec![], vec![]))));
    assert!(matches!(a, Action::Finish(_)));
}

#[test]
fn import_map_path_alone_is_fetched_and_parsed() {
    let mut args = request("/a.ts");
    args.import_map_path = Some("./map.json".to_string());
    let (s, _) = EmitSession::start::<String>(args, true, None);
    let (s, a) = step(s, Event::Resolved(Ok("file:///map.json".to_string())));
    assert!(matches!(&a, Action::FetchImportMap { specifier, grant: Grant::Runtime }
        if specifier == "file:///map.json"));
    let (s, a) = step(s, Event::Fetched(Ok("{\"imports\":{\"x\":\"./x.ts\"}}".to_string())));
    assert!(matches!(&a, Action::LoadImportMap { specifier, json }
        if specifier == "file:///map.json" && json == "{\"imports\":{\"x\":\"./x.ts\"}}"));
    let (_, a) = step(s, Event::ImportMapLoaded(Ok(())));
    assert!(matches!(a, Action::ResolveSpecifier { .. }));
}

#[test]
fn import_map_fetch_failure_ends_the_request() {
    let mut args = request("/a.ts");
    args.import_map_path = Some("./map.json".to_string());
    let (s, _) = EmitSession::start::<String>(args, true, None);
    let (s, _) = step(s, Event::Resolved(Ok("file:///map.json".to_string())));
    let (s, a) = s.step(Event::Fetched(Err("No such file".to_string())));
    assert!(matches!(s.phase, Phase::Failed));
    let e = failure(a);
    assert_eq!(e.kind(), ErrorKind::ImportMap);
    assert_eq!(e.message(), "Unable to load 'file:///map.json' import map: No such file");
    assert!(!s.accepts(&Event::<String>::RootAdded(true)));
}

#[test]
fn import_map_parse_failure() {
    let mut args = request("/a.ts");
    args.import_map = Some("[]".to_string());
    args.import_map_path = Some("./map.json".to_string());
    let (s, _) = EmitSession::start::<String>(args, true, None);
    let (s, _) = step(s, Event::Resolved(Ok("file:///map.json".to_string())));
    let (_, a) = step(s, Event::ImportMapLoaded(Err("Import map JSON must be an object".to_string())));
    let e = failure(a);
    assert_eq!(e.kind(), ErrorKind::ImportMap);
    assert_eq!(e.message(), "Import map JSON must be an object");
}

#[test]
fn bad_import_map_path() {
    let mut args = request("/a.ts");
    args.import_map_path = Some("bad:\u{0}".to_string());
    let (s, _) = EmitSession::start::<String>(args, true, None);
    let (_, a) = step(s, Event::Resolved(Err("invalid URL".to_string())));
    let e = failure(a);
    assert_eq!(e.kind(), ErrorKind::Configuration);
    assert_eq!(e.message(), "Bad URL (\"bad:\u{0}\") for import map.");
}

#[test]
fn sources_serve_the_import_map() {
    let mut args = request("/a.ts");
    args.import_map_path = Some("file:///map.json".to_string());
    args.sources = Some(vec![
        ("file:///a.ts".to_string(), "import \"x\";".to_string()),
        ("file:///map.json".to_string(), "{\"imports\":{}}".to_string()),
    ]);
    let (s, _) = EmitSession::start::<String>(args, true, None);
    let (_, a) = step(s, Event::Resolved(Ok("file:///map.json".to_string())));
    assert!(matches!(&a, Action::LoadImportMap { specifier, json }
        if specifier == "file:///map.json" && json == "{\"imports\":{}}"));
}

#[test]
fn sources_without_the_import_map_fail_without_fetch() {
    let mut args = request("/a.ts");
    args.import_map_path = Some("file:///map.json".to_string());
    args.sources = Some(vec![("file:///a.ts".to_string(), "1".to_string())]);
    let (s, _) = EmitSession::start::<String>(args, true, None);
    let (_, a) = step(s, Event::Resolved(Ok("file:///map.json".to_string())));
    let e = failure(a);
    assert_eq!(e.kind(), ErrorKind::ImportMap);
    assert_eq!(
        e.message(),
        "Unable to load 'file:///map.json' import map: Unable to find specifier in sources: file:///map.json"
    );
}

#[test]
fn memory_provider_never_fetches() {
    let p = select_provider(Some(vec![
        ("file:///a.ts".to_string(), "export const a = 1;".to_string()),
        ("file:///b.ts".to_string(), "export const b = 2;".to_string()),
    ]));
    assert!(matches!(p, SourceProvider::Memory { .. }));
    assert_eq!(
        p.request_source(&"file:///b.ts".to_string(), false),
        SourceRequest::Found("export const b = 2;".to_string())
    );
    assert_eq!(p.request_source(&"https://deno.land/x.ts".to_string(), true), SourceRequest::Missing);
    assert_eq!(p.request_source(&"file:///c.ts".to_string(), false), SourceRequest::Missing);
}

#[test]
fn root_is_held_to_runtime_permissions() {
    let p = select_provider(None);
    assert_eq!(
        p.request_source(&"https://deno.land/x.ts".to_string(), false),
        SourceRequest::Fetch { specifier: "https://deno.land/x.ts".to_string(), grant: Grant::Runtime }
    );
    assert_eq!(
        p.request_source(&"https://deno.land/y.ts".to_string(), true),
        SourceRequest::Fetch { specifier: "https://deno.land/y.ts".to_string(), grant: Grant::Runtime }
    );
}

#[test]
fn unhandled_root_hides_the_cause() {
    let (s, _) = EmitSession::start::<String>(request("/a.ts"), true, None);
    let (s, _) = step(s, Event::Resolved(Ok("file:///a.ts".to_string())));
    let (_, a) = step(s, Event::RootAdded(false));
    let e = failure(a);
    assert_eq!(e.kind(), ErrorKind::Resolution);
    assert_eq!(e.message(), "Unable to handle the given specifier: file:///a.ts");
}

#[test]
fn bad_root_specifier() {
    let (s, _) = EmitSession::start::<String>(request("bad:\u{0}"), true, None);
    let (_, a) = step(s, Event::Resolved(Err("invalid URL: relative URL without a base".to_string())));
    let e = failure(a);
    assert_eq!(e.kind(), ErrorKind::Configuration);
    assert_eq!(e.message(), "invalid URL: relative URL without a base");
}

#[test]
fn rejected_compiler_options() {
    let (s, _) = EmitSession::start::<String>(request("/a.ts"), true, None);
    let (s, _) = step(s, Event::Resolved(Ok("file:///a.ts".to_string())));
    let (s, _) = step(s, Event::RootAdded(true));
    let (_, a) = step(s, Event::Analyzed(Err("Unsupported compiler options".to_string())));
    let e = failure(a);
    assert_eq!(e.kind(), ErrorKind::Analysis);
    assert_eq!(e.message(), "Unsupported compiler options");
}

#[test]
fn failed_emission() {
    let (s, _) = up_to_emit(request("/a.ts"));
    let (s, a) = step(s, Event::Emitted(Err("emit failed".to_string())));
    assert!(matches!(s.phase, Phase::Failed));
    let e = failure(a);
    assert_eq!(e.kind(), ErrorKind::Emit);
    assert_eq!(e.message(), "emit failed");
}

#[test]
fn graph_errors_follow_emission_diagnostics() {
    let (s, _) = up_to_emit(request("/a.ts"));
    let out = output(vec!["TS2322".to_string()], vec!["graph: missing module".to_string()]);
    let (s, a) = step(s, Event::Emitted(Ok(out)));
    assert!(matches!(s.phase, Phase::Done));
    match a {
        Action::Finish(r) => {
            assert_eq!(r.diagnostics, vec!["TS2322".to_string(), "graph: missing module".to_string()]);
            assert_eq!(r.files, vec![("file:///a.ts.js".to_string(), "console.log(1);".to_string())]);
            assert_eq!(r.ignored_options, Some(vec!["foo".to_string()]));
            assert_eq!(r.stats, vec![("Files".to_string(), 1)]);
        },
        _ => panic!("expected a result"),
    }
}

#[test]
fn merge_keeps_both_orders() {
    assert_eq!(
        merge_diagnostics(vec![1, 2], vec![3]),
        vec![1, 2, 3]
    );
    assert_eq!(merge_diagnostics(Vec::<u8>::new(), vec![7, 5]), vec![7, 5]);
    assert_eq!(merge_diagnostics(vec![4], Vec::new()), vec![4]);
}

#[test]
fn debug_level_reaches_the_emission() {
    let args = request("/a.ts");
    let (s, _) = EmitSession::start::<String>(args, true, Some(LogLevel::Debug));
    let (s, _) = step(s, Event::Resolved(Ok("file:///a.ts".to_string())));
    let (s, _) = step(s, Event::RootAdded(true));
    let (_, a) = step(s, Event::Analyzed(Ok(())));
    match a {
        Action::Emit { options } => {
            assert!(options.debug);
            assert!(options.check);
            assert_eq!(options.bundle_type, BundleType::Unbundled);
        },
        _ => panic!("expected the emission"),
    }
}

#[test]
fn events_out_of_turn_are_not_accepted() {
    let (s, _) = EmitSession::start::<String>(request("/a.ts"), true, None);
    assert!(s.accepts(&Event::<String>::Resolved(Ok("file:///a.ts".to_string()))));
    assert!(!s.accepts(&Event::<String>::RootAdded(true)));
    assert!(!s.accepts(&Event::<String>::Fetched(Ok(String::new()))));
}
