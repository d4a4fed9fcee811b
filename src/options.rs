use vstd::prelude::*;

verus! {

/// How the caller asked for the output to be bundled.
#[derive(Clone, Copy, Debug, PartialEq, Eq, Structural)]
pub enum RuntimeBundleType {
    Module,
    Classic,
}

/// How the graph builder is told to bundle the emitted output.
#[derive(Clone, Copy, Debug, PartialEq, Eq, Structural)]
pub enum BundleType {
    Module,
    Classic,
    Unbundled,
}

/// The builder's bundle mode for the caller's optional choice: one to one,
/// with no choice meaning no bundling.
pub open spec fn bundle_type_of(bundle: Option<RuntimeBundleType>) -> BundleType {
    match bundle {
        Some(RuntimeBundleType::Module) => BundleType::Module,
        Some(RuntimeBundleType::Classic) => BundleType::Classic,
        None => BundleType::Unbundled,
    }
}

pub fn bundle_type(bundle: Option<RuntimeBundleType>) -> (r: BundleType)
    ensures
        r == bundle_type_of(bundle),
{
    match bundle {
        Some(RuntimeBundleType::Module) => BundleType::Module,
        Some(RuntimeBundleType::Classic) => BundleType::Classic,
        None => BundleType::Unbundled,
    }
}

/// The host program's log level, as far as the emission reads it.
#[derive(Clone, Copy, Debug, PartialEq, Eq, Structural)]
pub enum LogLevel {
    Error,
    Warn,
    Info,
    Debug,
    Trace,
}

/// Emission runs in debug mode exactly when the host logs at debug level.
pub fn debug_enabled(level: Option<LogLevel>) -> (r: bool)
    ensures
        r == (level == Some(LogLevel::Debug)),
{
    match level {
        Some(LogLevel::Debug) => true,
        _ => false,
    }
}

/// Type checking is on unless the caller turned it off.
pub fn check_enabled(check: Option<bool>) -> (r: bool)
    ensures
        r == (check != Some(false)),
{
    match check {
        Some(c) => c,
        None => true,
    }
}

/// A compile request, with its JSON parts held as text.
pub struct EmitArgs {
    pub bundle: Option<RuntimeBundleType>,
    pub check: Option<bool>,
    /// The caller's compiler options, as the text of a JSON object.
    pub compiler_options: Option<String>,
    /// An inline import map, as JSON text.
    pub import_map: Option<String>,
    pub import_map_path: Option<String>,
    pub root_specifier: String,
    /// Module sources given by the caller: specifier and text.
    pub sources: Option<Vec<(String, String)>>,
}

/// What the emission step of the graph is handed.
#[derive(Debug)]
pub struct EmitOptions {
    pub bundle_type: BundleType,
    pub check: bool,
    pub debug: bool,
    /// The caller's compiler options, unchanged.
    pub maybe_user_config: Option<String>,
}

} // verus!
