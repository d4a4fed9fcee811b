use vstd::prelude::*;
use vstd::string::StringExecFns;

verus! {

/// The kinds of failure a request can end in.
#[derive(Clone, Copy, Debug, PartialEq, Eq, Structural)]
pub enum ErrorKind {
    /// The unstable APIs are not enabled.
    FeatureDisabled,
    /// The request is inconsistent, or a specifier in it is not a valid URL.
    Configuration,
    /// The root specifier cannot be handled by the chosen provider.
    Resolution,
    /// The import map could not be fetched or parsed.
    ImportMap,
    /// The builder rejected the compiler options.
    Analysis,
    /// The emission itself failed.
    Emit,
}

/// Why a request failed. Every failure ends the request with no result.
#[derive(Debug, PartialEq, Eq)]
pub enum EmitError {
    FeatureDisabled,
    ImportMapWithoutPath,
    BadImportMapUrl { path: String, cause: String },
    BadRootSpecifier { cause: String },
    UnhandledSpecifier { specifier: String },
    ImportMapLoad { specifier: String, cause: String },
    ImportMapParse { cause: String },
    Analysis { cause: String },
    Emit { cause: String },
}

pub open spec fn kind_of(e: EmitError) -> ErrorKind {
    match e {
        EmitError::FeatureDisabled => ErrorKind::FeatureDisabled,
        EmitError::ImportMapWithoutPath => ErrorKind::Configuration,
        EmitError::BadImportMapUrl { .. } => ErrorKind::Configuration,
        EmitError::BadRootSpecifier { .. } => ErrorKind::Configuration,
        EmitError::UnhandledSpecifier { .. } => ErrorKind::Resolution,
        EmitError::ImportMapLoad { .. } => ErrorKind::ImportMap,
        EmitError::ImportMapParse { .. } => ErrorKind::ImportMap,
        EmitError::Analysis { .. } => ErrorKind::Analysis,
        EmitError::Emit { .. } => ErrorKind::Emit,
    }
}

/// The text shown to the caller for each failure. Where a lower layer's
/// message is kept, it is the cause; the resolution failure keeps only the
/// specifier, and a bad import map path keeps its cause beside the message.
pub open spec fn message_of(e: EmitError) -> Seq<char> {
    match e {
        EmitError::FeatureDisabled =>
            "Unstable API 'Deno.emit'. The --unstable flag must be provided."@,
        EmitError::ImportMapWithoutPath =>
            "An importMap was specified, but no importMapPath was provided, which is required."@,
        EmitError::BadImportMapUrl { path, cause } =>
            "Bad URL (\""@ + path@ + "\") for import map."@,
        EmitError::BadRootSpecifier { cause } => cause@,
        EmitError::UnhandledSpecifier { specifier } =>
            "Unable to handle the given specifier: "@ + specifier@,
        EmitError::ImportMapLoad { specifier, cause } =>
            "Unable to load '"@ + specifier@ + "' import map: "@ + cause@,
        EmitError::ImportMapParse { cause } => cause@,
        EmitError::Analysis { cause } => cause@,
        EmitError::Emit { cause } => cause@,
    }
}

impl EmitError {
    pub fn kind(&self) -> (r: ErrorKind)
        ensures
            r == kind_of(*self),
    {
        match self {
            EmitError::FeatureDisabled => ErrorKind::FeatureDisabled,
            EmitError::ImportMapWithoutPath => ErrorKind::Configuration,
            EmitError::BadImportMapUrl { .. } => ErrorKind::Configuration,
            EmitError::BadRootSpecifier { .. } => ErrorKind::Configuration,
            EmitError::UnhandledSpecifier { .. } => ErrorKind::Resolution,
            EmitError::ImportMapLoad { .. } => ErrorKind::ImportMap,
            EmitError::ImportMapParse { .. } => ErrorKind::ImportMap,
            EmitError::Analysis { .. } => ErrorKind::Analysis,
            EmitError::Emit { .. } => ErrorKind::Emit,
        }
    }

    pub fn message(&self) -> (r: String)
        ensures
            r@ == message_of(*self),
    {
        match self {
            EmitError::FeatureDisabled => String::from_str(
                "Unstable API 'Deno.emit'. The --unstable flag must be provided.",
            ),
            EmitError::ImportMapWithoutPath => String::from_str(
                "An importMap was specified, but no importMapPath was provided, which is required.",
            ),
            EmitError::BadImportMapUrl { path, .. } => {
                let mut r = String::from_str("Bad URL (\"");
                r.append(path.as_str());
                r.append("\") for import map.");
                r
            },
            EmitError::BadRootSpecifier { cause } => cause.clone(),
            EmitError::UnhandledSpecifier { specifier } => {
                let mut r = String::from_str("Unable to handle the given specifier: ");
                r.append(specifier.as_str());
                r
            },
            EmitError::ImportMapLoad { specifier, cause } => {
                let mut r = String::from_str("Unable to load '");
                r.append(specifier.as_str());
                r.append("' import map: ");
                r.append(cause.as_str());
                r
            },
            EmitError::ImportMapParse { cause } => cause.clone(),
            EmitError::Analysis { cause } => cause.clone(),
            EmitError::Emit { cause } => cause.clone(),
        }
    }
}

} // verus!
