//! The error vocabulary shared by the library's modules.
use vstd::prelude::*;

verus! {

/// Errors reported by the CLI-side decision logic. Each variant carries the
/// human-readable detail that is shown to the operator.
#[derive(Debug, Clone, PartialEq, Eq)]
pub enum NonoError {
    /// Setup or lifecycle management of a host component failed.
    Setup(String),
    /// The sandbox could not be initialised.
    SandboxInit(String),
    /// The request cannot be honoured on this platform.
    UnsupportedPlatform(String),
    /// An external command could not be executed.
    CommandExecution(String),
    /// A configuration value could not be parsed or is invalid.
    ConfigParse(String),
    /// A hook could not be installed or run.
    HookInstall(String),
    /// A confinement layer could not be attested.
    LayerAttestationFailed { layer: String, reason: String },
    /// A feature is not available on this platform.
    NotSupportedOnPlatform { feature: String },
    /// No command was given to run.
    NoCommand,
}

/// The detail text carried by an error, as a character sequence.
pub open spec fn error_detail(e: NonoError) -> Seq<char> {
    match e {
        NonoError::Setup(m) => m@,
        NonoError::SandboxInit(m) => m@,
        NonoError::UnsupportedPlatform(m) => m@,
        NonoError::CommandExecution(m) => m@,
        NonoError::ConfigParse(m) => m@,
        NonoError::HookInstall(m) => m@,
        NonoError::LayerAttestationFailed { layer, reason } => layer@ + ": "@ + reason@,
        NonoError::NotSupportedOnPlatform { feature } => feature@,
        NonoError::NoCommand => Seq::empty(),
    }
}

impl NonoError {
    /// A copy of this error.
    pub fn duplicate(&self) -> (r: NonoError)
        ensures
            r == *self,
    {
        match self {
            NonoError::Setup(m) => NonoError::Setup(m.clone()),
            NonoError::SandboxInit(m) => NonoError::SandboxInit(m.clone()),
            NonoError::UnsupportedPlatform(m) => NonoError::UnsupportedPlatform(m.clone()),
            NonoError::CommandExecution(m) => NonoError::CommandExecution(m.clone()),
            NonoError::ConfigParse(m) => NonoError::ConfigParse(m.clone()),
            NonoError::HookInstall(m) => NonoError::HookInstall(m.clone()),
            NonoError::LayerAttestationFailed { layer, reason } => NonoError::LayerAttestationFailed {
                layer: layer.clone(),
                reason: reason.clone(),
            },
            NonoError::NotSupportedOnPlatform { feature } => NonoError::NotSupportedOnPlatform {
                feature: feature.clone(),
            },
            NonoError::NoCommand => NonoError::NoCommand,
        }
    }

    /// The detail text carried by this error.
    pub fn detail(&self) -> (r: String)
        ensures
            r@ == error_detail(*self),
    {
        match self {
            NonoError::Setup(m) => m.clone(),
            NonoError::SandboxInit(m) => m.clone(),
            NonoError::UnsupportedPlatform(m) => m.clone(),
            NonoError::CommandExecution(m) => m.clone(),
            NonoError::ConfigParse(m) => m.clone(),
            NonoError::HookInstall(m) => m.clone(),
            NonoError::LayerAttestationFailed { layer, reason } => {
                let mut r = layer.clone();
                r.append(": ");
                r.append(reason.as_str());
                r
            },
            NonoError::NotSupportedOnPlatform { feature } => feature.clone(),
            NonoError::NoCommand => String::new(),
        }
    }
}


/// The kind of an error.
#[derive(PartialEq, Eq, Structural)]
pub enum ErrorKind {
    Setup,
    SandboxInit,
    UnsupportedPlatform,
    CommandExecution,
    ConfigParse,
    HookInstall,
    LayerAttestationFailed,
    NotSupportedOnPlatform,
    NoCommand,
}

/// An error by its kind and detail text.
pub struct ErrorView {
    pub kind: ErrorKind,
    pub detail: Seq<char>,
}

pub open spec fn error_kind(e: NonoError) -> ErrorKind {
    match e {
        NonoError::Setup(_) => ErrorKind::Setup,
        NonoError::SandboxInit(_) => ErrorKind::SandboxInit,
        NonoError::UnsupportedPlatform(_) => ErrorKind::UnsupportedPlatform,
        NonoError::CommandExecution(_) => ErrorKind::CommandExecution,
        NonoError::ConfigParse(_) => ErrorKind::ConfigParse,
        NonoError::HookInstall(_) => ErrorKind::HookInstall,
        NonoError::LayerAttestationFailed { .. } => ErrorKind::LayerAttestationFailed,
        NonoError::NotSupportedOnPlatform { .. } => ErrorKind::NotSupportedOnPlatform,
        NonoError::NoCommand => ErrorKind::NoCommand,
    }
}

pub open spec fn error_view(e: NonoError) -> ErrorView {
    ErrorView { kind: error_kind(e), detail: error_detail(e) }
}

pub open spec fn err_of(kind: ErrorKind, detail: Seq<char>) -> ErrorView {
    ErrorView { kind, detail }
}

/// A result with its error taken by kind and detail.
pub open spec fn result_view<T>(r: Result<T, NonoError>) -> Result<T, ErrorView> {
    match r {
        Ok(v) => Ok(v),
        Err(e) => Err(error_view(e)),
    }
}

} // verus!
