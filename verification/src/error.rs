//! The launcher's error taxonomy.

use vstd::prelude::*;

verus! {

/// A path that is not valid UTF-8 where UTF-8 is required.
#[derive(Clone, Copy, Debug, PartialEq, Eq, Structural)]
pub struct Utf8Error;

impl Utf8Error {
    /// The text that names this error in reports.
    pub open spec fn text() -> Seq<char> {
        "Utf8Error"@
    }

    pub fn as_str(&self) -> (text: &'static str)
        ensures
            text@ == Self::text(),
    {
        "Utf8Error"
    }
}

/// What went wrong, by the step that reported it.
#[derive(Clone, Copy, Debug, PartialEq, Eq, Structural)]
pub enum ErrorKind {
    /// A native module file is missing, unreadable or cannot be mapped.
    Load,
    /// A named entry point is absent from a loaded module.
    SymbolNotFound,
    /// A configuration file cannot be read or deserialized.
    ConfigParse,
    /// A path is not valid UTF-8.
    PathEncoding,
    /// An entry point was invoked and returned no capability.
    Construct,
    /// The compile service rejected a compiler plugin.
    PluginLoad,
    /// The compile service rejected a source file.
    SourceAdd,
    /// The compile step failed.
    Compile,
    /// An assembly file cannot be decoded.
    AssemblyDecode,
    /// The assembly manager rejected the batch of decoded assemblies.
    AssemblyLoad,
    /// Static initialization failed.
    StaticInit,
    /// No execution context could be spawned.
    ContextSpawn,
    /// The execution context trapped or failed, as opposed to the program
    /// ending with a status of its own.
    Run,
    /// The shell answered a step with an event that the step cannot produce.
    Protocol,
}

impl ErrorKind {
    /// The name of the kind in reports.
    pub open spec fn label(self) -> Seq<char> {
        match self {
            ErrorKind::Load => "LoadError"@,
            ErrorKind::SymbolNotFound => "SymbolNotFoundError"@,
            ErrorKind::ConfigParse => "ConfigParseError"@,
            ErrorKind::PathEncoding => "PathEncodingError"@,
            ErrorKind::Construct => "ConstructError"@,
            ErrorKind::PluginLoad => "PluginLoadError"@,
            ErrorKind::SourceAdd => "SourceAddError"@,
            ErrorKind::Compile => "CompileError"@,
            ErrorKind::AssemblyDecode => "AssemblyDecodeError"@,
            ErrorKind::AssemblyLoad => "AssemblyLoadError"@,
            ErrorKind::StaticInit => "StaticInitError"@,
            ErrorKind::ContextSpawn => "ContextSpawnError"@,
            ErrorKind::Run => "RunError"@,
            ErrorKind::Protocol => "ProtocolError"@,
        }
    }

    pub fn as_str(&self) -> (label: &'static str)
        ensures
            label@ == self.label(),
    {
        match self {
            ErrorKind::Load => "LoadError",
            ErrorKind::SymbolNotFound => "SymbolNotFoundError",
            ErrorKind::ConfigParse => "ConfigParseError",
            ErrorKind::PathEncoding => "PathEncodingError",
            ErrorKind::Construct => "ConstructError",
            ErrorKind::PluginLoad => "PluginLoadError",
            ErrorKind::SourceAdd => "SourceAddError",
            ErrorKind::Compile => "CompileError",
            ErrorKind::AssemblyDecode => "AssemblyDecodeError",
            ErrorKind::AssemblyLoad => "AssemblyLoadError",
            ErrorKind::StaticInit => "StaticInitError",
            ErrorKind::ContextSpawn => "ContextSpawnError",
            ErrorKind::Run => "RunError",
            ErrorKind::Protocol => "ProtocolError",
        }
    }
}

/// A fatal error: its kind, and the collaborator's own words about it.
#[derive(Clone, Debug, PartialEq, Eq)]
pub struct LaunchError {
    pub kind: ErrorKind,
    pub detail: String,
}

/// The mathematical value of a [`LaunchError`].
pub struct LaunchErrorView {
    pub kind: ErrorKind,
    pub detail: Seq<char>,
}

impl View for LaunchError {
    type V = LaunchErrorView;

    open spec fn view(&self) -> LaunchErrorView {
        LaunchErrorView { kind: self.kind, detail: self.detail@ }
    }
}

impl LaunchError {
    pub fn new(kind: ErrorKind, detail: String) -> (error: Self)
        ensures
            error@ == (LaunchErrorView { kind, detail: detail@ }),
    {
        LaunchError { kind, detail }
    }

    /// The fatal error that a path of another encoding than UTF-8 is.
    pub fn path_encoding(cause: Utf8Error) -> (error: Self)
        ensures
            error@ == (LaunchErrorView { kind: ErrorKind::PathEncoding, detail: Utf8Error::text() }),
    {
        LaunchError { kind: ErrorKind::PathEncoding, detail: cause.as_str().to_owned() }
    }

    /// A copy with the same kind and the same words.
    pub fn duplicate(&self) -> (copy: Self)
        ensures
            copy@ == self@,
    {
        LaunchError { kind: self.kind, detail: self.detail.clone() }
    }
}

} // verus!
