//! The project declaration the pipeline starts from: what kind of project
//! it is, which language backend builds it, and the metadata common to
//! every kind. A declaration is a snapshot; nothing here changes it.

use crate::text::{decimal, push_decimal};
use vstd::prelude::*;

verus! {

/// A semantic version: three numbers, an optional pre-release tag and
/// optional build metadata. An empty tag means that there is none.
#[derive(Clone, Debug, PartialEq, Eq)]
pub struct Version {
    pub major: u64,
    pub minor: u64,
    pub patch: u64,
    pub pre: String,
    pub build: String,
}

/// A `Version` as contracts see it.
pub struct VersionView {
    pub major: nat,
    pub minor: nat,
    pub patch: nat,
    pub pre: Seq<char>,
    pub build: Seq<char>,
}

impl View for Version {
    type V = VersionView;

    open spec fn view(&self) -> VersionView {
        VersionView {
            major: self.major as nat,
            minor: self.minor as nat,
            patch: self.patch as nat,
            pre: self.pre@,
            build: self.build@,
        }
    }
}

impl VersionView {
    /// The written form: `major.minor.patch`, then `-pre` and `+build`
    /// where they are present.
    pub open spec fn text(self) -> Seq<char> {
        let core = decimal(self.major) + "."@ + decimal(self.minor) + "."@ + decimal(self.patch);
        let tagged = if self.pre.len() > 0 {
            core + "-"@ + self.pre
        } else {
            core
        };
        if self.build.len() > 0 {
            tagged + "+"@ + self.build
        } else {
            tagged
        }
    }
}

impl Version {
    /// A release version, without pre-release tag or build metadata.
    pub fn new(major: u64, minor: u64, patch: u64) -> (v: Version)
        ensures
            v@ == (VersionView {
                major: major as nat,
                minor: minor as nat,
                patch: patch as nat,
                pre: Seq::<char>::empty(),
                build: Seq::<char>::empty(),
            }),
    {
        Version { major, minor, patch, pre: String::new(), build: String::new() }
    }

    /// Writes the version out.
    pub fn to_string(&self) -> (s: String)
        ensures
            s@ == self@.text(),
    {
        let mut s = String::new();
        push_decimal(&mut s, self.major);
        s.append(".");
        push_decimal(&mut s, self.minor);
        s.append(".");
        push_decimal(&mut s, self.patch);
        if !self.pre.as_str().is_empty() {
            s.append("-");
            s.append(self.pre.as_str());
        }
        if !self.build.as_str().is_empty() {
            s.append("+");
            s.append(self.build.as_str());
        }
        assert(s@ =~= self@.text());
        s
    }
}

/// Metadata that every project kind declares.
#[derive(Clone, Debug, PartialEq, Eq)]
pub struct CommonConfig {
    pub name: String,
    pub version: Version,
    /// Capability claims to embed when signing.
    pub claims: Vec<String>,
    pub call_alias: Option<String>,
}

/// A `CommonConfig` as contracts see it.
pub struct CommonConfigView {
    pub name: Seq<char>,
    pub version: VersionView,
    pub claims: Seq<Seq<char>>,
    pub call_alias: Option<Seq<char>>,
}

impl View for CommonConfig {
    type V = CommonConfigView;

    open spec fn view(&self) -> CommonConfigView {
        CommonConfigView {
            name: self.name@,
            version: self.version@,
            claims: self.claims.deep_view(),
            call_alias: self.call_alias.deep_view(),
        }
    }
}

/// What only an actor project declares.
#[derive(Clone, Debug, PartialEq, Eq)]
pub struct ActorConfig {
    /// The target triple the compiler emits WebAssembly for.
    pub wasm_target: String,
}

/// An `ActorConfig` as contracts see it.
pub struct ActorConfigView {
    pub wasm_target: Seq<char>,
}

impl View for ActorConfig {
    type V = ActorConfigView;

    open spec fn view(&self) -> ActorConfigView {
        ActorConfigView { wasm_target: self.wasm_target@ }
    }
}

/// The kind of project. Only actors are built and signed.
#[derive(Clone, Debug, PartialEq, Eq)]
pub enum ProjectKind {
    Actor(ActorConfig),
    Provider,
    Interface,
}

/// A `ProjectKind` as contracts see it.
pub enum ProjectKindView {
    Actor(ActorConfigView),
    Provider,
    Interface,
}

impl View for ProjectKind {
    type V = ProjectKindView;

    open spec fn view(&self) -> ProjectKindView {
        match self {
            ProjectKind::Actor(actor) => ProjectKindView::Actor(actor@),
            ProjectKind::Provider => ProjectKindView::Provider,
            ProjectKind::Interface => ProjectKindView::Interface,
        }
    }
}

/// Options of the Rust backend.
#[derive(Clone, Debug, PartialEq, Eq)]
pub struct RustConfig {
    /// The compiler driver to run in place of the one on the search path.
    pub cargo_path: Option<String>,
    /// The build-output root to look under in place of the conventional
    /// one.
    pub target_path: Option<String>,
}

/// A `RustConfig` as contracts see it.
pub struct RustConfigView {
    pub cargo_path: Option<Seq<char>>,
    pub target_path: Option<Seq<char>>,
}

impl View for RustConfig {
    type V = RustConfigView;

    open spec fn view(&self) -> RustConfigView {
        RustConfigView {
            cargo_path: self.cargo_path.deep_view(),
            target_path: self.target_path.deep_view(),
        }
    }
}

/// Options of the TinyGo backend.
#[derive(Clone, Debug, PartialEq, Eq)]
pub struct TinyGoConfig {
    /// The compiler driver to run in place of the one on the search path.
    pub tinygo_path: Option<String>,
}

/// A `TinyGoConfig` as contracts see it.
pub struct TinyGoConfigView {
    pub tinygo_path: Option<Seq<char>>,
}

impl View for TinyGoConfig {
    type V = TinyGoConfigView;

    open spec fn view(&self) -> TinyGoConfigView {
        TinyGoConfigView { tinygo_path: self.tinygo_path.deep_view() }
    }
}

/// The language backend of a project together with its options: the
/// variant is the backend, so the two cannot disagree.
#[derive(Clone, Debug, PartialEq, Eq)]
pub enum BackendOptions {
    Rust(RustConfig),
    TinyGo(TinyGoConfig),
}

/// A `BackendOptions` as contracts see it.
pub enum BackendOptionsView {
    Rust(RustConfigView),
    TinyGo(TinyGoConfigView),
}

impl View for BackendOptions {
    type V = BackendOptionsView;

    open spec fn view(&self) -> BackendOptionsView {
        match self {
            BackendOptions::Rust(rust) => BackendOptionsView::Rust(rust@),
            BackendOptions::TinyGo(tinygo) => BackendOptionsView::TinyGo(tinygo@),
        }
    }
}

/// A resolved project declaration.
#[derive(Clone, Debug, PartialEq, Eq)]
pub struct ProjectConfig {
    pub kind: ProjectKind,
    pub language: BackendOptions,
    pub common: CommonConfig,
}

/// A `ProjectConfig` as contracts see it.
pub struct ProjectConfigView {
    pub kind: ProjectKindView,
    pub language: BackendOptionsView,
    pub common: CommonConfigView,
}

impl View for ProjectConfig {
    type V = ProjectConfigView;

    open spec fn view(&self) -> ProjectConfigView {
        ProjectConfigView { kind: self.kind@, language: self.language@, common: self.common@ }
    }
}

} // verus!
