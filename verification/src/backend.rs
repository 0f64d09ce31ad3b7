//! The language backends. Each turns a project declaration into a build
//! plan: the compiler invocation, where the compiler leaves the module, and
//! the canonical place every later stage expects it in.

use crate::config::{
    ActorConfig, ActorConfigView, BackendOptions, BackendOptionsView, CommonConfig,
    CommonConfigView, RustConfig, RustConfigView, TinyGoConfig, TinyGoConfigView,
};
use crate::toolchain::{resolve_driver, resolved_driver, Invocation, InvocationView};
use vstd::prelude::*;

verus! {

/// The directory, relative to the project root, that holds the build's
/// output.
pub const OUTPUT_DIRECTORY: &'static str = "build";

/// The build-output root of the Rust toolchain when none is configured.
pub const DEFAULT_TARGET_ROOT: &'static str = "target";

/// Where the unsigned module of project `name` belongs: `build/<name>.wasm`.
pub open spec fn canonical_artifact(name: Seq<char>) -> Seq<char> {
    OUTPUT_DIRECTORY@ + "/"@ + name + ".wasm"@
}

/// Where the signed module of project `name` belongs: `build/<name>_s.wasm`.
pub open spec fn signed_artifact(name: Seq<char>) -> Seq<char> {
    OUTPUT_DIRECTORY@ + "/"@ + name + "_s.wasm"@
}

/// The build-output root of the Rust toolchain: the configured one, else
/// `target`.
pub open spec fn target_root(target_path: Option<Seq<char>>) -> Seq<char> {
    match target_path {
        Some(root) => root,
        None => DEFAULT_TARGET_ROOT@,
    }
}

/// Where a release build of the Rust toolchain leaves the module:
/// `<target root>/<target triple>/release/<name>.wasm`.
pub open spec fn rust_artifact(
    target_path: Option<Seq<char>>,
    wasm_target: Seq<char>,
    name: Seq<char>,
) -> Seq<char> {
    target_root(target_path) + "/"@ + wasm_target + "/release/"@ + name + ".wasm"@
}

/// Writes the canonical path of the unsigned module.
pub fn canonical_artifact_path(name: &str) -> (path: String)
    ensures
        path@ == canonical_artifact(name@),
{
    let mut path = String::from_str(OUTPUT_DIRECTORY);
    path.append("/");
    path.append(name);
    path.append(".wasm");
    path
}

/// Writes the canonical path of the signed module.
pub fn signed_artifact_path(name: &str) -> (path: String)
    ensures
        path@ == signed_artifact(name@),
{
    let mut path = String::from_str(OUTPUT_DIRECTORY);
    path.append("/");
    path.append(name);
    path.append("_s.wasm");
    path
}

/// What a backend asks for and promises.
#[derive(Clone, Debug, PartialEq, Eq)]
pub struct BuildPlan {
    /// The compiler run.
    pub invocation: Invocation,
    /// Where the compiler leaves the module.
    pub produced: String,
    /// Where the module is handed on from.
    pub artifact: String,
    /// Whether the module has to be moved from `produced` to `artifact`.
    pub relocate: bool,
}

/// A `BuildPlan` as contracts see it.
pub struct BuildPlanView {
    pub invocation: InvocationView,
    pub produced: Seq<char>,
    pub artifact: Seq<char>,
    pub relocate: bool,
}

impl View for BuildPlan {
    type V = BuildPlanView;

    open spec fn view(&self) -> BuildPlanView {
        BuildPlanView {
            invocation: self.invocation@,
            produced: self.produced@,
            artifact: self.artifact@,
            relocate: self.relocate,
        }
    }
}

/// The plan of the Rust backend: a release build by cargo, whose output is
/// then moved into the output directory.
pub open spec fn rust_plan(
    common: CommonConfigView,
    rust: RustConfigView,
    actor: ActorConfigView,
) -> BuildPlanView {
    BuildPlanView {
        invocation: InvocationView {
            program: resolved_driver(rust.cargo_path, "cargo"@),
            args: seq!["build"@, "--release"@],
        },
        produced: rust_artifact(rust.target_path, actor.wasm_target, common.name),
        artifact: canonical_artifact(common.name),
        relocate: true,
    }
}

/// The plan of the TinyGo backend: the compiler writes straight to the
/// canonical path, for the WebAssembly target, without scheduler and
/// without debug information.
pub open spec fn tinygo_plan(common: CommonConfigView, tinygo: TinyGoConfigView) -> BuildPlanView {
    BuildPlanView {
        invocation: InvocationView {
            program: resolved_driver(tinygo.tinygo_path, "tinygo"@),
            args: seq![
                "build"@,
                "-o"@,
                canonical_artifact(common.name),
                "-target"@,
                "wasm"@,
                "-scheduler"@,
                "none"@,
                "-no-debug"@,
                "."@,
            ],
        },
        produced: canonical_artifact(common.name),
        artifact: canonical_artifact(common.name),
        relocate: false,
    }
}

/// The plan of whichever backend the declaration names.
pub open spec fn plan_for(
    language: BackendOptionsView,
    common: CommonConfigView,
    actor: ActorConfigView,
) -> BuildPlanView {
    match language {
        BackendOptionsView::Rust(rust) => rust_plan(common, rust, actor),
        BackendOptionsView::TinyGo(tinygo) => tinygo_plan(common, tinygo),
    }
}

/// Plans the build of a Rust actor.
pub fn build_rust_actor(
    common_config: &CommonConfig,
    rust_config: &RustConfig,
    actor_config: &ActorConfig,
) -> (plan: BuildPlan)
    ensures
        plan@ == rust_plan(common_config@, rust_config@, actor_config@),
{
    let program = resolve_driver(&rust_config.cargo_path, "cargo");
    let mut args: Vec<String> = Vec::new();
    args.push(String::from_str("build"));
    args.push(String::from_str("--release"));
    assert(args.deep_view() =~= seq!["build"@, "--release"@]);

    let mut produced = match &rust_config.target_path {
        Some(root) => root.clone(),
        None => String::from_str(DEFAULT_TARGET_ROOT),
    };
    produced.append("/");
    produced.append(actor_config.wasm_target.as_str());
    produced.append("/release/");
    produced.append(common_config.name.as_str());
    produced.append(".wasm");

    BuildPlan {
        invocation: Invocation { program, args },
        produced,
        artifact: canonical_artifact_path(common_config.name.as_str()),
        relocate: true,
    }
}

/// Plans the build of a TinyGo actor.
pub fn build_tinygo_actor(common_config: &CommonConfig, tinygo_config: &TinyGoConfig) -> (plan:
    BuildPlan)
    ensures
        plan@ == tinygo_plan(common_config@, tinygo_config@),
{
    let program = resolve_driver(&tinygo_config.tinygo_path, "tinygo");
    let mut args: Vec<String> = Vec::new();
    args.push(String::from_str("build"));
    args.push(String::from_str("-o"));
    args.push(canonical_artifact_path(common_config.name.as_str()));
    args.push(String::from_str("-target"));
    args.push(String::from_str("wasm"));
    args.push(String::from_str("-scheduler"));
    args.push(String::from_str("none"));
    args.push(String::from_str("-no-debug"));
    args.push(String::from_str("."));
    assert(args.deep_view() =~= tinygo_plan(common_config@, tinygo_config@).invocation.args);

    BuildPlan {
        invocation: Invocation { program, args },
        produced: canonical_artifact_path(common_config.name.as_str()),
        artifact: canonical_artifact_path(common_config.name.as_str()),
        relocate: false,
    }
}

/// Hands the declaration to the backend it names.
pub fn dispatch(language: &BackendOptions, common: &CommonConfig, actor: &ActorConfig) -> (plan:
    BuildPlan)
    ensures
        plan@ == plan_for(language@, common@, actor@),
{
    match language {
        BackendOptions::Rust(rust_config) => build_rust_actor(common, rust_config, actor),
        BackendOptions::TinyGo(tinygo_config) => build_tinygo_actor(common, tinygo_config),
    }
}

} // verus!
