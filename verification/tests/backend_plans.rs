use wash_lib::backend::build_rust_actor;
use wash_lib::backend::build_tinygo_actor;
use wash_lib::backend::canonical_artifact_path;
use wash_lib::backend::dispatch;
use wash_lib::backend::signed_artifact_path;
use wash_lib::backend::BuildPlan;
use wash_lib::backend::DEFAULT_TARGET_ROOT;
use wash_lib::backend::OUTPUT_DIRECTORY;
use wash_lib::config::ActorConfig;
use wash_lib::config::BackendOptions;
use wash_lib::config::CommonConfig;
use wash_lib::config::RustConfig;
use wash_lib::config::TinyGoConfig;
use wash_lib::config::Version;
use wash_lib::toolchain::resolve_driver;
use wash_lib::toolchain::Invocation;

fn strings(words: &[&str]) -> Vec<String> {
    words.iter().map(|w| w.to_string()).collect()
}

fn common(name: &str) -> CommonConfig {
    CommonConfig {
        name: name.to_string(),
        version: Version::new(0, 1, 0),
        claims: Vec::new(),
        call_alias: None,
    }
}

fn wasm32() -> ActorConfig {
    ActorConfig { wasm_target: "wasm32-unknown-unknown".to_string() }
}

#[test]
fn canonical_paths_are_made_of_the_name() {
    assert_eq!(canonical_artifact_path("hello"), "build/hello.wasm");
    assert_eq!(signed_artifact_path("hello"), "build/hello_s.wasm");
    assert_eq!(canonical_artifact_path(""), "build/.wasm");
    assert_eq!(signed_artifact_path("my actor"), "build/my actor_s.wasm");
    assert_eq!(OUTPUT_DIRECTORY, "build");
    assert_eq!(DEFAULT_TARGET_ROOT, "target");
}

#[test]
fn driver_is_the_override_or_the_standard_name() {
    assert_eq!(resolve_driver(&None, "cargo"), "cargo");
    assert_eq!(resolve_driver(&Some("/opt/bin/cargo".to_string()), "cargo"), "/opt/bin/cargo");
    assert_eq!(resolve_driver(&Some(String::new()), "tinygo"), "");
}

#[test]
fn rust_plan_without_overrides() {
    let plan =
        build_rust_actor(&common("hello"), &RustConfig { cargo_path: None, target_path: None }, &wasm32());

    assert_eq!(
        plan,
        BuildPlan {
            invocation: Invocation {
                program: "cargo".to_string(),
                args: strings(&["build", "--release"]),
            },
            produced: "target/wasm32-unknown-unknown/release/hello.wasm".to_string(),
            artifact: "build/hello.wasm".to_string(),
            relocate: true,
        }
    );
}

#[test]
fn rust_plan_with_overrides() {
    let rust = RustConfig {
        cargo_path: Some("/toolchains/nightly/cargo".to_string()),
        target_path: Some("/tmp/out".to_string()),
    };
    let actor = ActorConfig { wasm_target: "wasm32-wasi".to_string() };

    let plan = build_rust_actor(&common("kv"), &rust, &actor);

    assert_eq!(plan.invocation.program, "/toolchains/nightly/cargo");
    assert_eq!(plan.invocation.args, strings(&["build", "--release"]));
    assert_eq!(plan.produced, "/tmp/out/wasm32-wasi/release/kv.wasm");
    assert_eq!(plan.artifact, "build/kv.wasm");
    assert!(plan.relocate);
}

#[test]
fn tinygo_plan_writes_to_the_canonical_path() {
    let plan = build_tinygo_actor(&common("echo"), &TinyGoConfig { tinygo_path: None });

    assert_eq!(
        plan,
        BuildPlan {
            invocation: Invocation {
                program: "tinygo".to_string(),
                args: strings(&[
                    "build",
                    "-o",
                    "build/echo.wasm",
                    "-target",
                    "wasm",
                    "-scheduler",
                    "none",
                    "-no-debug",
                    ".",
                ]),
            },
            produced: "build/echo.wasm".to_string(),
            artifact: "build/echo.wasm".to_string(),
            relocate: false,
        }
    );
}

#[test]
fn tinygo_plan_with_override() {
    let tinygo = TinyGoConfig { tinygo_path: Some("/usr/local/tinygo/bin/tinygo".to_string()) };

    let plan = build_tinygo_actor(&common("echo"), &tinygo);

    assert_eq!(plan.invocation.program, "/usr/local/tinygo/bin/tinygo");
    assert_eq!(plan.invocation.args[2], "build/echo.wasm");
}

#[test]
fn dispatch_goes_by_the_backend() {
    let rust = RustConfig { cargo_path: None, target_path: None };
    let tinygo = TinyGoConfig { tinygo_path: None };

    assert_eq!(
        dispatch(&BackendOptions::Rust(rust.clone()), &common("hello"), &wasm32()),
        build_rust_actor(&common("hello"), &rust, &wasm32())
    );
    assert_eq!(
        dispatch(&BackendOptions::TinyGo(tinygo.clone()), &common("hello"), &wasm32()),
        build_tinygo_actor(&common("hello"), &tinygo)
    );
}
