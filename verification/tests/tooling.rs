use seishin2d::tooling::{
    crate_file_name, example_package_name, has_release_flag, package_name_from, parse_example,
    parse_task, wasm_build_args, wasm_module_path, web_index_html, web_output_dir, ToolTask,
};

fn args(values: &[&str]) -> Vec<String> {
    values.iter().map(|v| v.to_string()).collect()
}

#[test]
fn tool_tasks_are_named_by_the_first_argument() {
    assert_eq!(parse_task(&args(&[])), ToolTask::Missing);
    assert_eq!(parse_task(&args(&["check"])), ToolTask::Check);
    assert_eq!(
        parse_task(&args(&["web-build", "--example", "basic_2d"])),
        ToolTask::WebBuild(args(&["--example", "basic_2d"]))
    );
    assert_eq!(
        parse_task(&args(&["web-serve"])),
        ToolTask::WebServe(Vec::new())
    );
    assert_eq!(
        parse_task(&args(&["deploy"])),
        ToolTask::Unknown("deploy".to_string())
    );
}

#[test]
fn web_builds_name_their_example_and_profile() {
    assert_eq!(
        parse_example(&args(&["--release", "--example", "basic_2d"])),
        Some("basic_2d".to_string())
    );
    assert_eq!(parse_example(&args(&["--example"])), None);
    assert_eq!(parse_example(&args(&[])), None);
    assert!(has_release_flag(&args(&["--example", "x", "--release"])));
    assert!(!has_release_flag(&args(&["--example", "x"])));
}

#[test]
fn web_build_plan_uses_crate_file_names() {
    assert_eq!(crate_file_name("seishin-basic-2d"), "seishin_basic_2d");
    assert_eq!(
        wasm_build_args("seishin-basic-2d", true),
        args(&[
            "build",
            "--target",
            "wasm32-unknown-unknown",
            "-p",
            "seishin-basic-2d",
            "--release"
        ])
    );
    assert_eq!(wasm_build_args("x", false).len(), 5);
    assert_eq!(web_output_dir("basic_2d"), "target/web/basic_2d");
    assert_eq!(
        wasm_module_path("seishin-basic-2d", false),
        "target/wasm32-unknown-unknown/debug/seishin_basic_2d.wasm"
    );
    let page = web_index_html("seishin_basic_2d");
    assert!(page.starts_with("<!doctype html>"));
    assert!(page.contains("import init from './seishin_basic_2d.js';"));
    assert!(page.ends_with("</html>\n"));
}

#[test]
fn example_package_name_reads_the_manifest() {
    assert_eq!(
        example_package_name("[package]\nname = \"seishin-basic-2d\"\nversion = \"0.1.0\"\n"),
        Ok("seishin-basic-2d".to_string())
    );
    assert_eq!(
        example_package_name("[package]\nversion = \"0.1.0\"\n"),
        Err("package name not found in example Cargo.toml".to_string())
    );
    assert_eq!(
        example_package_name("[dependencies]\n"),
        Err("package name not found in example Cargo.toml".to_string())
    );
    assert_eq!(
        example_package_name("[package]\nname = 3\n"),
        Err("package name not found in example Cargo.toml".to_string())
    );
    let invalid = example_package_name("[package\nname = ").unwrap_err();
    assert!(invalid.starts_with("invalid example Cargo.toml: "));
    assert!(invalid.len() > "invalid example Cargo.toml: ".len());
}

#[test]
fn package_name_from_reports_each_outcome() {
    assert_eq!(package_name_from(Ok(Some("game".to_string()))), Ok("game".to_string()));
    assert_eq!(
        package_name_from(Ok(None)),
        Err("package name not found in example Cargo.toml".to_string())
    );
    assert_eq!(
        package_name_from(Err("expected `]`".to_string())),
        Err("invalid example Cargo.toml: expected `]`".to_string())
    );
}
