use suzent::sync::{
    asset_dir_names, is_example_name, live_name, pick_source_dir, sync_plan, CopyStep,
    TemplateFile,
};

fn tf(dir: &str, name: &str) -> TemplateFile {
    TemplateFile { dir: dir.to_string(), name: name.to_string() }
}

fn step(from: &str, to: &str) -> CopyStep {
    CopyStep { from: from.to_string(), to: to.to_string() }
}

#[test]
fn example_naming() {
    assert!(is_example_name("config.example.toml"));
    assert!(is_example_name(".example."));
    assert!(!is_example_name("config.toml"));
    assert!(!is_example_name("example.toml"));
    assert!(!is_example_name("config.example"));
}

#[test]
fn live_names() {
    assert_eq!(live_name("config.example.toml"), "config.toml");
    assert_eq!(live_name("plain.txt"), "plain.txt");
    assert_eq!(live_name(""), "");
    // replacement scans left to right without revisiting, as str::replace does
    assert_eq!(
        live_name("a.example.example.txt"),
        "a.example.example.txt".replace(".example.", ".")
    );
}

#[test]
fn first_install_copies_everything_and_seeds() {
    let files = vec![tf("", "settings.example.toml"), tf("", "readme.txt")];
    let plan = sync_plan(&files, &Vec::new(), true);
    assert_eq!(
        plan,
        vec![
            step("settings.example.toml", "settings.example.toml"),
            step("settings.example.toml", "settings.toml"),
            step("readme.txt", "readme.txt"),
        ]
    );
}

#[test]
fn first_install_does_not_seed_over_shipped_live_file() {
    let files = vec![tf("", "x.example.txt"), tf("", "x.txt")];
    let plan = sync_plan(&files, &Vec::new(), true);
    assert_eq!(
        plan,
        vec![step("x.example.txt", "x.example.txt"), step("x.txt", "x.txt")]
    );
}

#[test]
fn refresh_preserves_user_file() {
    // the user's live file pre-exists: no step may target it
    let files = vec![tf("", "a.txt")];
    let plan = sync_plan(&files, &vec!["a.txt".to_string()], false);
    assert_eq!(plan, Vec::new());
}

#[test]
fn refresh_restores_missing_plain_file() {
    let files = vec![tf("", "a.txt")];
    let plan = sync_plan(&files, &Vec::new(), false);
    assert_eq!(plan, vec![step("a.txt", "a.txt")]);
}

#[test]
fn refresh_always_updates_example_and_keeps_existing_live() {
    let files = vec![tf("", "c.example.toml")];
    let dest = vec!["c.example.toml".to_string(), "c.toml".to_string()];
    let plan = sync_plan(&files, &dest, false);
    // the example copy is refreshed; the existing live file is untouched
    assert_eq!(plan, vec![step("c.example.toml", "c.example.toml")]);
}

#[test]
fn refresh_seeds_missing_live_file() {
    let files = vec![tf("", "c.example.toml")];
    let dest = vec!["c.example.toml".to_string()];
    let plan = sync_plan(&files, &dest, false);
    assert_eq!(
        plan,
        vec![
            step("c.example.toml", "c.example.toml"),
            step("c.example.toml", "c.toml"),
        ]
    );
}

#[test]
fn refresh_in_subdirectory() {
    let files = vec![tf("sub", "c.example.toml"), tf("sub/deep", "p.txt")];
    let dest = vec!["sub/c.toml".to_string()];
    let plan = sync_plan(&files, &dest, false);
    assert_eq!(
        plan,
        vec![
            step("sub/c.example.toml", "sub/c.example.toml"),
            step("sub/deep/p.txt", "sub/deep/p.txt"),
        ]
    );
}

#[test]
fn source_dir_probe() {
    assert_eq!(
        pick_source_dir("/res", "config", true, true),
        Some("/res/resources/config".to_string())
    );
    assert_eq!(pick_source_dir("/res", "config", false, true), Some("/res/config".to_string()));
    assert_eq!(pick_source_dir("/res", "config", false, false), None);
}

#[test]
fn asset_dirs() {
    assert_eq!(asset_dir_names(), vec!["config".to_string(), "skills".to_string()]);
}
