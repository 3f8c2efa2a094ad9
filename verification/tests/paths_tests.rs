use suzent::errors::EnvError;
use suzent::paths::{
    find_bundled_python, find_uv, find_wheel, get_venv_python, join_path, marker_path,
    python_candidates, uv_candidates, venv_dir_path,
};

#[test]
fn venv_layout() {
    assert_eq!(venv_dir_path("/data"), "/data/backend-venv");
    assert_eq!(marker_path("/data/backend-venv"), "/data/backend-venv/.suzent-version");
    assert_eq!(join_path("a", "b"), "a/b");
}

#[test]
fn venv_python_per_platform() {
    assert_eq!(get_venv_python("/data/backend-venv", false), "/data/backend-venv/bin/python");
    assert_eq!(
        get_venv_python("/data/backend-venv", true),
        "/data/backend-venv/Scripts/python.exe"
    );
}

#[test]
fn uv_probe_order() {
    let c = uv_candidates("/res", false);
    assert_eq!(c, vec!["/res/uv".to_string(), "/res/resources/uv".to_string()]);
    let c = uv_candidates("/res", true);
    assert_eq!(c, vec!["/res/uv.exe".to_string(), "/res/resources/uv.exe".to_string()]);
}

#[test]
fn find_uv_picks_first_existing() {
    assert_eq!(find_uv("/res", false, &vec![true, true]), Ok("/res/uv".to_string()));
    assert_eq!(find_uv("/res", false, &vec![false, true]), Ok("/res/resources/uv".to_string()));
    assert_eq!(find_uv("/res", false, &vec![false, false]), Err(EnvError::ToolNotFound));
}

#[test]
fn python_probe_order_unix() {
    let c = python_candidates("/res", false);
    assert_eq!(
        c,
        vec![
            "/res/resources/python/bin/python3".to_string(),
            "/res/python/bin/python3".to_string(),
            "/res/resources/python/bin/python".to_string(),
            "/res/python/bin/python".to_string(),
        ]
    );
}

#[test]
fn python_probe_order_windows() {
    let c = python_candidates("/res", true);
    assert_eq!(
        c,
        vec![
            "/res/resources/python/python.exe".to_string(),
            "/res/python/python.exe".to_string(),
        ]
    );
}

#[test]
fn find_bundled_python_cases() {
    assert_eq!(
        find_bundled_python("/res", false, &vec![false, false, true, false]),
        Ok("/res/resources/python/bin/python".to_string())
    );
    assert_eq!(
        find_bundled_python("/res", false, &vec![false, false, false, false]),
        Err(EnvError::RuntimeNotFound)
    );
}

#[test]
fn find_wheel_selects_first_wheel() {
    let listing = vec![
        "README.md".to_string(),
        "suzent-1.0-py3-none-any.whl".to_string(),
        "other-2.0.whl".to_string(),
    ];
    assert_eq!(find_wheel(&listing), Some("suzent-1.0-py3-none-any.whl".to_string()));
}

#[test]
fn find_wheel_rejects_non_wheels() {
    // a bare ".whl" has no stem, so it carries no wheel extension
    assert_eq!(find_wheel(&vec![".whl".to_string(), "x.whl.txt".to_string()]), None);
    assert_eq!(find_wheel(&Vec::new()), None);
    assert_eq!(find_wheel(&vec!["a.whl".to_string()]), Some("a.whl".to_string()));
}
