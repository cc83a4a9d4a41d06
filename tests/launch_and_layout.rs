use companion_core::launch::{backend_candidates, plan_launch, select_backend};
use companion_core::secrets::{encryption_key_for, store_api_key};
use companion_core::text::{decimal_string, join_path};
use companion_core::workspace::{history_with, history_without, Vault, VaultConfig, VaultHistoryEntry};

fn entry(name: &str, path: &str) -> VaultHistoryEntry {
    VaultHistoryEntry { name: name.to_string(), path: path.to_string() }
}

fn paths(h: &[VaultHistoryEntry]) -> Vec<String> {
    h.iter().map(|e| e.path.clone()).collect()
}

#[test]
fn decimal_rendering() {
    assert_eq!(decimal_string(0), "0");
    assert_eq!(decimal_string(8000), "8000");
    assert_eq!(decimal_string(65535), "65535");
    assert_eq!(decimal_string(10), "10");
}

#[test]
fn path_joining() {
    assert_eq!(join_path("/a/b", "c"), "/a/b/c");
    assert_eq!(join_path("", "c"), "c");
}

#[test]
fn candidate_order() {
    let c = backend_candidates(Some("/Apps/N.app/Contents/MacOS"));
    assert_eq!(
        c,
        vec![
            "/Apps/N.app/Contents/MacOS/../Resources/narrativ-backend".to_string(),
            "resources/narrativ-backend".to_string(),
            "src-tauri/resources/narrativ-backend".to_string(),
            "../resources/narrativ-backend".to_string(),
        ]
    );
    assert_eq!(backend_candidates(None).len(), 3);
}

#[test]
fn first_present_candidate_wins() {
    let c = backend_candidates(Some("/x"));
    assert_eq!(select_backend(&c, &vec![false, false, true, true]), Some(c[2].clone()));
    assert_eq!(select_backend(&c, &vec![true, true, true, true]), Some(c[0].clone()));
    assert_eq!(select_backend(&c, &vec![false, false, false, false]), None);
}

#[test]
fn launch_plan_for_interpreter() {
    let k = encryption_key_for("/home/alice");
    let stored = store_api_key(&k, None, "google_api_key", "g-1").unwrap();
    let plan = plan_launch(None, "/dev/backend", 8000, &k, Some(stored.as_str()));
    assert_eq!(plan.program, "python3");
    assert_eq!(plan.args, vec!["/dev/backend/main.py".to_string()]);
    let env: Vec<(String, String)> = vec![
        ("NARRATIV_PORT".to_string(), "8000".to_string()),
        ("GOOGLE_API_KEY".to_string(), "g-1".to_string()),
        ("TAVILY_API_KEY".to_string(), String::new()),
        ("FAL_API_KEY".to_string(), String::new()),
    ];
    assert_eq!(plan.env, env);
}

#[test]
fn launch_plan_for_bundled() {
    let k = encryption_key_for("/home/alice");
    let plan = plan_launch(Some("/opt/worker"), "/dev/backend", 9001, &k, None);
    assert_eq!(plan.program, "/opt/worker");
    assert!(plan.args.is_empty());
    assert_eq!(plan.env[0], ("NARRATIV_PORT".to_string(), "9001".to_string()));
    assert_eq!(plan.env.len(), 4);
}

#[test]
fn vault_layout_paths() {
    let v = Vault { path: "/w".to_string() };
    assert_eq!(v.config_dir(), "/w/.revelio");
    assert_eq!(v.research_dir(), "/w/research");
    assert_eq!(v.attachments_dir(), "/w/attachments");
    assert_eq!(v.styles_dir(), "/w/styles");
    assert_eq!(v.layout_dirs().len(), 4);
    assert_eq!(Vault::manifest_path("/w"), "/w/.revelio/config.json");
}

#[test]
fn vault_open_requires_manifest() {
    assert_eq!(Vault::open("/w", true).unwrap().path, "/w");
    match Vault::open("/w", false) {
        Err(e) => assert_eq!(e, "Not a valid Revelio vault"),
        Ok(_) => panic!("a workspace without a manifest must not open"),
    }
}

#[test]
fn new_manifest_version() {
    let c = VaultConfig::new("2024-01-01T00:00:00+00:00");
    assert_eq!(c.version, "1.0.0");
    assert_eq!(c.created_at, "2024-01-01T00:00:00+00:00");
}

#[test]
fn history_moves_reopened_workspace_first() {
    let h = vec![entry("a", "/a"), entry("b", "/b"), entry("c", "/c")];
    let r = history_with(&h, "b2", "/b");
    assert_eq!(paths(&r), vec!["/b", "/a", "/c"]);
    assert_eq!(r[0].name, "b2");
}

#[test]
fn history_keeps_ten() {
    let h: Vec<VaultHistoryEntry> = (0..10).map(|i| entry("n", &format!("/ws{}", i))).collect();
    let r = history_with(&h, "new", "/new");
    assert_eq!(r.len(), 10);
    assert_eq!(r[0].path, "/new");
    assert_eq!(r[9].path, "/ws8");
}

#[test]
fn history_removal() {
    let h = vec![entry("a", "/a"), entry("b", "/b"), entry("a2", "/a")];
    assert_eq!(paths(&history_without(&h, "/a")), vec!["/b"]);
    assert_eq!(paths(&history_without(&h, "/zzz")), vec!["/a", "/b", "/a"]);
    assert!(history_without(&Vec::new(), "/a").is_empty());
}
