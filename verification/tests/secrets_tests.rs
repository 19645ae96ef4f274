use hifi_rs::secrets::{
    app_id_of, bundle_config, bundle_path, decode_secret, info_pattern, secret_text, secrets_of_seed, seeds_of,
};

const APP: &str = r#"cluster:"eu"}):(n.qobuzapi={app_id:"123456789",app_secret:"abcdefghijklmnopqrstuvwxyz012345",base_port:"80",base_url:"https://www.qobuz.com",base_method:"/api.json/0.2/"},n"#;

fn bundle() -> String {
    let extras = "X".repeat(44);
    format!(
        "{APP} a.initialSeed(\"bXkgc2Vj\",window.utimezone.berlin) name:\"Europe/Berlin\",info:\"cmV0IHZhbHVlIQ==\",extras:\"{extras}\""
    )
}

#[test]
fn script_path_and_app_id() {
    let page = r#"<html><script src="/resources/7.1.2-b011/bundle.js"></script></html>"#;
    assert_eq!(bundle_path(page).as_deref(), Some("/resources/7.1.2-b011/bundle.js"));
    assert_eq!(bundle_path("nothing here"), None);
    assert_eq!(app_id_of(&bundle()).as_deref(), Some("123456789"));
    assert_eq!(app_id_of("no id"), None);
}

#[test]
fn seeds_and_secrets() {
    let b = bundle();
    assert_eq!(seeds_of(&b), vec![("bXkgc2Vj".to_string(), "berlin".to_string())]);
    assert!(info_pattern("berlin").contains("Berlin"));
    let secrets = secrets_of_seed(&b, "bXkgc2Vj", "berlin").unwrap();
    assert_eq!(secrets, vec![("Berlin".to_string(), "my secret value!".to_string())]);
    assert_eq!(
        bundle_config(&b),
        Some((Some("123456789".to_string()), vec![("Berlin".to_string(), "my secret value!".to_string())]))
    );
    assert_eq!(bundle_config("plain text"), Some((None, vec![])));
}

#[test]
fn cutting_and_decoding() {
    let tail = "Y".repeat(44);
    assert_eq!(secret_text("ab", "cd", &tail), "abcd");
    assert_eq!(secret_text("é", "", &tail), "é");
    assert_eq!(decode_secret("bXkgc2VjcmV0IHZhbHVlIQ==").as_deref(), Some("my secret value!"));
    assert_eq!(decode_secret("***"), None);
    assert_eq!(decode_secret("/w=="), None);
}

#[test]
fn uncuttable_secrets_are_refused() {
    let b = format!("name:\"Europe/Berlin\",info:\"abc\",extras:\"short\"");
    assert_eq!(secrets_of_seed(&b, "s", "berlin"), None);
    let none = "no match at all";
    assert_eq!(secrets_of_seed(none, "s", "berlin"), Some(vec![]));
}
