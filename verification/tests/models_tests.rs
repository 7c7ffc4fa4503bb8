use voicepty::models::{
    bytes_to_mb, contains_bytes_exec, detect_language, ends_with_bytes_exec, is_valid_vosk_model,
    str_le, DirProbe, ModelManager, ScannedEntry,
};

fn probe(is_dir: bool) -> DirProbe {
    DirProbe {
        is_dir,
        has_am_dir: false,
        has_am_mdl: false,
        has_conf_dir: false,
        has_graph_dir: false,
        has_mfcc_conf: false,
        has_conf_mfcc_conf: false,
    }
}

fn entry(name: &str, path: &str, probe: DirProbe, size_mb: u64) -> ScannedEntry {
    ScannedEntry {
        name: name.to_string(),
        path: path.to_string(),
        probe,
        size_mb,
    }
}

#[test]
fn test_modules_compile() {
    // The catalogue, the engine models and the supervisor all link
    // together; their behaviour is covered by the other tests.
    let manager = ModelManager::new_isolated("/models".to_string());
    assert_eq!(manager.get_models_dir(), "/models");
}

#[test]
fn test_detect_language() {
    assert_eq!(detect_language("vosk-model-en-us-0.22"), "English (US)");
    assert_eq!(
        detect_language("vosk-model-small-en-us-0.15"),
        "English (US)"
    );
    assert_eq!(detect_language("vosk-model-de-0.21"), "German");
    assert_eq!(detect_language("vosk-model-fr-0.22"), "French");
    assert_eq!(detect_language("vosk-model-es-0.42"), "Spanish");
    assert_eq!(detect_language("vosk-model-cn-0.22"), "Chinese");
    assert_eq!(detect_language("vosk-model-ru-0.42"), "Russian");
    assert_eq!(detect_language("vosk-model-ja-0.22"), "Japanese");
    assert_eq!(detect_language("some-random-model"), "Unknown");
}

#[test]
fn test_detect_language_case_insensitive() {
    assert_eq!(detect_language("VOSK-MODEL-EN-US-0.22"), "English (US)");
    assert_eq!(detect_language("Vosk-Model-RU-0.42"), "Russian");
}

#[test]
fn test_model_manager_list_available() {
    let manager = ModelManager::new_isolated("/test/models".to_string());
    let models = manager.list_available_models();

    assert!(!models.is_empty());
    assert!(models.iter().any(|m| m.name.contains("small-en-us")));
}

#[test]
fn test_available_models_paths() {
    let manager = ModelManager::new_isolated("/test/models".to_string());
    let models = manager.list_available_models();
    assert_eq!(models.len(), 2);
    assert_eq!(models[0].path, "/test/models/vosk-model-small-en-us-0.15");
    assert_eq!(models[0].size_mb, 40);
    assert_eq!(models[1].path, "/test/models/vosk-model-en-us-0.22");
    assert_eq!(models[1].size_mb, 1800);
}

#[test]
fn test_is_valid_vosk_model_nonexistent() {
    // A path that does not exist probes as nothing at all.
    assert!(!is_valid_vosk_model(&DirProbe::absent()));
}

#[test]
fn test_is_valid_vosk_model_with_am_and_graph() {
    let mut p = probe(true);
    p.has_am_dir = true;
    p.has_graph_dir = true;
    assert!(
        is_valid_vosk_model(&p),
        "Model with am/ and graph/ directories should be valid"
    );
}

#[test]
fn test_is_valid_vosk_model_with_conf_and_graph() {
    let mut p = probe(true);
    p.has_conf_dir = true;
    p.has_graph_dir = true;
    assert!(
        is_valid_vosk_model(&p),
        "Model with conf/ and graph/ directories should be valid"
    );
}

#[test]
fn test_is_valid_vosk_model_with_mfcc_conf() {
    let mut p = probe(true);
    p.has_mfcc_conf = true;
    assert!(is_valid_vosk_model(&p), "Model with mfcc.conf should be valid");
}

#[test]
fn test_is_valid_vosk_model_empty_dir_is_invalid() {
    assert!(
        !is_valid_vosk_model(&probe(true)),
        "Empty directory should NOT be a valid model"
    );
}

#[test]
fn test_is_valid_vosk_model_only_am_is_invalid() {
    let mut p = probe(true);
    p.has_am_dir = true;
    // Missing graph/ directory
    assert!(
        !is_valid_vosk_model(&p),
        "Model with only am/ (no graph/) should NOT be valid"
    );
}

#[test]
fn test_list_installed_models_finds_valid_models() {
    let mut am_graph = probe(true);
    am_graph.has_am_dir = true;
    am_graph.has_graph_dir = true;

    let mut conf_graph = probe(true);
    conf_graph.has_conf_dir = true;
    conf_graph.has_graph_dir = true;

    let entries = vec![
        entry("vosk-model-en-us-0.22", "/m/vosk-model-en-us-0.22", am_graph, 1800),
        entry(
            "vosk-model-small-de-0.15",
            "/m/vosk-model-small-de-0.15",
            conf_graph,
            45,
        ),
        entry("not-a-model", "/m/not-a-model", probe(true), 0),
    ];

    let manager = ModelManager::new_isolated("/m".to_string());
    let installed = manager.list_installed_models(entries);

    assert_eq!(installed.len(), 2, "Should find exactly 2 valid models");
    assert!(
        installed.iter().any(|m| m.name == "vosk-model-en-us-0.22"),
        "Should find en-us model"
    );
    assert!(
        installed.iter().any(|m| m.name == "vosk-model-small-de-0.15"),
        "Should find de model"
    );

    let en_model = installed.iter().find(|m| m.name.contains("en-us")).unwrap();
    assert_eq!(en_model.language, "English (US)");

    let de_model = installed.iter().find(|m| m.name.contains("-de-")).unwrap();
    assert_eq!(de_model.language, "German");
}

#[test]
fn test_list_installed_models_empty_dir() {
    let manager = ModelManager::new_isolated("/empty".to_string());
    let installed = manager.list_installed_models(Vec::new());
    assert!(installed.is_empty(), "Empty models dir should return no models");
}

#[test]
fn test_list_installed_models_nonexistent_dir() {
    // A nonexistent directory scans to no entries at all.
    let manager = ModelManager::new_isolated("/this/path/does/not/exist".to_string());
    let installed = manager.list_installed_models(Vec::new());
    assert!(installed.is_empty(), "Nonexistent dir should return no models");
}

#[test]
fn test_list_installed_models_dedup_first_wins() {
    let mut valid = probe(true);
    valid.has_am_dir = true;
    valid.has_graph_dir = true;

    let entries = vec![
        entry("vosk-model-en-us-0.22", "/primary/vosk-model-en-us-0.22", valid, 1800),
        entry("vosk-model-en-us-0.22", "/extra/vosk-model-en-us-0.22", valid, 1800),
    ];
    let manager = ModelManager::new_isolated("/primary".to_string());
    let installed = manager.list_installed_models(entries);
    assert_eq!(installed.len(), 1);
    assert_eq!(installed[0].path, "/primary/vosk-model-en-us-0.22");
}

#[test]
fn test_list_installed_models_sorted() {
    let mut valid = probe(true);
    valid.has_mfcc_conf = true;

    let entries = vec![
        entry("vosk-model-ru-0.42", "/m/ru", valid, 10),
        entry("vosk-model-de-0.21", "/m/de", valid, 11),
        entry("vosk-model-fr-0.22", "/m/fr", valid, 12),
    ];
    let manager = ModelManager::new_isolated("/m".to_string());
    let installed = manager.list_installed_models(entries);
    let names: Vec<&str> = installed.iter().map(|m| m.name.as_str()).collect();
    assert_eq!(
        names,
        vec!["vosk-model-de-0.21", "vosk-model-fr-0.22", "vosk-model-ru-0.42"]
    );
}

#[test]
fn test_get_default_model() {
    let mut valid = probe(true);
    valid.has_am_dir = true;
    valid.has_graph_dir = true;

    let entries = vec![entry(
        "vosk-model-en-us-0.22",
        "/m/vosk-model-en-us-0.22",
        valid,
        1800,
    )];
    let manager = ModelManager::new_isolated("/m".to_string());
    let default = manager.get_default_model(entries);

    assert!(default.is_some(), "Should return a default model");
    assert_eq!(default.unwrap().name, "vosk-model-en-us-0.22");
}

#[test]
fn test_get_default_model_none_installed() {
    let manager = ModelManager::new_isolated("/m".to_string());
    assert!(manager.get_default_model(Vec::new()).is_none());
}

#[test]
fn test_search_dirs_dedup() {
    let mut manager = ModelManager::new_isolated("/app/models".to_string());
    manager.add_search_dir("/cwd/models".to_string(), true);
    manager.add_search_dir("/app/models".to_string(), true); // same as primary
    manager.add_search_dir("/cwd/models".to_string(), true); // already kept
    manager.add_search_dir("/gone/models".to_string(), false); // does not exist

    let dirs = manager.get_all_model_dirs();
    assert_eq!(dirs, vec!["/app/models".to_string(), "/cwd/models".to_string()]);
}

#[test]
fn test_byte_string_utilities() {
    let hay: Vec<u8> = b"vosk-model-en-us".to_vec();
    assert!(contains_bytes_exec(&hay, b"-en-"));
    assert!(!contains_bytes_exec(&hay, b"-zz-"));
    assert!(ends_with_bytes_exec(&hay, b"en-us"));
    assert!(!ends_with_bytes_exec(&hay, b"model"));
    assert!(str_le("abc", "abd"));
    assert!(str_le("ab", "abc"));
    assert!(!str_le("b", "abc"));
    assert!(str_le("same", "same"));
}

#[test]
fn test_bytes_to_mb() {
    assert_eq!(bytes_to_mb(0), 0);
    assert_eq!(bytes_to_mb(1048575), 0);
    assert_eq!(bytes_to_mb(1048576), 1);
    assert_eq!(bytes_to_mb(42 * 1048576 + 7), 42);
}
