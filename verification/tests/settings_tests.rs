use framed_bridge::ollama::{base_url, find_loaded, vram_label, LoadedModel, OllamaBridge};
use framed_bridge::settings::{
    apply_setting, default_accent_color, default_ai_provider, default_enable_ai,
    default_num_gpu, ApiKeys, AppSettings, SettingValue, SettingsError, SupabaseConfig,
};

#[test]
fn defaults_match_the_documented_values() {
    let s = AppSettings::default();
    assert!(s.auto_start_ollama);
    assert_eq!(s.theme, "system");
    assert_eq!(s.language, "en");
    assert_eq!(s.accent_color, "violet");
    assert!(s.enable_ai);
    assert_eq!(s.ai_provider, "gemini");
    assert_eq!(s.model_name, "");
    assert_eq!(s.api_keys, ApiKeys::default());
    assert_eq!(s.supabase_config, SupabaseConfig::default());
    assert_eq!(default_num_gpu(), -1);
    assert_eq!(default_accent_color(), "violet");
    assert_eq!(default_ai_provider(), "gemini");
    assert!(default_enable_ai());
}

#[test]
fn text_settings_update_and_fall_back() {
    let mut s = AppSettings::default();
    apply_setting(&mut s, &"theme".to_string(), SettingValue::Text("dark".to_string())).unwrap();
    assert_eq!(s.theme, "dark");
    // A value of the wrong kind falls back to the key's default.
    apply_setting(&mut s, &"theme".to_string(), SettingValue::Bool(true)).unwrap();
    assert_eq!(s.theme, "system");
    apply_setting(&mut s, &"accentColor".to_string(), SettingValue::Other).unwrap();
    assert_eq!(s.accent_color, "violet");
    apply_setting(&mut s, &"aiProvider".to_string(), SettingValue::Text("groq".to_string()))
        .unwrap();
    assert_eq!(s.ai_provider, "groq");
    apply_setting(&mut s, &"aiProvider".to_string(), SettingValue::Other).unwrap();
    assert_eq!(s.ai_provider, "gemini");
    apply_setting(&mut s, &"modelName".to_string(), SettingValue::Text("llama3.2".to_string()))
        .unwrap();
    assert_eq!(s.model_name, "llama3.2");
    apply_setting(&mut s, &"modelName".to_string(), SettingValue::Bool(false)).unwrap();
    assert_eq!(s.model_name, "");
}

#[test]
fn boolean_settings_update_and_fall_back() {
    let mut s = AppSettings::default();
    apply_setting(&mut s, &"auto_start_ollama".to_string(), SettingValue::Bool(false)).unwrap();
    assert!(!s.auto_start_ollama);
    apply_setting(&mut s, &"auto_start_ollama".to_string(), SettingValue::Text("x".to_string()))
        .unwrap();
    assert!(s.auto_start_ollama);
    apply_setting(&mut s, &"enableAI".to_string(), SettingValue::Bool(false)).unwrap();
    assert!(!s.enable_ai);
    apply_setting(&mut s, &"enableAI".to_string(), SettingValue::Other).unwrap();
    assert!(s.enable_ai);
}

#[test]
fn structured_settings_keep_old_value_when_undecodable() {
    let mut s = AppSettings::default();
    let keys = ApiKeys {
        gemini: "g".to_string(),
        groq: "q".to_string(),
        openai: "o".to_string(),
        openrouter: "r".to_string(),
        opencode: "c".to_string(),
    };
    apply_setting(&mut s, &"apiKeys".to_string(), SettingValue::Keys(keys.clone())).unwrap();
    assert_eq!(s.api_keys, keys);
    // A value that did not decode as the block leaves it unchanged.
    apply_setting(&mut s, &"apiKeys".to_string(), SettingValue::Text("nope".to_string()))
        .unwrap();
    assert_eq!(s.api_keys, keys);
    let sb = SupabaseConfig { url: "http://db".to_string(), key: "SECRET-REDACTED".to_string() };
    apply_setting(&mut s, &"supabaseConfig".to_string(), SettingValue::Supabase(sb.clone()))
        .unwrap();
    assert_eq!(s.supabase_config, sb);
    apply_setting(&mut s, &"supabaseConfig".to_string(), SettingValue::Other).unwrap();
    assert_eq!(s.supabase_config, sb);
}

#[test]
fn unknown_keys_are_refused_and_change_nothing() {
    let mut s = AppSettings::default();
    let before = s.clone();
    let r = apply_setting(&mut s, &"fontSize".to_string(), SettingValue::Bool(true));
    assert_eq!(r, Err(SettingsError::UnknownKey));
    assert_eq!(s, before);
}

#[test]
fn base_url_pins_localhost_to_loopback() {
    assert_eq!(
        base_url(&b"localhost".to_vec(), 11434),
        b"http://127.0.0.1:11434".to_vec(),
    );
    assert_eq!(
        base_url(&b"LOCALHOST".to_vec(), 11434),
        b"http://127.0.0.1:11434".to_vec(),
    );
    assert_eq!(base_url(&b"".to_vec(), 80), b"http://127.0.0.1:80".to_vec());
    assert_eq!(base_url(&b"   ".to_vec(), 80), b"http://127.0.0.1:80".to_vec());
}

#[test]
fn base_url_keeps_other_hosts_and_trims() {
    assert_eq!(
        base_url(&b" my.host ".to_vec(), 8080),
        b"http://my.host:8080".to_vec(),
    );
    assert_eq!(
        base_url(&b"192.168.1.4".to_vec(), 1),
        b"http://192.168.1.4:1".to_vec(),
    );
    // A host merely containing the word keeps its spelling.
    assert_eq!(
        base_url(&b"localhost2".to_vec(), 80),
        b"http://localhost2:80".to_vec(),
    );
}

#[test]
fn loaded_models_are_found_by_name_last_report_wins() {
    let reports = vec![
        LoadedModel { name: b"llama3.2".to_vec(), vram_bytes: Some(2 * 1048576), expires_at: None },
        LoadedModel { name: b"phi3".to_vec(), vram_bytes: None, expires_at: Some(b"\"soon\"".to_vec()) },
        LoadedModel { name: b"llama3.2".to_vec(), vram_bytes: Some(3 * 1048576), expires_at: None },
    ];
    let j = find_loaded(&reports, &b"llama3.2".to_vec()).unwrap();
    assert_eq!(j, 2);
    assert_eq!(reports[j].vram_bytes, Some(3 * 1048576));
    assert!(find_loaded(&reports, &b"mistral".to_vec()).is_none());
}

#[test]
fn vram_labels_are_whole_megabytes() {
    assert_eq!(vram_label(0), b"0 MB".to_vec());
    assert_eq!(vram_label(1048575), b"0 MB".to_vec());
    assert_eq!(vram_label(5 * 1048576 + 7), b"5 MB".to_vec());
}

#[test]
fn bridge_start_succeeds() {
    let b = OllamaBridge::new();
    assert!(b.start().is_ok());
}
