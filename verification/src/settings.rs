//! Application settings: the defaults, and the keyed-update rule that
//! decides how one incoming value changes the stored settings.
//!
//! Persistence is an unverified boundary: the application reads the
//! stored file, decodes each incoming value into a [`SettingValue`],
//! applies it here, and writes the result back.  Model-tuning settings
//! carry floating-point knobs and live wholly at that boundary.

use vstd::prelude::*;

verus! {

/// Keys of the external services the application may talk to.
#[derive(Debug, Clone, PartialEq, Eq)]
pub struct ApiKeys {
    pub gemini: String,
    pub groq: String,
    pub openai: String,
    pub openrouter: String,
    pub opencode: String,
}

pub struct ApiKeysS {
    pub gemini: Seq<char>,
    pub groq: Seq<char>,
    pub openai: Seq<char>,
    pub openrouter: Seq<char>,
    pub opencode: Seq<char>,
}

impl View for ApiKeys {
    type V = ApiKeysS;

    open spec fn view(&self) -> ApiKeysS {
        ApiKeysS {
            gemini: self.gemini@,
            groq: self.groq@,
            openai: self.openai@,
            openrouter: self.openrouter@,
            opencode: self.opencode@,
        }
    }
}

pub open spec fn spec_api_keys_default() -> ApiKeysS {
    ApiKeysS {
        gemini: Seq::<char>::empty(),
        groq: Seq::<char>::empty(),
        openai: Seq::<char>::empty(),
        openrouter: Seq::<char>::empty(),
        opencode: Seq::<char>::empty(),
    }
}

impl Default for ApiKeys {
    /// All keys start empty.
    fn default() -> (d: Self)
        ensures
            d@ == spec_api_keys_default(),
    {
        ApiKeys {
            gemini: String::new(),
            groq: String::new(),
            openai: String::new(),
            openrouter: String::new(),
            opencode: String::new(),
        }
    }
}

/// Connection data of the hosted database.
#[derive(Debug, Clone, PartialEq, Eq)]
pub struct SupabaseConfig {
    pub url: String,
    pub key: String,
}

pub struct SupabaseConfigS {
    pub url: Seq<char>,
    pub key: Seq<char>,
}

impl View for SupabaseConfig {
    type V = SupabaseConfigS;

    open spec fn view(&self) -> SupabaseConfigS {
        SupabaseConfigS { url: self.url@, key: self.key@ }
    }
}

pub open spec fn spec_supabase_default() -> SupabaseConfigS {
    SupabaseConfigS { url: Seq::<char>::empty(), key: Seq::<char>::empty() }
}

impl Default for SupabaseConfig {
    /// Both fields start empty.
    fn default() -> (d: Self)
        ensures
            d@ == spec_supabase_default(),
    {
        SupabaseConfig { url: String::new(), key: String::new() }
    }
}

/// How many layers the model offloads to the GPU by default: -1 lets
/// the server decide.
pub fn default_num_gpu() -> (r: i32)
    ensures
        r == -1,
{
    -1
}

pub fn default_accent_color() -> (r: String)
    ensures
        r@ == "violet"@,
{
    "violet".to_owned()
}

pub fn default_ai_provider() -> (r: String)
    ensures
        r@ == "gemini"@,
{
    "gemini".to_owned()
}

pub fn default_enable_ai() -> (r: bool)
    ensures
        r,
{
    true
}

/// The stored application settings, apart from the model-tuning block
/// that lives at the unverified boundary.
#[derive(Debug, Clone, PartialEq, Eq)]
pub struct AppSettings {
    pub auto_start_ollama: bool,
    pub theme: String,
    pub language: String,
    pub accent_color: String,
    pub enable_ai: bool,
    pub ai_provider: String,
    pub api_keys: ApiKeys,
    pub model_name: String,
    pub supabase_config: SupabaseConfig,
}

pub struct AppSettingsS {
    pub auto_start_ollama: bool,
    pub theme: Seq<char>,
    pub language: Seq<char>,
    pub accent_color: Seq<char>,
    pub enable_ai: bool,
    pub ai_provider: Seq<char>,
    pub api_keys: ApiKeysS,
    pub model_name: Seq<char>,
    pub supabase_config: SupabaseConfigS,
}

impl View for AppSettings {
    type V = AppSettingsS;

    open spec fn view(&self) -> AppSettingsS {
        AppSettingsS {
            auto_start_ollama: self.auto_start_ollama,
            theme: self.theme@,
            language: self.language@,
            accent_color: self.accent_color@,
            enable_ai: self.enable_ai,
            ai_provider: self.ai_provider@,
            api_keys: self.api_keys@,
            model_name: self.model_name@,
            supabase_config: self.supabase_config@,
        }
    }
}

pub open spec fn spec_app_settings_default() -> AppSettingsS {
    AppSettingsS {
        auto_start_ollama: true,
        theme: "system"@,
        language: "en"@,
        accent_color: "violet"@,
        enable_ai: true,
        ai_provider: "gemini"@,
        api_keys: spec_api_keys_default(),
        model_name: Seq::<char>::empty(),
        supabase_config: spec_supabase_default(),
    }
}

impl Default for AppSettings {
    fn default() -> (d: Self)
        ensures
            d@ == spec_app_settings_default(),
    {
        AppSettings {
            auto_start_ollama: true,
            theme: "system".to_owned(),
            language: "en".to_owned(),
            accent_color: default_accent_color(),
            enable_ai: default_enable_ai(),
            ai_provider: default_ai_provider(),
            api_keys: ApiKeys::default(),
            model_name: String::new(),
            supabase_config: SupabaseConfig::default(),
        }
    }
}

/// One incoming setting value, already decoded from its wire form by
/// the boundary: a boolean, a text, one of the structured blocks when
/// it decoded as such, or anything else.
#[derive(Debug, Clone, PartialEq, Eq)]
pub enum SettingValue {
    Bool(bool),
    Text(String),
    Keys(ApiKeys),
    Supabase(SupabaseConfig),
    Other,
}

pub enum SettingValueS {
    Bool(bool),
    Text(Seq<char>),
    Keys(ApiKeysS),
    Supabase(SupabaseConfigS),
    Other,
}

impl View for SettingValue {
    type V = SettingValueS;

    open spec fn view(&self) -> SettingValueS {
        match self {
            SettingValue::Bool(b) => SettingValueS::Bool(*b),
            SettingValue::Text(t) => SettingValueS::Text(t@),
            SettingValue::Keys(k) => SettingValueS::Keys(k@),
            SettingValue::Supabase(c) => SettingValueS::Supabase(c@),
            SettingValue::Other => SettingValueS::Other,
        }
    }
}

/// The update refused an unrecognised key.
#[derive(Debug, Clone, Copy, PartialEq, Eq)]
pub enum SettingsError {
    UnknownKey,
}

pub open spec fn val_bool_or(v: SettingValueS, d: bool) -> bool {
    match v {
        SettingValueS::Bool(b) => b,
        _ => d,
    }
}

pub open spec fn val_text_or(v: SettingValueS, d: Seq<char>) -> Seq<char> {
    match v {
        SettingValueS::Text(t) => t,
        _ => d,
    }
}

/// The update rule, key by key.  A value of the wrong kind falls back
/// to that key's default; a structured block that did not decode leaves
/// the stored block unchanged; an unknown key changes nothing and is
/// refused.
pub open spec fn spec_apply_setting(
    s: AppSettingsS,
    key: Seq<char>,
    v: SettingValueS,
) -> Option<AppSettingsS> {
    if key == "auto_start_ollama"@ {
        Some(AppSettingsS { auto_start_ollama: val_bool_or(v, true), ..s })
    } else if key == "theme"@ {
        Some(AppSettingsS { theme: val_text_or(v, "system"@), ..s })
    } else if key == "accentColor"@ {
        Some(AppSettingsS { accent_color: val_text_or(v, "violet"@), ..s })
    } else if key == "enableAI"@ {
        Some(AppSettingsS { enable_ai: val_bool_or(v, true), ..s })
    } else if key == "aiProvider"@ {
        Some(AppSettingsS { ai_provider: val_text_or(v, "gemini"@), ..s })
    } else if key == "modelName"@ {
        Some(AppSettingsS { model_name: val_text_or(v, Seq::<char>::empty()), ..s })
    } else if key == "apiKeys"@ {
        Some(
            AppSettingsS {
                api_keys: match v {
                    SettingValueS::Keys(k) => k,
                    _ => s.api_keys,
                },
                ..s
            },
        )
    } else if key == "supabaseConfig"@ {
        Some(
            AppSettingsS {
                supabase_config: match v {
                    SettingValueS::Supabase(c) => c,
                    _ => s.supabase_config,
                },
                ..s
            },
        )
    } else {
        None::<AppSettingsS>
    }
}

fn key_is(key: &String, lit: &str) -> (r: bool)
    ensures
        r == (key@ == lit@),
{
    let owned = lit.to_owned();
    *key == owned
}

/// Applies one keyed update to the settings, exactly as
/// [`spec_apply_setting`] says; an unknown key is refused and the
/// settings stand unchanged.
pub fn apply_setting(s: &mut AppSettings, key: &String, v: SettingValue) -> (r: Result<
    (),
    SettingsError,
>)
    ensures
        match r {
            Ok(_) => spec_apply_setting(old(s)@, key@, v@) == Some(final(s)@),
            Err(e) => spec_apply_setting(old(s)@, key@, v@) is None && final(s)@ == old(s)@
                && e is UnknownKey,
        },
{
    if key_is(key, "auto_start_ollama") {
        s.auto_start_ollama = match v {
            SettingValue::Bool(b) => b,
            _ => true,
        };
        Ok(())
    } else if key_is(key, "theme") {
        s.theme = match v {
            SettingValue::Text(t) => t,
            _ => "system".to_owned(),
        };
        Ok(())
    } else if key_is(key, "accentColor") {
        s.accent_color = match v {
            SettingValue::Text(t) => t,
            _ => "violet".to_owned(),
        };
        Ok(())
    } else if key_is(key, "enableAI") {
        s.enable_ai = match v {
            SettingValue::Bool(b) => b,
            _ => true,
        };
        Ok(())
    } else if key_is(key, "aiProvider") {
        s.ai_provider = match v {
            SettingValue::Text(t) => t,
            _ => "gemini".to_owned(),
        };
        Ok(())
    } else if key_is(key, "modelName") {
        s.model_name = match v {
            SettingValue::Text(t) => t,
            _ => String::new(),
        };
        Ok(())
    } else if key_is(key, "apiKeys") {
        match v {
            SettingValue::Keys(k) => {
                s.api_keys = k;
            },
            _ => {},
        }
        Ok(())
    } else if key_is(key, "supabaseConfig") {
        match v {
            SettingValue::Supabase(c) => {
                s.supabase_config = c;
            },
            _ => {},
        }
        Ok(())
    } else {
        Err(SettingsError::UnknownKey)
    }
}

} // verus!
