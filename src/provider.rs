//! Transcription provider configuration: validation, status and summaries.
use vstd::prelude::*;
use vstd::string::*;
use crate::config::WhisperConfig;
use crate::text::{str_eq, push_char};

verus! {

/// Settings handed to a transcription provider.
#[derive(Debug, Clone)]
pub struct ProviderConfig {
    pub model: Option<String>,
    pub model_path: Option<String>,
    pub language: Option<String>,
    pub command_path: Option<String>,
    pub api_endpoint: Option<String>,
    pub api_key: Option<String>,
}

impl Default for ProviderConfig {
    fn default() -> (r: Self)
        ensures
            r.model.is_none() && r.model_path.is_none() && r.command_path.is_none(),
            r.api_endpoint.is_none() && r.api_key.is_none(),
            r.language.is_some() && r.language->0@ == "en"@,
    {
        ProviderConfig {
            model: None,
            model_path: None,
            language: Some(String::from_str("en")),
            command_path: None,
            api_endpoint: None,
            api_key: None,
        }
    }
}

impl ProviderConfig {
    /// The provider settings of a whisper configuration.
    pub fn from_whisper(whisper: &WhisperConfig) -> (r: Self)
        ensures
            r.model == whisper.model,
            r.model_path == whisper.model_path,
            r.language == whisper.language,
            r.command_path == whisper.command_path,
            r.api_endpoint == whisper.api_endpoint,
            r.api_key == whisper.api_key,
    {
        ProviderConfig {
            model: whisper.model.clone(),
            model_path: whisper.model_path.clone(),
            language: whisper.language.clone(),
            command_path: whisper.command_path.clone(),
            api_endpoint: whisper.api_endpoint.clone(),
            api_key: whisper.api_key.clone(),
        }
    }
}

/// Status of the transcription provider.
#[derive(Debug, Clone)]
pub enum ProviderStatus {
    /// Provider is configured and ready
    Ready { provider: String, model: Option<String>, language: Option<String> },
    /// Provider is configured but validation failed
    ConfigError { provider: String, error: String },
    /// No provider configured
    NotConfigured,
}

/// A summary of the provider configuration.
#[derive(Debug, Clone)]
pub struct ProviderInfo {
    pub provider: Option<String>,
    pub model: Option<String>,
    pub language: Option<String>,
    pub api_endpoint: Option<String>,
    pub has_api_key: bool,
    pub command_path: Option<String>,
    pub model_path: Option<String>,
}

/// Why a provider's configuration is incomplete, if it is.
pub open spec fn config_problem(provider: Seq<char>, w: WhisperConfig) -> Option<Seq<char>> {
    if provider == "audetic-api"@ {
        None
    } else if provider == "assembly-ai"@ {
        if w.api_key.is_none() { Some("API key required for AssemblyAI"@) } else { None }
    } else if provider == "openai-api"@ {
        if w.api_key.is_none() { Some("API key required for OpenAI API"@) } else { None }
    } else if provider == "openai-cli"@ {
        if w.command_path.is_none() { Some("Command path required for OpenAI CLI"@) } else { None }
    } else if provider == "whisper-cpp"@ {
        if w.command_path.is_none() {
            Some("Command path required for whisper.cpp"@)
        } else if w.model_path.is_none() {
            Some("Model path required for whisper.cpp"@)
        } else {
            None
        }
    } else {
        Some("Unknown provider: "@ + provider)
    }
}

/// Validates a provider's configuration; returns what is missing, if
/// anything.
pub fn validate_provider_config(provider: &str, whisper: &WhisperConfig) -> (r: Option<String>)
    ensures
        match (r, config_problem(provider@, *whisper)) {
            (Some(a), Some(b)) => a@ == b,
            (None, None) => true,
            _ => false,
        },
{
    if str_eq(provider, "audetic-api") {
        None
    } else if str_eq(provider, "assembly-ai") {
        if whisper.api_key.is_none() { Some(String::from_str("API key required for AssemblyAI")) } else { None }
    } else if str_eq(provider, "openai-api") {
        if whisper.api_key.is_none() { Some(String::from_str("API key required for OpenAI API")) } else { None }
    } else if str_eq(provider, "openai-cli") {
        if whisper.command_path.is_none() { Some(String::from_str("Command path required for OpenAI CLI")) } else { None }
    } else if str_eq(provider, "whisper-cpp") {
        if whisper.command_path.is_none() {
            Some(String::from_str("Command path required for whisper.cpp"))
        } else if whisper.model_path.is_none() {
            Some(String::from_str("Model path required for whisper.cpp"))
        } else {
            None
        }
    } else {
        let mut s = String::from_str("Unknown provider: ");
        s.append(provider);
        Some(s)
    }
}

/// Why a provider cannot be set up from `c`: an unknown name, or a missing
/// API key for the remote services that need one.
pub open spec fn setup_problem(provider: Seq<char>, c: ProviderConfig) -> Option<Seq<char>> {
    if provider == "audetic-api"@ || provider == "openai-cli"@ || provider == "whisper-cpp"@ {
        None
    } else if provider == "assembly-ai"@ {
        if c.api_key.is_none() { Some("api_key is required for AssemblyAI provider"@) } else { None }
    } else if provider == "openai-api"@ {
        if c.api_key.is_none() { Some("api_key is required for OpenAI API provider"@) } else { None }
    } else {
        Some("Unknown transcription provider"@)
    }
}

/// Checks that a provider can be set up from `config`.
pub fn check_provider_setup(provider: &str, config: &ProviderConfig) -> (r: Option<String>)
    ensures
        match (r, setup_problem(provider@, *config)) {
            (Some(a), Some(b)) => a@ == b,
            (None, None) => true,
            _ => false,
        },
{
    if str_eq(provider, "audetic-api") || str_eq(provider, "openai-cli") || str_eq(provider, "whisper-cpp") {
        None
    } else if str_eq(provider, "assembly-ai") {
        if config.api_key.is_none() { Some(String::from_str("api_key is required for AssemblyAI provider")) } else { None }
    } else if str_eq(provider, "openai-api") {
        if config.api_key.is_none() { Some(String::from_str("api_key is required for OpenAI API provider")) } else { None }
    } else {
        Some(String::from_str("Unknown transcription provider"))
    }
}

/// The provider status of a configuration: not configured without a
/// provider name, a configuration error when validation or setup fails,
/// ready otherwise.
pub fn get_provider_status_from_config(whisper: &WhisperConfig) -> (r: Result<ProviderStatus, String>)
    ensures
        r is Ok,
        (whisper.provider.is_none() || whisper.provider->0@.len() == 0) <==> r->Ok_0 is NotConfigured,
        r->Ok_0 is Ready <==> ({
            &&& whisper.provider.is_some() && whisper.provider->0@.len() > 0
            &&& config_problem(whisper.provider->0@, *whisper).is_none()
            &&& setup_problem(whisper.provider->0@, ProviderConfig {
                model: whisper.model,
                model_path: whisper.model_path,
                language: whisper.language,
                command_path: whisper.command_path,
                api_endpoint: whisper.api_endpoint,
                api_key: whisper.api_key,
            }).is_none()
        }),
        r->Ok_0 matches ProviderStatus::Ready { provider, model, language } ==> provider@ == whisper.provider->0@
            && model == whisper.model && language == whisper.language,
        r->Ok_0 matches ProviderStatus::ConfigError { provider, error } ==> provider@ == whisper.provider->0@
            && error@ == match config_problem(whisper.provider->0@, *whisper) {
                Some(e) => e,
                None => setup_problem(whisper.provider->0@, ProviderConfig {
                    model: whisper.model,
                    model_path: whisper.model_path,
                    language: whisper.language,
                    command_path: whisper.command_path,
                    api_endpoint: whisper.api_endpoint,
                    api_key: whisper.api_key,
                })->0,
            },
{
    let provider = match &whisper.provider {
        Some(p) => {
            if p.unicode_len() == 0 {
                return Ok(ProviderStatus::NotConfigured);
            }
            p.clone()
        },
        None => return Ok(ProviderStatus::NotConfigured),
    };
    match validate_provider_config(provider.as_str(), whisper) {
        Some(error) => return Ok(ProviderStatus::ConfigError { provider, error }),
        None => {},
    }
    let config = ProviderConfig::from_whisper(whisper);
    match check_provider_setup(provider.as_str(), &config) {
        Some(error) => Ok(ProviderStatus::ConfigError { provider, error }),
        None => Ok(ProviderStatus::Ready { provider, model: whisper.model.clone(), language: whisper.language.clone() }),
    }
}

/// A summary of a whisper configuration; the API key itself is left out.
pub fn get_provider_info_from_config(whisper: &WhisperConfig) -> (r: ProviderInfo)
    ensures
        r.provider == whisper.provider,
        r.model == whisper.model,
        r.language == whisper.language,
        r.api_endpoint == whisper.api_endpoint,
        r.has_api_key == whisper.api_key.is_some(),
        r.command_path == whisper.command_path,
        r.model_path == whisper.model_path,
{
    ProviderInfo {
        provider: whisper.provider.clone(),
        model: whisper.model.clone(),
        language: whisper.language.clone(),
        api_endpoint: whisper.api_endpoint.clone(),
        has_api_key: whisper.api_key.is_some(),
        command_path: whisper.command_path.clone(),
        model_path: whisper.model_path.clone(),
    }
}

/// A short label for a provider status.
pub fn provider_status_display(status: &ProviderStatus) -> (r: &'static str)
    ensures
        r@ == match status {
            ProviderStatus::Ready { .. } => "Ready"@,
            ProviderStatus::ConfigError { .. } => "Configuration error"@,
            ProviderStatus::NotConfigured => "Not configured"@,
        },
{
    match status {
        ProviderStatus::Ready { .. } => "Ready",
        ProviderStatus::ConfigError { .. } => "Configuration error",
        ProviderStatus::NotConfigured => "Not configured",
    }
}

/// A setting as shown to the user: its value, or `<not set>`.
pub fn display_value(value: &Option<String>) -> (r: String)
    ensures
        r@ == match value {
            Some(v) => v@,
            None => "<not set>"@,
        },
{
    match value {
        Some(v) => v.clone(),
        None => String::from_str("<not set>"),
    }
}

/// How a secret is shown: the first four and last two characters around
/// `****` when longer than eight characters, otherwise one `*` per
/// character; `<not set>` when absent or empty.
pub open spec fn masked(value: Option<String>) -> Seq<char> {
    match value {
        Some(s) => if s@.len() > 8 {
            s@.subrange(0, 4) + "****"@ + s@.subrange(s@.len() - 2, s@.len() as int)
        } else if s@.len() > 0 {
            Seq::new(s@.len(), |i: int| '*')
        } else {
            "<not set>"@
        },
        None => "<not set>"@,
    }
}

/// Masks a secret for display.
pub fn mask_secret(value: &Option<String>) -> (r: String)
    ensures
        r@ == masked(*value),
{
    match value {
        Some(secret) => {
            let n = secret.unicode_len();
            if n > 8 {
                let mut s = String::new();
                let mut i: usize = 0;
                while i < 4
                    invariant
                        i <= 4 < n == secret@.len(),
                        s@ == secret@.subrange(0, i as int),
                    decreases 4 - i,
                {
                    push_char(&mut s, secret.as_str().get_char(i));
                    i = i + 1;
                    assert(s@ =~= secret@.subrange(0, i as int));
                }
                s.append("****");
                let ghost head = s@;
                let start: usize = n - 2;
                let mut j: usize = start;
                while j < n
                    invariant
                        start == n - 2,
                        start <= j <= n == secret@.len(),
                        s@ == head + secret@.subrange(start as int, j as int),
                    decreases n - j,
                {
                    let c = secret.as_str().get_char(j);
                    assert(c == secret@[j as int]);
                    push_char(&mut s, c);
                    assert(secret@.subrange(start as int, j + 1) =~= secret@.subrange(start as int, j as int).push(c));
                    j = j + 1;
                    assert(s@ =~= head + secret@.subrange(start as int, j as int));
                }
                s
            } else if n > 0 {
                let mut s = String::new();
                let mut i: usize = 0;
                while i < n
                    invariant
                        i <= n == secret@.len(),
                        s@ == Seq::new(i as nat, |k: int| '*'),
                    decreases n - i,
                {
                    push_char(&mut s, '*');
                    i = i + 1;
                    assert(s@ =~= Seq::new(i as nat, |k: int| '*'));
                }
                s
            } else {
                String::from_str("<not set>")
            }
        },
        None => String::from_str("<not set>"),
    }
}

/// The providers offered for selection, in menu order.
#[derive(Debug, Clone, Copy, PartialEq, Eq, Structural)]
pub enum ProviderSelection {
    AudeticApi,
    AssemblyAi,
    OpenAiApi,
    OpenAiCli,
    WhisperCpp,
}

impl ProviderSelection {
    pub fn as_str(&self) -> (r: &'static str)
        ensures
            r@ == match self {
                ProviderSelection::AudeticApi => "audetic-api"@,
                ProviderSelection::AssemblyAi => "assembly-ai"@,
                ProviderSelection::OpenAiApi => "openai-api"@,
                ProviderSelection::OpenAiCli => "openai-cli"@,
                ProviderSelection::WhisperCpp => "whisper-cpp"@,
            },
    {
        match self {
            ProviderSelection::AudeticApi => "audetic-api",
            ProviderSelection::AssemblyAi => "assembly-ai",
            ProviderSelection::OpenAiApi => "openai-api",
            ProviderSelection::OpenAiCli => "openai-cli",
            ProviderSelection::WhisperCpp => "whisper-cpp",
        }
    }

    /// The entry at a menu position; positions past the end select the last.
    pub fn from_index(index: usize) -> (r: Self)
        ensures
            r == if index == 0 {
                ProviderSelection::AudeticApi
            } else if index == 1 {
                ProviderSelection::AssemblyAi
            } else if index == 2 {
                ProviderSelection::OpenAiApi
            } else if index == 3 {
                ProviderSelection::OpenAiCli
            } else {
                ProviderSelection::WhisperCpp
            },
    {
        match index {
            0 => ProviderSelection::AudeticApi,
            1 => ProviderSelection::AssemblyAi,
            2 => ProviderSelection::OpenAiApi,
            3 => ProviderSelection::OpenAiCli,
            _ => ProviderSelection::WhisperCpp,
        }
    }
}

/// Whether two optional settings hold the same text.
pub open spec fn same_setting(a: Option<String>, b: Option<String>) -> bool {
    match (a, b) {
        (Some(x), Some(y)) => x@ == y@,
        (None, None) => true,
        _ => false,
    }
}

fn setting_eq(a: &Option<String>, b: &Option<String>) -> (r: bool)
    ensures
        r == same_setting(*a, *b),
{
    match (a, b) {
        (Some(x), Some(y)) => str_eq(x.as_str(), y.as_str()),
        (None, None) => true,
        _ => false,
    }
}

/// `  NAME: OLD -> NEW`
pub open spec fn change_line(name: Seq<char>, old: Seq<char>, new: Seq<char>) -> Seq<char> {
    "  "@ + name + ": "@ + old + " -> "@ + new
}

fn change_text(name: &str, old: String, new: String) -> (r: String)
    ensures
        r@ == change_line(name@, old@, new@),
{
    let mut s = String::from_str("  ");
    s.append(name);
    s.append(": ");
    s.append(old.as_str());
    s.append(" -> ");
    s.append(new.as_str());
    s
}

/// The line describing a changed setting, shown with `display_value`;
/// `None` when unchanged.
pub fn field_diff(name: &str, old: &Option<String>, new: &Option<String>) -> (r: Option<String>)
    ensures
        same_setting(*old, *new) <==> r.is_none(),
        r.is_some() ==> r->0@ == change_line(name@,
            match old { Some(v) => v@, None => "<not set>"@ },
            match new { Some(v) => v@, None => "<not set>"@ }),
{
    if setting_eq(old, new) {
        None
    } else {
        Some(change_text(name, display_value(old), display_value(new)))
    }
}

/// The line describing a changed secret, both sides masked; `None` when
/// unchanged.
pub fn secret_diff(name: &str, old: &Option<String>, new: &Option<String>) -> (r: Option<String>)
    ensures
        same_setting(*old, *new) <==> r.is_none(),
        r.is_some() ==> r->0@ == change_line(name@, masked(*old), masked(*new)),
{
    if setting_eq(old, new) {
        None
    } else {
        Some(change_text(name, mask_secret(old), mask_secret(new)))
    }
}

/// The changes between two provider configurations, one line per changed
/// setting, the API key masked.
pub fn config_diff(old: &WhisperConfig, new: &WhisperConfig) -> (r: Vec<String>)
    ensures
        r@.len() == (if same_setting(old.provider, new.provider) { 0int } else { 1int })
            + (if same_setting(old.model, new.model) { 0int } else { 1int })
            + (if same_setting(old.language, new.language) { 0int } else { 1int })
            + (if same_setting(old.api_endpoint, new.api_endpoint) { 0int } else { 1int })
            + (if same_setting(old.api_key, new.api_key) { 0int } else { 1int })
            + (if same_setting(old.command_path, new.command_path) { 0int } else { 1int })
            + (if same_setting(old.model_path, new.model_path) { 0int } else { 1int }),
{
    let mut lines: Vec<String> = Vec::new();
    push_change(&mut lines, field_diff("Provider", &old.provider, &new.provider));
    push_change(&mut lines, field_diff("Model", &old.model, &new.model));
    push_change(&mut lines, field_diff("Language", &old.language, &new.language));
    push_change(&mut lines, field_diff("API Endpoint", &old.api_endpoint, &new.api_endpoint));
    push_change(&mut lines, secret_diff("API Key", &old.api_key, &new.api_key));
    push_change(&mut lines, field_diff("Command Path", &old.command_path, &new.command_path));
    push_change(&mut lines, field_diff("Model Path", &old.model_path, &new.model_path));
    lines
}

fn push_change(lines: &mut Vec<String>, change: Option<String>)
    ensures
        final(lines)@.len() == old(lines)@.len() + if change.is_some() { 1int } else { 0int },
{
    match change {
        Some(l) => lines.push(l),
        None => {},
    }
}

} // verus!
