use crate::text::push_str;
use vstd::prelude::*;

verus! {

/// The translation service that Doubao is asked to use.
#[derive(Clone, Copy, Debug, PartialEq, Eq, Structural)]
pub enum DoubaoModel {
    /// Volcano translation (service "3").
    Volcano,
    /// Doubao translation (service "1").
    Doubao,
    /// Microsoft translation (service "2").
    Microsoft,
}

/// The service that speaks a text aloud.
#[derive(Clone, Copy, Debug, PartialEq, Eq, Structural)]
pub enum TtsProvider {
    /// Doubao speech.
    Doubao,
    /// Xiaomi MiMo speech.
    Mimo,
}

impl Default for TtsProvider {
    fn default() -> (r: Self)
        ensures
            r == TtsProvider::Doubao,
    {
        TtsProvider::Doubao
    }
}

/// The speech settings.
#[derive(Clone, Debug)]
pub struct TtsConfig {
    /// The speech service.
    pub provider: TtsProvider,
    /// The MiMo API key.
    pub mimo_api_key: Option<String>,
    /// The MiMo service address.
    pub mimo_base_url: String,
    /// The MiMo voice.
    pub mimo_voice: String,
    /// The MiMo model.
    pub mimo_model: String,
    /// The description of a designed voice (for the voice design model).
    pub mimo_voice_design: Option<String>,
}

/// The application settings.
#[derive(Clone, Debug)]
pub struct AppConfig {
    /// The Doubao cookie.
    pub doubao_cookie: Option<String>,
    /// The Doubao translation model.
    pub doubao_model: DoubaoModel,
    /// The shortcut that translates the selection.
    pub shortcut_selection: String,
    /// Whether a middle click translates the selection.
    pub middle_click_trigger: bool,
    /// The speech settings.
    pub tts: TtsConfig,
}

/// The MiMo service address used when none is configured.
pub open spec fn default_mimo_base_url_spec() -> Seq<char> {
    "https://api.xiaomimimo.com/v1"@
}

/// The MiMo voice used when none is configured.
pub open spec fn default_mimo_voice_spec() -> Seq<char> {
    "冰糖"@
}

/// The MiMo model used when none is configured.
pub open spec fn default_mimo_model_spec() -> Seq<char> {
    "mimo-v2.5-tts"@
}

/// The MiMo service address used when none is configured.
pub fn default_mimo_base_url() -> (r: String)
    ensures
        r@ == default_mimo_base_url_spec(),
{
    "https://api.xiaomimimo.com/v1".to_string()
}

/// The MiMo voice used when none is configured.
pub fn default_mimo_voice() -> (r: String)
    ensures
        r@ == default_mimo_voice_spec(),
{
    "冰糖".to_string()
}

/// The MiMo model used when none is configured.
pub fn default_mimo_model() -> (r: String)
    ensures
        r@ == default_mimo_model_spec(),
{
    "mimo-v2.5-tts".to_string()
}

/// Whether speech settings are the defaults: Doubao speech, no MiMo key or voice design,
/// and the default MiMo address, voice and model.
pub open spec fn is_default_tts(c: TtsConfig) -> bool {
    &&& c.provider == TtsProvider::Doubao
    &&& c.mimo_api_key is None
    &&& c.mimo_base_url@ == default_mimo_base_url_spec()
    &&& c.mimo_voice@ == default_mimo_voice_spec()
    &&& c.mimo_model@ == default_mimo_model_spec()
    &&& c.mimo_voice_design is None
}

/// The shortcut that translates the selection when none is configured.
pub open spec fn default_shortcut_spec() -> Seq<char> {
    "Alt+E"@
}

/// Whether settings are the defaults: no cookie, the Doubao model, the default shortcut,
/// no middle click, and the default speech settings.
pub open spec fn is_default_config(c: AppConfig) -> bool {
    &&& c.doubao_cookie is None
    &&& c.doubao_model == DoubaoModel::Doubao
    &&& c.shortcut_selection@ == default_shortcut_spec()
    &&& !c.middle_click_trigger
    &&& is_default_tts(c.tts)
}

impl Default for TtsConfig {
    fn default() -> (r: Self)
        ensures
            is_default_tts(r),
    {
        TtsConfig {
            provider: TtsProvider::Doubao,
            mimo_api_key: None,
            mimo_base_url: default_mimo_base_url(),
            mimo_voice: default_mimo_voice(),
            mimo_model: default_mimo_model(),
            mimo_voice_design: None,
        }
    }
}

impl Default for AppConfig {
    fn default() -> (r: Self)
        ensures
            is_default_config(r),
    {
        AppConfig {
            doubao_cookie: None,
            doubao_model: DoubaoModel::Doubao,
            shortcut_selection: "Alt+E".to_string(),
            middle_click_trigger: false,
            tts: TtsConfig::default(),
        }
    }
}

/// The name of the settings file in the application's data folder.
pub const CONFIG_FILE_NAME: &'static str = "config.json";

/// The settings that loading yields: those read from the settings file, or the defaults
/// when the data folder, the file or its contents could not be had.
pub fn loaded_config(parsed: Option<AppConfig>) -> (r: AppConfig)
    ensures
        match parsed {
            Some(c) => r == c,
            None => is_default_config(r),
        },
{
    match parsed {
        Some(c) => c,
        None => AppConfig::default(),
    }
}

/// The step of saving the settings that failed.
#[derive(Clone, Copy, Debug, PartialEq, Eq, Structural)]
pub enum SaveStep {
    /// Finding the application's data folder.
    DataDir,
    /// Creating that folder.
    CreateDir,
    /// Writing the settings as JSON.
    Serialize,
    /// Writing the file.
    Write,
}

/// The words that begin the message of a failed step.
pub open spec fn save_step_prefix(step: SaveStep) -> Seq<char> {
    match step {
        SaveStep::DataDir => "获取数据目录失败："@,
        SaveStep::CreateDir => "创建目录失败："@,
        SaveStep::Serialize => "序列化失败："@,
        SaveStep::Write => "写入失败："@,
    }
}

/// The message of a failed save: the step's words followed by the failure's message.
pub fn save_error(step: SaveStep, detail: &str) -> (r: String)
    ensures
        r@ == save_step_prefix(step) + detail@,
{
    let mut r = String::new();
    match step {
        SaveStep::DataDir => push_str(&mut r, "获取数据目录失败："),
        SaveStep::CreateDir => push_str(&mut r, "创建目录失败："),
        SaveStep::Serialize => push_str(&mut r, "序列化失败："),
        SaveStep::Write => push_str(&mut r, "写入失败："),
    }
    push_str(&mut r, detail);
    r
}

} // verus!
