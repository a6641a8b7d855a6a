//! The settings record of the voice pipeline and the rules a record must
//! meet before it is saved.

use vstd::prelude::*;
use crate::hotkey::{key_named, parse_hotkey};
use crate::text::{has_infix, has_prefix, lowercase, occurs_in, to_lower, uppercase};

verus! {

/// The settings of the voice pipeline.
///
/// Durations are whole milliseconds and the sensitivity is in thousandths
/// (600 stands for 0.6), so that every rule on them is exact integer
/// arithmetic. The three are signed: a record read from a document may
/// hold a negative value, which the rules then reject.
#[derive(Debug)]
pub struct VoiceConfig {
    /// Whether key events start recordings at all.
    pub enabled: bool,
    /// The name of the trigger key.
    pub hotkey: String,
    /// Whether a GPU-backed model load is preferred.
    pub gpu_acceleration: bool,
    /// The path of the model file.
    pub model_path: String,
    /// The language of the speech, or "auto".
    pub language: String,
    /// Recognition sensitivity in thousandths, 0 to 1000.
    pub sensitivity: i32,
    /// The shortest recording that is processed, in milliseconds.
    pub min_duration: i64,
    /// The longest recording, in milliseconds.
    pub max_duration: i64,
    /// The sample rate of the audio that is processed, in Hz.
    pub sample_rate: u32,
    /// Whether GPU capabilities are probed automatically.
    pub auto_gpu_detection: bool,
}

/// A settings record as plain values.
pub struct ConfigModel {
    pub enabled: bool,
    pub hotkey: Seq<char>,
    pub gpu_acceleration: bool,
    pub model_path: Seq<char>,
    pub language: Seq<char>,
    pub sensitivity: int,
    pub min_duration: int,
    pub max_duration: int,
    pub sample_rate: int,
    pub auto_gpu_detection: bool,
}

impl View for VoiceConfig {
    type V = ConfigModel;

    open spec fn view(&self) -> ConfigModel {
        ConfigModel {
            enabled: self.enabled,
            hotkey: self.hotkey@,
            gpu_acceleration: self.gpu_acceleration,
            model_path: self.model_path@,
            language: self.language@,
            sensitivity: self.sensitivity as int,
            min_duration: self.min_duration as int,
            max_duration: self.max_duration as int,
            sample_rate: self.sample_rate as int,
            auto_gpu_detection: self.auto_gpu_detection,
        }
    }
}

impl Clone for VoiceConfig {
    fn clone(&self) -> (copy: Self)
        ensures
            copy@ == self@,
    {
        VoiceConfig {
            enabled: self.enabled,
            hotkey: self.hotkey.clone(),
            gpu_acceleration: self.gpu_acceleration,
            model_path: self.model_path.clone(),
            language: self.language.clone(),
            sensitivity: self.sensitivity,
            min_duration: self.min_duration,
            max_duration: self.max_duration,
            sample_rate: self.sample_rate,
            auto_gpu_detection: self.auto_gpu_detection,
        }
    }
}

/// The settings of a fresh installation, but for the two that depend on
/// the machine: the language and the GPU preference.
pub open spec fn initial_settings(language: Seq<char>, gpu_acceleration: bool) -> ConfigModel {
    ConfigModel {
        enabled: false,
        hotkey: "F2"@,
        gpu_acceleration,
        model_path: Seq::empty(),
        language,
        sensitivity: 600,
        min_duration: 100,
        max_duration: 30_000,
        sample_rate: 16_000,
        auto_gpu_detection: true,
    }
}

/// The language code for a locale tag in lower case: one of twelve
/// languages by the tag's first letters, English where the tag holds "en"
/// anywhere, and automatic detection for every other tag.
pub open spec fn language_code(lower: Seq<char>) -> Seq<char> {
    if "zh"@.is_prefix_of(lower) {
        "zh"@
    } else if "ja"@.is_prefix_of(lower) {
        "ja"@
    } else if "ko"@.is_prefix_of(lower) {
        "ko"@
    } else if "fr"@.is_prefix_of(lower) {
        "fr"@
    } else if "de"@.is_prefix_of(lower) {
        "de"@
    } else if "es"@.is_prefix_of(lower) {
        "es"@
    } else if "ru"@.is_prefix_of(lower) {
        "ru"@
    } else if "ar"@.is_prefix_of(lower) {
        "ar"@
    } else if "pt"@.is_prefix_of(lower) {
        "pt"@
    } else if "it"@.is_prefix_of(lower) {
        "it"@
    } else if "hi"@.is_prefix_of(lower) {
        "hi"@
    } else if "th"@.is_prefix_of(lower) {
        "th"@
    } else if occurs_in("en"@, lower) {
        "en"@
    } else {
        "auto"@
    }
}

/// The language code for the system's locale tag, where `None` stands for
/// a system that reports no locale.
pub open spec fn language_of_locale(locale: Option<Seq<char>>) -> Seq<char> {
    match locale {
        Some(tag) => language_code(lowercase(tag)),
        None => "auto"@,
    }
}

/// The codes and names of the languages that can be chosen, in the order
/// in which they are offered.
pub open spec fn supported_languages() -> Seq<(Seq<char>, Seq<char>)> {
    seq![
        ("auto"@, "Auto-detect"@),
        ("en"@, "English"@),
        ("zh"@, "Chinese"@),
        ("ja"@, "Japanese"@),
        ("ko"@, "Korean"@),
        ("fr"@, "French"@),
        ("de"@, "German"@),
        ("es"@, "Spanish"@),
        ("ru"@, "Russian"@),
        ("ar"@, "Arabic"@),
        ("pt"@, "Portuguese"@),
        ("it"@, "Italian"@),
        ("hi"@, "Hindi"@),
        ("th"@, "Thai"@),
    ]
}

/// Whether `code` is the code of a language that can be chosen.
pub open spec fn is_supported_code(code: Seq<char>) -> bool {
    exists|i: int| 0 <= i < supported_languages().len() && #[trigger] supported_languages()[i].0 == code
}

/// Calls `sys_locale::get_locale`, which reads the locale from the
/// process's environment. Nothing is claimed of what it returns.
#[verifier::external_body]
fn system_locale() -> (locale: Option<String>) {
    sys_locale::get_locale()
}

/// Maps a locale tag in lower case to a language code.
pub fn language_for_lowercase(lower: &str) -> (code: String)
    ensures
        code@ == language_code(lower@),
{
    if has_prefix(lower, "zh") {
        "zh".to_string()
    } else if has_prefix(lower, "ja") {
        "ja".to_string()
    } else if has_prefix(lower, "ko") {
        "ko".to_string()
    } else if has_prefix(lower, "fr") {
        "fr".to_string()
    } else if has_prefix(lower, "de") {
        "de".to_string()
    } else if has_prefix(lower, "es") {
        "es".to_string()
    } else if has_prefix(lower, "ru") {
        "ru".to_string()
    } else if has_prefix(lower, "ar") {
        "ar".to_string()
    } else if has_prefix(lower, "pt") {
        "pt".to_string()
    } else if has_prefix(lower, "it") {
        "it".to_string()
    } else if has_prefix(lower, "hi") {
        "hi".to_string()
    } else if has_prefix(lower, "th") {
        "th".to_string()
    } else if has_infix(lower, "en") {
        "en".to_string()
    } else {
        "auto".to_string()
    }
}

/// Maps the system's locale tag, whatever its letter case, to a language
/// code; a system without a locale gets automatic detection.
pub fn language_for_locale(locale: Option<&str>) -> (code: String)
    ensures
        code@ == language_of_locale(
            match locale {
                Some(tag) => Some(tag@),
                None => None,
            },
        ),
{
    match locale {
        Some(tag) => {
            let lower = to_lower(tag);
            language_for_lowercase(lower.as_str())
        },
        None => "auto".to_string(),
    }
}

/// Every locale maps to a language that can be chosen.
pub proof fn lemma_language_code_is_supported(lower: Seq<char>)
    ensures
        is_supported_code(language_code(lower)),
{
    let all = supported_languages();
    let code = language_code(lower);
    if code == "auto"@ {
        assert(all[0].0 == code);
    } else if code == "en"@ {
        assert(all[1].0 == code);
    } else if code == "zh"@ {
        assert(all[2].0 == code);
    } else if code == "ja"@ {
        assert(all[3].0 == code);
    } else if code == "ko"@ {
        assert(all[4].0 == code);
    } else if code == "fr"@ {
        assert(all[5].0 == code);
    } else if code == "de"@ {
        assert(all[6].0 == code);
    } else if code == "es"@ {
        assert(all[7].0 == code);
    } else if code == "ru"@ {
        assert(all[8].0 == code);
    } else if code == "ar"@ {
        assert(all[9].0 == code);
    } else if code == "pt"@ {
        assert(all[10].0 == code);
    } else if code == "it"@ {
        assert(all[11].0 == code);
    } else if code == "hi"@ {
        assert(all[12].0 == code);
    } else {
        assert(all[13].0 == code);
    }
}

/// Finds the language for the locale that the system reports. Which
/// locale that is depends on the machine; whatever it is, the result is
/// the code of a language that can be chosen.
pub fn detect_system_language() -> (code: String)
    ensures
        is_supported_code(code@),
{
    let locale = system_locale();
    match &locale {
        Some(tag) => {
            proof {
                lemma_language_code_is_supported(lowercase(tag@));
            }
            language_for_locale(Some(tag.as_str()))
        },
        None => {
            assert(supported_languages()[0].0 == "auto"@);
            language_for_locale(None)
        },
    }
}

impl VoiceConfig {
    /// The settings of a fresh installation for a machine with the given
    /// language and GPU preference.
    pub fn with_defaults(language: String, gpu_acceleration: bool) -> (config: Self)
        ensures
            config@ == initial_settings(language@, gpu_acceleration),
    {
        VoiceConfig {
            enabled: false,
            hotkey: "F2".to_string(),
            gpu_acceleration,
            model_path: String::new(),
            language,
            sensitivity: 600,
            min_duration: 100,
            max_duration: 30_000,
            sample_rate: 16_000,
            auto_gpu_detection: true,
        }
    }

    /// The languages that can be chosen, each with its code and its name.
    pub fn get_supported_languages() -> (languages: Vec<(&'static str, &'static str)>)
        ensures
            languages@.len() == supported_languages().len(),
            forall|i: int|
                0 <= i < languages@.len() ==> (#[trigger] languages@[i]).0@
                    == supported_languages()[i].0 && languages@[i].1@ == supported_languages()[i].1,
    {
        let mut languages: Vec<(&'static str, &'static str)> = Vec::new();
        languages.push(("auto", "Auto-detect"));
        languages.push(("en", "English"));
        languages.push(("zh", "Chinese"));
        languages.push(("ja", "Japanese"));
        languages.push(("ko", "Korean"));
        languages.push(("fr", "French"));
        languages.push(("de", "German"));
        languages.push(("es", "Spanish"));
        languages.push(("ru", "Russian"));
        languages.push(("ar", "Arabic"));
        languages.push(("pt", "Portuguese"));
        languages.push(("it", "Italian"));
        languages.push(("hi", "Hindi"));
        languages.push(("th", "Thai"));
        languages
    }
}

/// A rule that a settings record breaks.
#[derive(Debug, Clone, Copy, PartialEq, Eq, Structural)]
pub enum ValidationError {
    /// No model file is named.
    ModelPathNotSet,
    /// The model file that is named does not exist.
    ModelFileNotFound,
    /// The sensitivity is outside 0 to 1.
    SensitivityOutOfRange,
    /// The minimum duration is zero or less.
    MinDurationNotPositive,
    /// The maximum duration is not above the minimum duration.
    MaxDurationTooSmall,
    /// The sample rate is outside 8000 to 48000 Hz.
    SampleRateOutOfRange,
    /// The trigger key's name is not in the table of trigger keys.
    UnknownHotkey,
}

/// The lowest sample rate that a record may hold, in Hz.
pub const MIN_SAMPLE_RATE: u32 = 8_000;

/// The highest sample rate that a record may hold, in Hz.
pub const MAX_SAMPLE_RATE: u32 = 48_000;

/// The highest sensitivity, in thousandths.
pub const MAX_SENSITIVITY: i32 = 1_000;

/// The first rule that a record breaks, in the order in which the rules
/// are checked, given whether its model file exists; `None` for a record
/// that breaks none.
pub open spec fn first_violation(config: ConfigModel, model_exists: bool) -> Option<
    ValidationError,
> {
    if config.model_path.len() == 0 {
        Some(ValidationError::ModelPathNotSet)
    } else if !model_exists {
        Some(ValidationError::ModelFileNotFound)
    } else if config.sensitivity < 0 || config.sensitivity > MAX_SENSITIVITY {
        Some(ValidationError::SensitivityOutOfRange)
    } else if config.min_duration <= 0 {
        Some(ValidationError::MinDurationNotPositive)
    } else if config.max_duration <= config.min_duration {
        Some(ValidationError::MaxDurationTooSmall)
    } else if config.sample_rate < MIN_SAMPLE_RATE || config.sample_rate > MAX_SAMPLE_RATE {
        Some(ValidationError::SampleRateOutOfRange)
    } else if key_named(uppercase(config.hotkey)) is None {
        Some(ValidationError::UnknownHotkey)
    } else {
        None
    }
}

/// Whether a record meets every rule, given whether its model file
/// exists.
pub open spec fn is_valid(config: ConfigModel, model_exists: bool) -> bool {
    &&& config.model_path.len() > 0
    &&& model_exists
    &&& 0 <= config.sensitivity <= MAX_SENSITIVITY
    &&& 0 < config.min_duration < config.max_duration
    &&& MIN_SAMPLE_RATE <= config.sample_rate <= MAX_SAMPLE_RATE
    &&& key_named(uppercase(config.hotkey)) is Some
}

/// What is reported for a broken rule, for a record with the given model
/// path and trigger key.
pub open spec fn violation_text(error: ValidationError, config: ConfigModel) -> Seq<char> {
    match error {
        ValidationError::ModelPathNotSet =>
            "Model file path is not set. Please select a Whisper model file."@,
        ValidationError::ModelFileNotFound => "Model file not found: "@ + config.model_path,
        ValidationError::SensitivityOutOfRange => "Sensitivity must be between 0.0 and 1.0"@,
        ValidationError::MinDurationNotPositive => "Minimum duration must be positive"@,
        ValidationError::MaxDurationTooSmall =>
            "Maximum duration must be greater than minimum duration"@,
        ValidationError::SampleRateOutOfRange => "Sample rate must be between 8000 and 48000 Hz"@,
        ValidationError::UnknownHotkey => "Unknown hotkey: "@ + config.hotkey,
    }
}

/// A record breaks no rule exactly when it meets every rule.
pub proof fn lemma_no_violation_iff_valid(config: ConfigModel, model_exists: bool)
    ensures
        first_violation(config, model_exists) is None <==> is_valid(config, model_exists),
{
}

impl ValidationError {
    /// What is reported for this broken rule in `config`.
    pub fn message(&self, config: &VoiceConfig) -> (text: String)
        ensures
            text@ == violation_text(*self, config@),
    {
        match self {
            ValidationError::ModelPathNotSet =>
                "Model file path is not set. Please select a Whisper model file.".to_string(),
            ValidationError::ModelFileNotFound => {
                let mut text = "Model file not found: ".to_string();
                text.append(config.model_path.as_str());
                text
            },
            ValidationError::SensitivityOutOfRange =>
                "Sensitivity must be between 0.0 and 1.0".to_string(),
            ValidationError::MinDurationNotPositive => "Minimum duration must be positive".to_string(),
            ValidationError::MaxDurationTooSmall =>
                "Maximum duration must be greater than minimum duration".to_string(),
            ValidationError::SampleRateOutOfRange =>
                "Sample rate must be between 8000 and 48000 Hz".to_string(),
            ValidationError::UnknownHotkey => {
                let mut text = "Unknown hotkey: ".to_string();
                text.append(config.hotkey.as_str());
                text
            },
        }
    }
}

/// Finds the first rule that `config` breaks. `model_exists` says whether
/// the model file that the record names exists. No value is adjusted: a
/// record either meets every rule or is rejected.
pub fn check_voice_config(config: &VoiceConfig, model_exists: bool) -> (result: Result<
    (),
    ValidationError,
>)
    ensures
        result == match first_violation(config@, model_exists) {
            Some(error) => Err::<(), ValidationError>(error),
            None => Ok(()),
        },
        result is Ok <==> is_valid(config@, model_exists),
{
    if config.model_path.as_str().is_empty() {
        return Err(ValidationError::ModelPathNotSet);
    }
    if !model_exists {
        return Err(ValidationError::ModelFileNotFound);
    }
    if config.sensitivity < 0 || config.sensitivity > MAX_SENSITIVITY {
        return Err(ValidationError::SensitivityOutOfRange);
    }
    if config.min_duration <= 0 {
        return Err(ValidationError::MinDurationNotPositive);
    }
    if config.max_duration <= config.min_duration {
        return Err(ValidationError::MaxDurationTooSmall);
    }
    if config.sample_rate < MIN_SAMPLE_RATE || config.sample_rate > MAX_SAMPLE_RATE {
        return Err(ValidationError::SampleRateOutOfRange);
    }
    if parse_hotkey(config.hotkey.as_str()).is_none() {
        return Err(ValidationError::UnknownHotkey);
    }
    Ok(())
}

/// Checks `config` against the rules and reports the first that it
/// breaks, in words. `model_exists` says whether the model file that the
/// record names exists.
pub fn validate_voice_config(config: &VoiceConfig, model_exists: bool) -> (result: Result<
    (),
    String,
>)
    ensures
        match first_violation(config@, model_exists) {
            Some(error) => (result matches Err(text) && text@ == violation_text(error, config@)),
            None => result is Ok,
        },
        result is Ok <==> is_valid(config@, model_exists),
{
    match check_voice_config(config, model_exists) {
        Ok(()) => Ok(()),
        Err(error) => Err(error.message(config)),
    }
}

/// Whether `config` is what loading gives for what the settings store
/// holds: the stored record, unchanged; without one, the record that
/// `defaults` makes, which `persist` has been asked to store.
pub open spec fn is_loaded<D: FnOnce() -> VoiceConfig, P: FnOnce(&VoiceConfig) -> Result<(), String>>(
    config: VoiceConfig,
    stored: Option<VoiceConfig>,
    defaults: D,
    persist: P,
) -> bool {
    match stored {
        Some(record) => config == record,
        None => {
            &&& call_ensures(defaults, (), config)
            &&& exists|record: &VoiceConfig, outcome: Result<(), String>|
                *record == config && call_ensures(persist, (record,), outcome)
        },
    }
}

/// What the settings store holds is what is loaded from it, value for
/// value.
pub proof fn lemma_stored_settings_are_loaded<
    D: FnOnce() -> VoiceConfig,
    P: FnOnce(&VoiceConfig) -> Result<(), String>,
>(config: VoiceConfig, record: VoiceConfig, defaults: D, persist: P)
    requires
        is_loaded(config, Some(record), defaults, persist),
    ensures
        config@ == record@,
{
}

/// Loads the settings. `stored` is the record that the settings store
/// holds, if it holds one that can be read. Without one, the settings are
/// those that `defaults` makes, and `persist` is asked to store them so
/// that the next load finds them; if it cannot, they are used all the
/// same. With a stored record neither `defaults` nor `persist` is called.
pub fn load_voice_config<D: FnOnce() -> VoiceConfig, P: FnOnce(&VoiceConfig) -> Result<(), String>>(
    stored: Option<VoiceConfig>,
    defaults: D,
    persist: P,
) -> (config: VoiceConfig)
    requires
        stored is None ==> call_requires(defaults, ()),
        stored is None ==> forall|record: &VoiceConfig| call_requires(persist, (record,)),
    ensures
        is_loaded(config, stored, defaults, persist),
{
    match stored {
        Some(record) => record,
        None => {
            let config = defaults();
            let _ = persist(&config);
            config
        },
    }
}

} // verus!
