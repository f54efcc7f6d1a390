use crate::global_args::GlobalArgs;
use vstd::prelude::*;

verus! {

/// Settings of the image description tool, stored between runs.
#[derive(Debug, Clone, PartialEq)]
pub struct DescribePictureConfig {
    /// Model used when none is given on the command line.
    pub preferred_vision_model: Option<String>,
}

/// What a configuration holds, as plain values.
pub struct DescribePictureConfigView {
    pub preferred_vision_model: Option<Seq<char>>,
}

/// The view of an optional string.
pub open spec fn opt_view(s: Option<String>) -> Option<Seq<char>> {
    match s {
        Some(v) => Some(v@),
        None => None,
    }
}

impl View for DescribePictureConfig {
    type V = DescribePictureConfigView;

    open spec fn view(&self) -> DescribePictureConfigView {
        DescribePictureConfigView { preferred_vision_model: opt_view(self.preferred_vision_model) }
    }
}

/// The keys that `config set` and `config unset` accept.
#[derive(Clone, Copy, Debug, PartialEq, Eq, Structural)]
pub enum ConfigKey {
    PreferredVisionModel,
}

impl DescribePictureConfigView {
    /// The configuration that a fresh installation starts from.
    pub open spec fn default_view() -> DescribePictureConfigView {
        DescribePictureConfigView { preferred_vision_model: None }
    }

    /// The configuration after `key` is set to `value`.
    pub open spec fn set(self, key: ConfigKey, value: Seq<char>) -> DescribePictureConfigView {
        match key {
            ConfigKey::PreferredVisionModel => DescribePictureConfigView {
                preferred_vision_model: Some(value),
                ..self
            },
        }
    }

    /// The configuration after `key` is removed.
    pub open spec fn unset(self, key: ConfigKey) -> DescribePictureConfigView {
        match key {
            ConfigKey::PreferredVisionModel => DescribePictureConfigView {
                preferred_vision_model: None,
                ..self
            },
        }
    }

    /// The value stored under `key`.
    pub open spec fn get(self, key: ConfigKey) -> Option<Seq<char>> {
        match key {
            ConfigKey::PreferredVisionModel => self.preferred_vision_model,
        }
    }
}

impl Default for DescribePictureConfig {
    fn default() -> (r: DescribePictureConfig)
        ensures
            r@ == DescribePictureConfigView::default_view(),
    {
        DescribePictureConfig { preferred_vision_model: None }
    }
}

impl DescribePictureConfig {
    /// The configuration that a fresh installation starts from.
    pub fn new_default() -> (r: DescribePictureConfig)
        ensures
            r@ == DescribePictureConfigView::default_view(),
    {
        DescribePictureConfig { preferred_vision_model: None }
    }
}

/// Why a configuration command failed.
#[derive(Debug)]
pub enum ConfigError {
    /// A reset was asked for interactively and the user did not confirm it.
    UserDidNotConfirm,
}

impl ConfigError {
    /// The message shown for this error.
    pub fn message(&self) -> (r: String)
        ensures
            r@ == "User did not confirm"@,
    {
        String::from_str("User did not confirm")
    }
}

/// `config set KEY VALUE`.
pub struct SetCommand {
    /// The configuration key to set.
    pub key: ConfigKey,
    /// The value to set.
    pub value: String,
}

impl SetCommand {
    /// Stores the command's value under its key; nothing else changes.
    pub fn apply(&self, config: &mut DescribePictureConfig) -> (r: Result<(), ConfigError>)
        ensures
            r is Ok,
            final(config)@ == old(config)@.set(self.key, self.value@),
    {
        match self.key {
            ConfigKey::PreferredVisionModel => {
                config.preferred_vision_model = Some(self.value.clone());
            },
        }
        Ok(())
    }
}

/// `config unset KEY`.
pub struct UnsetCommand {
    /// The configuration key to unset.
    pub key: ConfigKey,
}

impl UnsetCommand {
    /// Removes the value stored under the command's key; nothing else changes.
    pub fn apply(&self, config: &mut DescribePictureConfig) -> (r: Result<(), ConfigError>)
        ensures
            r is Ok,
            final(config)@ == old(config)@.unset(self.key),
    {
        match self.key {
            ConfigKey::PreferredVisionModel => {
                config.preferred_vision_model = None;
            },
        }
        Ok(())
    }
}

/// The subcommands of `config`.
pub enum ConfigSubcommand {
    /// Show current configuration.
    Show,
    /// List configuration file paths.
    List,
    /// Set a configuration value.
    SetValue(SetCommand),
    /// Unset a configuration value.
    Unset(UnsetCommand),
    /// Reset configuration to defaults.
    Reset,
}

/// `config ...`: manage the stored configuration.
pub struct ConfigCommand {
    pub command: ConfigSubcommand,
}

/// What a configuration command does with the stored file.
pub enum ConfigPlan {
    /// Load the configuration and print it.
    ShowCurrent,
    /// Print the path of the configuration file.
    ShowPath,
    /// Load the configuration, apply the edit, save it.
    ApplySet(SetCommand),
    /// Load the configuration, apply the edit, save it.
    ApplyUnset(UnsetCommand),
    /// Save the default configuration; when `ask_first`, only after the
    /// user confirms (see `reset_after_confirmation`).
    Reset { ask_first: bool },
}

/// The question put to the user before a reset.
pub fn reset_question() -> (r: &'static str)
    ensures
        r@ == "Are you sure you want to reset the configuration to defaults?"@,
{
    "Are you sure you want to reset the configuration to defaults?"
}

impl ConfigCommand {
    /// Decides what the command does. A reset asks for confirmation unless
    /// the run is non-interactive.
    pub fn plan(self, global: &GlobalArgs) -> (r: ConfigPlan)
        ensures
            (self.command is Show) <==> (r is ShowCurrent),
            (self.command is List) <==> (r is ShowPath),
            (self.command is Reset) <==> (r matches ConfigPlan::Reset { ask_first } && ask_first
                == !global.non_interactive),
            self.command matches ConfigSubcommand::SetValue(c) ==> r == ConfigPlan::ApplySet(c),
            self.command matches ConfigSubcommand::Unset(c) ==> r == ConfigPlan::ApplyUnset(c),
            r is ApplySet ==> self.command is SetValue,
            r is ApplyUnset ==> self.command is Unset,
    {
        match self.command {
            ConfigSubcommand::Show => ConfigPlan::ShowCurrent,
            ConfigSubcommand::List => ConfigPlan::ShowPath,
            ConfigSubcommand::SetValue(c) => ConfigPlan::ApplySet(c),
            ConfigSubcommand::Unset(c) => ConfigPlan::ApplyUnset(c),
            ConfigSubcommand::Reset => ConfigPlan::Reset { ask_first: !global.non_interactive },
        }
    }
}

/// The configuration to save after the user answered the reset question:
/// the defaults if the user confirmed, else the reset is refused.
pub fn reset_after_confirmation(confirmed: bool) -> (r: Result<DescribePictureConfig, ConfigError>)
    ensures
        confirmed <==> r is Ok,
        r matches Ok(c) ==> c@ == DescribePictureConfigView::default_view(),
        r matches Err(e) ==> e is UserDidNotConfirm,
{
    if confirmed {
        Ok(DescribePictureConfig::new_default())
    } else {
        Err(ConfigError::UserDidNotConfirm)
    }
}

/// A value that was set can be read back under its key.
pub proof fn law_set_then_get(c: DescribePictureConfigView, key: ConfigKey, value: Seq<char>)
    ensures
        c.set(key, value).get(key) == Some(value),
{
}

/// Unsetting a key leaves nothing stored under it.
pub proof fn law_unset_then_get(c: DescribePictureConfigView, key: ConfigKey)
    ensures
        c.unset(key).get(key) is None,
{
}

/// Unsetting a key undoes any earlier set of that key.
pub proof fn law_unset_undoes_set(c: DescribePictureConfigView, key: ConfigKey, value: Seq<char>)
    ensures
        c.set(key, value).unset(key) == c.unset(key),
{
}

/// Setting a key twice keeps only the later value.
pub proof fn law_set_overwrites(
    c: DescribePictureConfigView,
    key: ConfigKey,
    first: Seq<char>,
    second: Seq<char>,
)
    ensures
        c.set(key, first).set(key, second) == c.set(key, second),
{
}

/// Unsetting every key gives back the default configuration.
pub proof fn law_unset_all_is_default(c: DescribePictureConfigView)
    ensures
        c.unset(ConfigKey::PreferredVisionModel) == DescribePictureConfigView::default_view(),
{
}

} // verus!
