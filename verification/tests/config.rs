use flow_core::config::{
    reset_after_confirmation, reset_question, ConfigCommand, ConfigError, ConfigKey, ConfigPlan,
    ConfigSubcommand, DescribePictureConfig, SetCommand, UnsetCommand,
};
use flow_core::global_args::GlobalArgs;

fn set(value: &str) -> SetCommand {
    SetCommand { key: ConfigKey::PreferredVisionModel, value: value.to_string() }
}

#[test]
fn default_config_has_no_preferred_model() {
    assert_eq!(DescribePictureConfig::new_default().preferred_vision_model, None);
    let d: DescribePictureConfig = Default::default();
    assert_eq!(d.preferred_vision_model, None);
}

#[test]
fn set_stores_the_value() {
    let mut c = DescribePictureConfig::new_default();
    assert!(set("llava:7b").apply(&mut c).is_ok());
    assert_eq!(c.preferred_vision_model.as_deref(), Some("llava:7b"));
    assert!(set("gemma3:27b").apply(&mut c).is_ok());
    assert_eq!(c.preferred_vision_model.as_deref(), Some("gemma3:27b"));
}

#[test]
fn unset_undoes_set() {
    let mut c = DescribePictureConfig::new_default();
    set("llava:7b").apply(&mut c).unwrap();
    let unset = UnsetCommand { key: ConfigKey::PreferredVisionModel };
    assert!(unset.apply(&mut c).is_ok());
    assert_eq!(c.preferred_vision_model, None);
    assert!(unset.apply(&mut c).is_ok());
    assert_eq!(c.preferred_vision_model, None);
}

fn global(non_interactive: bool) -> GlobalArgs {
    GlobalArgs { debug: false, non_interactive }
}

#[test]
fn plans_follow_the_subcommand() {
    let p = ConfigCommand { command: ConfigSubcommand::Show }.plan(&global(false));
    assert!(matches!(p, ConfigPlan::ShowCurrent));
    let p = ConfigCommand { command: ConfigSubcommand::List }.plan(&global(false));
    assert!(matches!(p, ConfigPlan::ShowPath));
    let p = ConfigCommand { command: ConfigSubcommand::SetValue(set("m")) }.plan(&global(false));
    assert!(matches!(p, ConfigPlan::ApplySet(ref c) if c.value == "m"));
    let p = ConfigCommand {
        command: ConfigSubcommand::Unset(UnsetCommand { key: ConfigKey::PreferredVisionModel }),
    }
    .plan(&global(true));
    assert!(matches!(p, ConfigPlan::ApplyUnset(_)));
}

#[test]
fn reset_asks_only_when_interactive() {
    let p = ConfigCommand { command: ConfigSubcommand::Reset }.plan(&global(false));
    assert!(matches!(p, ConfigPlan::Reset { ask_first: true }));
    let p = ConfigCommand { command: ConfigSubcommand::Reset }.plan(&global(true));
    assert!(matches!(p, ConfigPlan::Reset { ask_first: false }));
    assert_eq!(reset_question(), "Are you sure you want to reset the configuration to defaults?");
}

#[test]
fn refused_reset_is_an_error() {
    let c = reset_after_confirmation(true).unwrap();
    assert_eq!(c.preferred_vision_model, None);
    let e = reset_after_confirmation(false).unwrap_err();
    assert!(matches!(e, ConfigError::UserDidNotConfirm));
    assert_eq!(e.message(), "User did not confirm");
}
