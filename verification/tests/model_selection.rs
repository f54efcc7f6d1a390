use flow_core::config::DescribePictureConfig;
use flow_core::model_selection::{
    pick_header, supports_vision, ModelSelection, SelectionAction, SelectionError, SelectionEvent,
    SelectionRules,
};

fn caps(list: &[&str]) -> SelectionEvent {
    SelectionEvent::ModelInfo { capabilities: list.iter().map(|s| s.to_string()).collect() }
}

fn names(list: &[&str]) -> Vec<String> {
    list.iter().map(|s| s.to_string()).collect()
}

fn finished_ok(a: &SelectionAction) -> Option<String> {
    match a {
        SelectionAction::Finish(Ok(m)) => Some(m.clone()),
        _ => None,
    }
}

fn finished_err(a: SelectionAction) -> SelectionError {
    match a {
        SelectionAction::Finish(Err(e)) => e,
        other => panic!("not a failure: {:?}", other),
    }
}

#[test]
fn vision_capability_is_found() {
    assert!(supports_vision(&names(&["completion", "vision"])));
    assert!(!supports_vision(&names(&["completion", "tools"])));
    assert!(!supports_vision(&names(&[])));
    assert!(!supports_vision(&names(&["Vision"])));
}

#[test]
fn argument_model_with_vision_is_chosen() {
    let (s, a) = ModelSelection::start(Some("llava".to_string()), false, SelectionRules::Command);
    assert!(matches!(a, SelectionAction::ShowModelInfo(ref m) if m == "llava"));
    let (_, a) = s.step(caps(&["completion", "vision"]));
    assert_eq!(finished_ok(&a).as_deref(), Some("llava"));
}

#[test]
fn argument_model_without_vision_fails() {
    let (s, _) = ModelSelection::start(Some("llama2".to_string()), true, SelectionRules::Command);
    let (_, a) = s.step(caps(&["completion"]));
    let e = finished_err(a);
    assert_eq!(e.message(), "Model passed in args does not support vision: llama2");
}

#[test]
fn preferred_model_is_used() {
    let (s, a) = ModelSelection::start(None, false, SelectionRules::Command);
    assert!(matches!(a, SelectionAction::LoadConfig));
    let cfg = DescribePictureConfig { preferred_vision_model: Some("gemma3:4b".to_string()) };
    let (s, a) = s.step(SelectionEvent::ConfigLoaded(cfg));
    assert!(matches!(a, SelectionAction::ShowModelInfo(ref m) if m == "gemma3:4b"));
    let (_, a) = s.step(caps(&["vision"]));
    assert_eq!(finished_ok(&a).as_deref(), Some("gemma3:4b"));
}

#[test]
fn rejected_preference_is_cleared_before_failing() {
    let (s, _) = ModelSelection::start(None, false, SelectionRules::Command);
    let cfg = DescribePictureConfig { preferred_vision_model: Some("llama2".to_string()) };
    let (s, _) = s.step(SelectionEvent::ConfigLoaded(cfg));
    let (s, a) = s.step(caps(&["completion"]));
    match a {
        SelectionAction::SaveConfig(c) => assert_eq!(c.preferred_vision_model, None),
        other => panic!("expected a save, got {:?}", other),
    }
    let (_, a) = s.step(SelectionEvent::ConfigSaved);
    assert_eq!(finished_err(a).message(), "Preferred model does not support vision: llama2");
}

#[test]
fn standalone_tool_keeps_rejected_preference() {
    let (s, _) = ModelSelection::start(None, false, SelectionRules::Standalone);
    let cfg = DescribePictureConfig { preferred_vision_model: Some("llama2".to_string()) };
    let (s, _) = s.step(SelectionEvent::ConfigLoaded(cfg));
    let (_, a) = s.step(caps(&[]));
    assert!(matches!(
        finished_err(a),
        SelectionError::PreferredModelLacksVision(ref m) if m == "llama2"
    ));
}

#[test]
fn non_interactive_without_model_fails() {
    let (s, _) = ModelSelection::start(None, true, SelectionRules::Command);
    let (_, a) = s.step(SelectionEvent::ConfigLoaded(DescribePictureConfig {
        preferred_vision_model: None,
    }));
    assert_eq!(
        finished_err(a).message(),
        "No model specified and non-interactive mode is enabled"
    );
}

#[test]
fn listed_models_are_probed_and_offered() {
    let (s, _) = ModelSelection::start(None, false, SelectionRules::Command);
    let (s, a) = s.step(SelectionEvent::ConfigLoaded(DescribePictureConfig {
        preferred_vision_model: None,
    }));
    assert!(matches!(a, SelectionAction::ListLocalModels));
    let (s, a) = s.step(SelectionEvent::ModelsListed(names(&["a", "b", "c"])));
    assert!(matches!(a, SelectionAction::ShowModelInfo(ref m) if m == "a"));
    let (s, a) = s.step(caps(&["vision"]));
    assert!(matches!(a, SelectionAction::ShowModelInfo(ref m) if m == "b"));
    let (s, a) = s.step(caps(&["completion"]));
    assert!(matches!(a, SelectionAction::ShowModelInfo(ref m) if m == "c"));
    let (s, a) = s.step(caps(&["vision", "tools"]));
    match &a {
        SelectionAction::Pick(c) => assert_eq!(c, &names(&["a", "c"])),
        other => panic!("expected a pick, got {:?}", other),
    }
    assert_eq!(pick_header(), "Choose a model");
    let (_, a) = s.step(SelectionEvent::Picked(1));
    assert_eq!(finished_ok(&a).as_deref(), Some("c"));
}

#[test]
fn pick_out_of_range_is_refused() {
    let (s, _) = ModelSelection::start(None, false, SelectionRules::Command);
    let (s, _) = s.step(SelectionEvent::ConfigLoaded(DescribePictureConfig {
        preferred_vision_model: None,
    }));
    let (s, _) = s.step(SelectionEvent::ModelsListed(names(&["a"])));
    let (s, _) = s.step(caps(&["vision"]));
    let (_, a) = s.step(SelectionEvent::Picked(1));
    assert!(matches!(finished_err(a), SelectionError::UnexpectedEvent));
}

#[test]
fn no_vision_model_fails() {
    let (s, _) = ModelSelection::start(None, false, SelectionRules::Command);
    let (s, _) = s.step(SelectionEvent::ConfigLoaded(DescribePictureConfig {
        preferred_vision_model: None,
    }));
    let (s, _) = s.step(SelectionEvent::ModelsListed(names(&["a", "b"])));
    let (s, _) = s.step(caps(&["completion"]));
    let (_, a) = s.step(caps(&[]));
    assert_eq!(finished_err(a).message(), "No models support vision");

    let (s, _) = ModelSelection::start(None, false, SelectionRules::Command);
    let (s, _) = s.step(SelectionEvent::ConfigLoaded(DescribePictureConfig {
        preferred_vision_model: None,
    }));
    let (_, a) = s.step(SelectionEvent::ModelsListed(names(&[])));
    assert!(matches!(finished_err(a), SelectionError::NoVisionModels));
}

#[test]
fn probe_failure_names_the_model() {
    let (s, _) = ModelSelection::start(None, false, SelectionRules::Command);
    let (s, _) = s.step(SelectionEvent::ConfigLoaded(DescribePictureConfig {
        preferred_vision_model: None,
    }));
    let (s, _) = s.step(SelectionEvent::ModelsListed(names(&["x:1b"])));
    let (_, a) = s.step(SelectionEvent::CallFailed("connection refused".to_string()));
    assert_eq!(finished_err(a).message(), "Failed to get model info for x:1b");
}

#[test]
fn standalone_tool_probes_its_fixed_model() {
    let (s, _) = ModelSelection::start(None, false, SelectionRules::Standalone);
    let (s, _) = s.step(SelectionEvent::ConfigLoaded(DescribePictureConfig {
        preferred_vision_model: None,
    }));
    let (s, a) = s.step(SelectionEvent::ModelsListed(names(&["a", "b"])));
    assert!(matches!(a, SelectionAction::ShowModelInfo(ref m) if m == "gemma3:27b"));
    let (_, a) = s.step(SelectionEvent::CallFailed("down".to_string()));
    assert_eq!(finished_err(a).message(), "down");
}

#[test]
fn standalone_tool_ignores_non_interactive() {
    let (s, _) = ModelSelection::start(None, true, SelectionRules::Standalone);
    let (_, a) = s.step(SelectionEvent::ConfigLoaded(DescribePictureConfig {
        preferred_vision_model: None,
    }));
    assert!(matches!(a, SelectionAction::ListLocalModels));
}

#[test]
fn finished_selection_refuses_further_events() {
    let (s, _) = ModelSelection::start(Some("m".to_string()), false, SelectionRules::Command);
    let (s, _) = s.step(caps(&["vision"]));
    let (_, a) = s.step(SelectionEvent::ConfigSaved);
    assert!(matches!(finished_err(a), SelectionError::UnexpectedEvent));
}
