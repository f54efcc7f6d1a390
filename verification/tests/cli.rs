use flow_core::cli::{GuiCommand, GuiSubcommand};
use flow_core::global_args::GlobalArgs;
use flow_core::standalone::Args;
use flow_core::describe::DescribeError;
use flow_core::model_selection::SelectionAction;

#[test]
fn gui_start_logs_its_line() {
    let g = GlobalArgs::new();
    assert_eq!(GuiCommand { command: GuiSubcommand::Start }.handle(&g), "Starting GUI application");
}

#[test]
fn standalone_checks_picture_and_starts_selection() {
    let a = Args {
        debug: false,
        picture_path: "p.png".to_string(),
        prompt: "What?".to_string(),
        model: None,
    };
    assert!(a.check_picture_exists(true).is_ok());
    let e = a.check_picture_exists(false).unwrap_err();
    assert!(matches!(e, DescribeError::PathMissing(ref p) if p == "p.png"));
    let (_, act) = a.model_selection();
    assert!(matches!(act, SelectionAction::LoadConfig));
}
