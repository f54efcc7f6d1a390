use flow_core::describe::{
    result_line, DescribeCommand, DescribeError, DescribeRequest, ImageDescription, ImagePath,
};
use flow_core::global_args::GlobalArgs;
use flow_core::model_selection::SelectionAction;

fn path(s: &str) -> ImagePath {
    ImagePath::from_str(s).unwrap()
}

fn command(paths: &[&str], prompt: Option<&str>, model: Option<&str>) -> DescribeCommand {
    DescribeCommand {
        image_path: paths.iter().map(|p| path(p)).collect(),
        prompt: prompt.map(|p| p.to_string()),
        model: model.map(|m| m.to_string()),
    }
}

#[test]
fn image_path_round_trips_its_text() {
    let p = path("pics/cat.png");
    assert_eq!(p.inner, "pics/cat.png");
    assert_eq!(p.to_string(), "pics/cat.png");
}

#[test]
fn first_missing_path_is_reported() {
    let c = command(&["a.png", "b.png", "c.png"], None, None);
    assert!(c.check_paths_exist(&vec![true, true, true]).is_ok());
    let e = c.check_paths_exist(&vec![true, false, false]).unwrap_err();
    assert!(matches!(e, DescribeError::PathMissing(ref p) if p == "b.png"));
    assert_eq!(e.message(), "Picture path does not exist: b.png");
    assert!(command(&[], None, None).check_paths_exist(&vec![]).is_ok());
}

#[test]
fn prompt_defaults_to_describe() {
    assert_eq!(command(&["a"], None, None).effective_prompt(), "Describe this image");
    assert_eq!(command(&["a"], Some("What is red?"), None).effective_prompt(), "What is red?");
}

#[test]
fn selection_starts_from_model_argument() {
    let g = GlobalArgs { debug: false, non_interactive: false };
    let (_, a) = command(&["a"], None, Some("llava")).model_selection(&g);
    assert!(matches!(a, SelectionAction::ShowModelInfo(ref m) if m == "llava"));
    let (_, a) = command(&["a"], None, None).model_selection(&g);
    assert!(matches!(a, SelectionAction::LoadConfig));
}

#[test]
fn request_carries_the_base64_image() {
    let r = DescribeRequest::new("llava".to_string(), "Describe this image".to_string(), &b"hello".to_vec());
    assert_eq!(r.model, "llava");
    assert_eq!(r.prompt, "Describe this image");
    assert_eq!(r.image_base64, "aGVsbG8=");
    let r = DescribeRequest::new("m".to_string(), "p".to_string(), &vec![0xff, 0x00, 0x10, 0x20]);
    assert_eq!(r.image_base64, "/wAQIA==");
    let r = DescribeRequest::new("m".to_string(), "p".to_string(), &vec![]);
    assert_eq!(r.image_base64, "");
}

#[test]
fn result_line_joins_path_and_description() {
    let d = ImageDescription::from_response("A cat on a mat.".to_string());
    assert_eq!(result_line(&path("cat.png"), &d), "cat.png: A cat on a mat.");
}

#[test]
fn base64_matches_the_standard_vectors() {
    for (input, expected) in [
        ("", ""),
        ("f", "Zg=="),
        ("fo", "Zm8="),
        ("foo", "Zm9v"),
        ("foob", "Zm9vYg=="),
        ("fooba", "Zm9vYmE="),
        ("foobar", "Zm9vYmFy"),
    ] {
        let r = DescribeRequest::new("m".to_string(), "p".to_string(), &input.as_bytes().to_vec());
        assert_eq!(r.image_base64, expected);
    }
}
