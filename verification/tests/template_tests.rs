use srow::date::Date;
use srow::directory_path::PathProbe;
use srow::directory_path::VirtualDirectoryPath;
use srow::error::AppError;
use srow::path_template_renderer::PathTemplateRenderer;
use srow::text::PadLeft;
use srow::text::u32_to_string;

fn template(path: &str) -> VirtualDirectoryPath {
    let missing = PathProbe { exists: false, is_dir: false, is_file: false, readonly: false };
    VirtualDirectoryPath::new(path.to_string(), missing).unwrap()
}

#[test]
fn pad_left() {
    assert_eq!(1u32.pad_left(2, '0'), "01");
    assert_eq!(10u32.pad_left(2, '0'), "10");
    assert_eq!(100u32.pad_left(2, '0'), "100");
}

#[test]
fn u32_to_string_renders_decimal() {
    assert_eq!(u32_to_string(0), "0");
    assert_eq!(u32_to_string(7), "7");
    assert_eq!(u32_to_string(2024), "2024");
    assert_eq!(u32_to_string(4294967295), "4294967295");
}

#[test]
fn path_template_rendering_failure_when_invalid_template() {
    let renderer = PathTemplateRenderer::new(template("/test/files/{yyyy}/{invalid}/{dd}"));
    let date = Date::new(2024, 3, 14).unwrap();
    let result = renderer.render(&date);
    assert!(result.is_err());
}

#[test]
fn path_template_rendering_success_when_valid_template() {
    let renderer = PathTemplateRenderer::new(template("/test/files/{yyyy}/{mm}/{dd}"));
    let date = Date::new(2024, 3, 14).unwrap();
    let result = renderer.render(&date);
    assert!(result.is_ok());
    assert_eq!(result.unwrap(), "/test/files/2024/03/14");
}

#[test]
fn path_template_rendering_keeps_plain_paths() {
    let renderer = PathTemplateRenderer::new(template("/test/files/plain"));
    let date = Date::new(2024, 3, 14).unwrap();
    assert_eq!(renderer.render(&date).unwrap(), "/test/files/plain");
}

#[test]
fn path_template_rendering_error_carries_rendered_text() {
    let renderer = PathTemplateRenderer::new(template("/files/{yyyy}/{oops}"));
    let date = Date::new(2024, 3, 14).unwrap();
    match renderer.render(&date).unwrap_err() {
        AppError::InvalidInput(rendered) => assert_eq!(rendered, "/files/2024/{oops}"),
        other => panic!("expected InvalidInput, got {:?}", other),
    }
}
