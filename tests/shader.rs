use pager::{compile_outcome, link_outcome, ShaderError};

fn text(e: ShaderError) -> (bool, String) {
    match e {
        ShaderError::Compile(m) => (true, m),
        ShaderError::Link(m) => (false, m),
    }
}

#[test]
fn compiled_shader_is_kept() {
    assert_eq!(compile_outcome(Some(5u8), Some(true), None).unwrap(), 5);
}

#[test]
fn compile_failure_carries_driver_log() {
    let e = compile_outcome(Some(5u8), Some(false), Some("0:1: syntax error".to_string()));
    assert_eq!(text(e.unwrap_err()), (true, "0:1: syntax error".to_string()));
}

#[test]
fn compile_status_missing_is_failure() {
    let e = compile_outcome(Some(5u8), None, None);
    assert_eq!(text(e.unwrap_err()), (true, "Unknown error creating shader".to_string()));
}

#[test]
fn shader_not_created() {
    let e = compile_outcome::<u8>(None, None, None);
    assert_eq!(text(e.unwrap_err()), (true, "Unable to create shader object".to_string()));
}

#[test]
fn linked_program_is_kept() {
    assert_eq!(link_outcome(Some(3u16), Some(true), Some("ignored".to_string())).unwrap(), 3);
}

#[test]
fn link_failure_carries_driver_log() {
    let e = link_outcome(Some(3u16), Some(false), Some("missing main".to_string()));
    assert_eq!(text(e.unwrap_err()), (false, "missing main".to_string()));
    let e = link_outcome(Some(3u16), Some(false), None);
    assert_eq!(text(e.unwrap_err()), (false, "Unknown error creating program object".to_string()));
}

#[test]
fn program_not_created() {
    let e = link_outcome::<u16>(None, Some(true), None);
    assert_eq!(text(e.unwrap_err()), (false, "Unable to create shader object".to_string()));
}
