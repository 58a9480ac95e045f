use shader_playground::compile::CompileAction;
use shader_playground::compile::CompilePhase;
use shader_playground::compile::CompileSession;
use shader_playground::compile::StageReport;
use shader_playground::reloaded_shader::example_fragment_source;
use shader_playground::reloaded_shader::vertex_shader_source;
use shader_playground::reloaded_shader::ReloadedShader;

#[test]
fn accepted_compile_becomes_active_shader() {
    let state = ReloadedShader::from_str(Ok(7));
    assert_eq!(state.program_handle(), Some(7));
    assert!(state.as_shader().is_some());
    assert_eq!(state.as_shader().unwrap().0, 7);
}

#[test]
fn rejected_compile_keeps_the_diagnostic() {
    let state = ReloadedShader::from_str(Err("0:3(1): error: syntax error".to_owned()));
    assert!(state.as_shader().is_none());
    assert_eq!(
        state.compile_log().map(|l| l.as_str()),
        Some("0:3(1): error: syntax error")
    );
}

#[test]
fn failed_read_surfaces_without_compiling() {
    let state = ReloadedShader::from_file(Err("No such file or directory".to_owned()), None);
    assert!(state.as_shader().is_none());
    assert!(state.compile_log().is_none());
    assert_eq!(
        state.read_error().map(|e| e.as_str()),
        Some("No such file or directory")
    );
}

#[test]
fn successful_load_delegates_to_compile_verdict() {
    let state = ReloadedShader::from_file(Ok("void main() {}".to_owned()), Some(Ok(11)));
    assert_eq!(state.program_handle(), Some(11));
}

#[test]
fn example_shader_follows_the_verdict() {
    let ok = ReloadedShader::example_shader(Ok(3));
    assert_eq!(ok.program_handle(), Some(3));
    let bad = ReloadedShader::example_shader(Err("rejected".to_owned()));
    assert!(bad.as_shader().is_none());
}

#[test]
fn default_state_is_not_provided() {
    let state = ReloadedShader::default();
    assert!(matches!(state, ReloadedShader::NotProvided));
    assert!(state.as_shader().is_none());
    assert!(state.program_handle().is_none());
}

#[test]
fn session_walks_vertex_fragment_link_in_order() {
    let mut session = CompileSession::new();
    assert!(matches!(session.next_action(), CompileAction::CompileVertex));
    let a1 = session.step(StageReport::Accepted(3));
    assert!(matches!(a1, CompileAction::CompileFragment));
    let a2 = session.step(StageReport::Accepted(4));
    assert!(matches!(a2, CompileAction::Link(3, 4)));
    let a3 = session.step(StageReport::Accepted(9));
    assert!(matches!(a3, CompileAction::ReleaseStages(3, 4)));
    assert!(session.is_done());
    assert_eq!(session.finish(), Ok(9));
}

#[test]
fn vertex_failure_short_circuits_the_session() {
    let mut session = CompileSession::new();
    let a = session.step(StageReport::Rejected("vertex stage rejected".to_owned()));
    assert!(matches!(a, CompileAction::Idle));
    assert!(session.is_done());
    assert_eq!(session.finish(), Err("vertex stage rejected".to_owned()));
}

#[test]
fn fragment_failure_short_circuits_the_session() {
    let mut session = CompileSession::new();
    session.step(StageReport::Accepted(3));
    let a = session.step(StageReport::Rejected("fragment stage rejected".to_owned()));
    assert!(matches!(a, CompileAction::Idle));
    assert_eq!(session.finish(), Err("fragment stage rejected".to_owned()));
}

#[test]
fn link_failure_short_circuits_without_releasing_stages() {
    let mut session = CompileSession::new();
    session.step(StageReport::Accepted(3));
    session.step(StageReport::Accepted(4));
    let a = session.step(StageReport::Rejected("link failed".to_owned()));
    assert!(matches!(a, CompileAction::Idle));
    assert!(matches!(session.phase, CompilePhase::Done(Err(_))));
}

#[test]
fn builtin_sources_name_the_known_uniforms() {
    assert!(vertex_shader_source().contains("gl_Position"));
    assert!(vertex_shader_source().starts_with("#version 330 core"));
    assert!(example_fragment_source().contains("uResolution"));
}

#[test]
fn finished_session_maps_straight_into_the_state_machine() {
    let mut session = CompileSession::new();
    session.step(StageReport::Accepted(3));
    session.step(StageReport::Accepted(4));
    session.step(StageReport::Accepted(9));
    let state = ReloadedShader::from_session(session);
    assert_eq!(state.program_handle(), Some(9));

    let mut failing = CompileSession::new();
    failing.step(StageReport::Rejected("vertex stage rejected".to_owned()));
    let state = ReloadedShader::from_session(failing);
    assert_eq!(
        state.compile_log().map(|l| l.as_str()),
        Some("vertex stage rejected")
    );
}
