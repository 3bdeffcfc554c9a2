use gl_wrap::calls::{GlCall, GlReply, ShaderKind};
use gl_wrap::driver::{build_with_mock, uniform_mat4f_with_mock};
use gl_wrap::machine::{error_frag_source, error_vert_source, ShaderBuilder, Step};
use gl_wrap::mock::MockContext;
use gl_wrap::shader::Shader;

const GOOD_FRAG: &str = "void main() { gl_FragColor = vec4(1.0); }";
const GOOD_VERT: &str = "void main() { gl_Position = vec4(0.0); }";

/// Runs one build against the model context, acting as the driver: each
/// decided call is performed and its reply handed back, and each reported
/// compile error is collected.
fn drive(ctx: &mut MockContext, frag: &str, vert: &str) -> (Shader, bool, Vec<(ShaderKind, String)>) {
    let (mut b, first) = ShaderBuilder::new(frag.to_string(), vert.to_string());
    let mut call = first;
    let mut reports: Vec<(ShaderKind, String)> = Vec::new();
    let mut steps: usize = 0;
    loop {
        steps += 1;
        assert!(steps < 1000, "build did not finish");
        let reply = ctx.call(&call);
        match b.step(reply) {
            Step::Call(c) => call = c,
            Step::ReportCompileError { stage, log } => {
                reports.push((stage, log));
                match b.step(GlReply::Ack) {
                    Step::Call(c) => call = c,
                    _ => panic!("expected a call right after a report"),
                }
            }
            Step::Done {
                shader,
                used_fallback,
            } => return (shader, used_fallback, reports),
        }
    }
}

#[test]
fn build_starts_with_program_allocation() {
    let (_b, first) = ShaderBuilder::new(GOOD_FRAG.to_string(), GOOD_VERT.to_string());
    assert!(matches!(first, GlCall::CreateProgram));
}

#[test]
fn build_valid_sources_yields_live_nonzero_id() {
    let mut ctx = MockContext::new();
    let (shader, used_fallback, reports) = drive(&mut ctx, GOOD_FRAG, GOOD_VERT);
    let id = shader.id();
    assert_ne!(id, 0);
    assert!(ctx.is_live_program(id));
    assert!(ctx.is_linked(id));
    assert!(!used_fallback);
    assert!(reports.is_empty());
    assert_eq!(ctx.program_delete_count(id), 0);
}

#[test]
fn build_invalid_vert_substitutes_fallback() {
    let mut ctx = MockContext::new();
    ctx.reject_source("bad vert".to_string());
    let (shader, used_fallback, reports) = drive(&mut ctx, GOOD_FRAG, "bad vert");
    assert!(used_fallback);
    assert_eq!(reports.len(), 1);
    assert_eq!(reports[0].0, ShaderKind::Vertex);
    assert!(!reports[0].1.is_empty());
    let id = shader.id();
    assert_ne!(id, 0);
    assert!(ctx.is_live_program(id));
    assert!(ctx.is_linked(id));
    // The first round's program (handle 1) was superseded and released
    // exactly once; the handed-off one was not released at all.
    assert_ne!(id, 1);
    assert_eq!(ctx.program_delete_count(1), 1);
    assert!(!ctx.is_live_program(1));
    assert_eq!(ctx.program_delete_count(id), 0);
}

#[test]
fn build_invalid_frag_reports_fragment_stage() {
    let mut ctx = MockContext::new();
    ctx.reject_source("bad frag".to_string());
    let (shader, used_fallback, reports) = drive(&mut ctx, "bad frag", GOOD_VERT);
    assert!(used_fallback);
    assert_eq!(reports.len(), 1);
    assert_eq!(reports[0].0, ShaderKind::Fragment);
    assert!(ctx.is_live_program(shader.id()));
}

#[test]
fn build_with_mock_agrees_with_stepped_build() {
    let mut ctx = MockContext::new();
    let (shader, used_fallback) = build_with_mock(&mut ctx, GOOD_FRAG, GOOD_VERT);
    assert!(!used_fallback);
    let id = shader.id();
    assert_ne!(id, 0);
    assert!(ctx.is_live_program(id));
    assert!(ctx.is_linked(id));

    let mut ctx2 = MockContext::new();
    ctx2.reject_source("broken".to_string());
    let (shader2, used_fallback2) = build_with_mock(&mut ctx2, GOOD_FRAG, "broken");
    assert!(used_fallback2);
    assert!(ctx2.is_live_program(shader2.id()));
}

#[test]
fn destroy_releases_handle_exactly_once() {
    let mut ctx = MockContext::new();
    let (shader, _, _) = drive(&mut ctx, GOOD_FRAG, GOOD_VERT);
    let id = shader.id();
    assert_eq!(ctx.program_delete_count(id), 0);
    let release = shader.destroy();
    assert!(matches!(release, GlCall::DeleteProgram { program } if program == id));
    ctx.call(&release);
    assert_eq!(ctx.program_delete_count(id), 1);
    assert!(!ctx.is_live_program(id));
}

#[test]
fn uniform_missing_warns_and_uploads_to_noop_location() {
    let mut ctx = MockContext::new();
    let (shader, _, _) = drive(&mut ctx, GOOD_FRAG, GOOD_VERT);
    let warned = uniform_mat4f_with_mock(&mut ctx, &shader, "iMVP");
    assert!(warned);
    assert_eq!(ctx.last_upload(), Some(-1));
    // The shader and its program are untouched by the miss.
    assert!(ctx.is_live_program(shader.id()));
}

#[test]
fn uniform_present_uploads_to_its_location() {
    let mut ctx = MockContext::new();
    ctx.add_uniform("iMVP".to_string());
    let (shader, _, _) = drive(&mut ctx, GOOD_FRAG, GOOD_VERT);
    let warned = uniform_mat4f_with_mock(&mut ctx, &shader, "iMVP");
    assert!(!warned);
    assert_eq!(ctx.last_upload(), Some(0));
}

#[test]
fn uniform_lookup_call_names_program_and_uniform() {
    let mut ctx = MockContext::new();
    let (shader, _, _) = drive(&mut ctx, GOOD_FRAG, GOOD_VERT);
    let call = shader.uniform_mat4f("iMVP");
    match call {
        GlCall::GetUniformLocation { program, name } => {
            assert_eq!(program, shader.id());
            assert_eq!(name, "iMVP");
        }
        _ => panic!("expected a uniform lookup"),
    }
}

#[test]
fn bind_and_unbind_set_the_active_program() {
    let mut ctx = MockContext::new();
    let (shader, _, _) = drive(&mut ctx, GOOD_FRAG, GOOD_VERT);
    ctx.call(&shader.bind());
    assert_eq!(ctx.active_program(), shader.id());
    ctx.call(&shader.unbind());
    assert_eq!(ctx.active_program(), 0);
}

#[test]
fn fallback_sources_are_the_checkerboard_pair() {
    assert!(error_frag_source().contains("gl_FragColor"));
    assert!(error_frag_source().contains("checker"));
    assert!(error_vert_source().contains("gl_Position"));
    assert_ne!(error_frag_source(), error_vert_source());
    // The fallback pair itself builds without another fallback round.
    let mut ctx = MockContext::new();
    let (shader, used_fallback, reports) =
        drive(&mut ctx, error_frag_source(), error_vert_source());
    assert!(!used_fallback);
    assert!(reports.is_empty());
    assert!(ctx.is_live_program(shader.id()));
}
