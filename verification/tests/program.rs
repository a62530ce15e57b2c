use raytrace_gl::gpu::{ComputeShader, GeometryShader};
use raytrace_gl::program::{BuildAction, BuildError, BuildEvent, ProgramBuilder, ProgramKind, ShaderStage};

#[test]
fn geometry_build_succeeds() {
    let mut b = ProgramBuilder::new(ProgramKind::Geometry);
    assert_eq!(b.pending(), BuildAction::Compile(ShaderStage::Vertex));
    assert_eq!(b.step(BuildEvent::Compiled { shader: 4, success: true }), BuildAction::Compile(ShaderStage::Fragment));
    assert!(GeometryShader::new(&b).is_none());
    assert_eq!(b.step(BuildEvent::Compiled { shader: 5, success: true }), BuildAction::Link);
    assert_eq!(b.compiled_shaders(), &[4, 5]);
    assert_eq!(b.step(BuildEvent::Linked { program: 9, success: true }), BuildAction::Finish(9));
    assert_eq!(GeometryShader::new(&b).unwrap().id(), 9);
    assert!(ComputeShader::new(&b).is_none());
}

#[test]
fn compute_build_succeeds() {
    let mut b = ProgramBuilder::new(ProgramKind::Compute);
    assert_eq!(b.kind(), ProgramKind::Compute);
    assert_eq!(b.pending(), BuildAction::Compile(ShaderStage::Compute));
    assert_eq!(b.step(BuildEvent::Compiled { shader: 1, success: true }), BuildAction::Link);
    assert_eq!(b.step(BuildEvent::Linked { program: 2, success: true }), BuildAction::Finish(2));
    assert_eq!(ComputeShader::new(&b).unwrap().id(), 2);
    assert!(GeometryShader::new(&b).is_none());
}

#[test]
fn fragment_compile_failure_stops() {
    let mut b = ProgramBuilder::new(ProgramKind::Geometry);
    b.step(BuildEvent::Compiled { shader: 4, success: true });
    let a = b.step(BuildEvent::Compiled { shader: 5, success: false });
    assert_eq!(a, BuildAction::Fail(BuildError::Compile(ShaderStage::Fragment)));
    assert_eq!(b.compiled_shaders(), &[4]);
    // a stopped build ignores everything after
    assert_eq!(b.step(BuildEvent::Linked { program: 3, success: true }), a);
    assert_eq!(b.step(BuildEvent::Compiled { shader: 6, success: true }), a);
    assert!(GeometryShader::new(&b).is_none());
}

#[test]
fn vertex_compile_failure_stops() {
    let mut b = ProgramBuilder::new(ProgramKind::Geometry);
    let a = b.step(BuildEvent::Compiled { shader: 4, success: false });
    assert_eq!(a, BuildAction::Fail(BuildError::Compile(ShaderStage::Vertex)));
    assert!(b.compiled_shaders().is_empty());
}

#[test]
fn link_failure_names_program_kind() {
    let mut b = ProgramBuilder::new(ProgramKind::Compute);
    b.step(BuildEvent::Compiled { shader: 1, success: true });
    assert_eq!(
        b.step(BuildEvent::Linked { program: 2, success: false }),
        BuildAction::Fail(BuildError::Link(ProgramKind::Compute))
    );
    assert!(ComputeShader::new(&b).is_none());
    let mut g = ProgramBuilder::new(ProgramKind::Geometry);
    g.step(BuildEvent::Compiled { shader: 1, success: true });
    g.step(BuildEvent::Compiled { shader: 2, success: true });
    assert_eq!(
        g.step(BuildEvent::Linked { program: 3, success: false }),
        BuildAction::Fail(BuildError::Link(ProgramKind::Geometry))
    );
}

#[test]
fn out_of_turn_events_are_ignored() {
    let mut b = ProgramBuilder::new(ProgramKind::Geometry);
    assert_eq!(b.step(BuildEvent::Linked { program: 3, success: true }), BuildAction::Compile(ShaderStage::Vertex));
    b.step(BuildEvent::Compiled { shader: 1, success: true });
    b.step(BuildEvent::Compiled { shader: 2, success: true });
    assert_eq!(b.step(BuildEvent::Compiled { shader: 7, success: true }), BuildAction::Link);
    assert_eq!(b.compiled_shaders(), &[1, 2]);
}

#[test]
fn error_prefixes() {
    assert_eq!(BuildError::Compile(ShaderStage::Vertex).prefix(), "Vertex shader compile error: ");
    assert_eq!(BuildError::Compile(ShaderStage::Fragment).prefix(), "Fragment shader compile error: ");
    assert_eq!(BuildError::Compile(ShaderStage::Compute).prefix(), "Compute shader compile error: ");
    assert_eq!(BuildError::Link(ProgramKind::Geometry).prefix(), "Geometry program link error: ");
    assert_eq!(BuildError::Link(ProgramKind::Compute).prefix(), "Compute program link error: ");
}
