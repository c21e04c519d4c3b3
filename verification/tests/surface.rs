use parametric_surface::config::ConfigError;
use parametric_surface::script::ScriptError;
use parametric_surface::surface::{BuildError, Surface};

#[test]
fn successful_rebuild_replaces_mesh_and_program_together() {
    let mut surface = Surface::new("old mesh", 1u32);
    let result: Result<(), BuildError> = surface.update(Ok(("new mesh", 2u32)));
    assert_eq!(result, Ok(()));
    assert_eq!(surface.mesh, "new mesh");
    assert_eq!(surface.program, 2);
}

#[test]
fn failed_rebuild_keeps_the_surface() {
    let mut surface = Surface::new(vec![1u16, 2, 3], "program");
    for error in [
        BuildError::Compile,
        BuildError::Evaluation,
        BuildError::Domain,
        BuildError::Config(ConfigError::MissingUSegments),
        BuildError::Config(ConfigError::TooManyVertices),
        BuildError::Script(ScriptError::MatrixValueCount { found: 4 }),
    ] {
        assert_eq!(surface.update(Err(error)), Err(error));
        assert_eq!(surface.mesh, vec![1, 2, 3]);
        assert_eq!(surface.program, "program");
    }
}
