use parametric_surface::config::{ConfigError, SurfaceConfig, DEFAULT_SEGMENTS, MAX_VERTICES};
use rhai::{Engine, Scope};

#[test]
fn resolution_is_read_from_the_scope() {
    let mut scope = Scope::new();
    scope.push("u_segments", 2_i64);
    scope.push("v_segments", 3_i64);
    assert_eq!(SurfaceConfig::from_scope(&scope), Ok(SurfaceConfig::new(2, 3)));
}

#[test]
fn seeded_defaults_are_read_back() {
    let mut scope = Scope::new();
    SurfaceConfig::seed_defaults(&mut scope);
    assert_eq!(scope.get_value::<i64>("u_segments"), Some(100));
    assert_eq!(scope.get_value::<i64>("v_segments"), Some(100));
    assert_eq!(DEFAULT_SEGMENTS, 100);
    assert_eq!(
        SurfaceConfig::from_scope(&scope),
        Ok(SurfaceConfig::new(DEFAULT_SEGMENTS, DEFAULT_SEGMENTS))
    );
}

#[test]
fn seeding_shadows_older_entries_and_keeps_other_names() {
    let mut scope = Scope::new();
    scope.push("u_segments", 7_i64);
    scope.push("rings", 12_i64);
    SurfaceConfig::seed_defaults(&mut scope);
    assert_eq!(scope.get_value::<i64>("u_segments"), Some(100));
    assert_eq!(scope.get_value::<i64>("rings"), Some(12));
}

#[test]
fn script_overwrites_the_seeded_defaults() {
    let engine = Engine::new();
    let mut scope = Scope::new();
    SurfaceConfig::seed_defaults(&mut scope);
    engine.run_with_scope(&mut scope, "u_segments = 2; v_segments = 4;").unwrap();
    assert_eq!(SurfaceConfig::from_scope(&scope), Ok(SurfaceConfig::new(2, 4)));
}

#[test]
fn script_may_leave_the_defaults_untouched() {
    let engine = Engine::new();
    let mut scope = Scope::new();
    SurfaceConfig::seed_defaults(&mut scope);
    engine.run_with_scope(&mut scope, "let rings = 3;").unwrap();
    assert_eq!(SurfaceConfig::from_scope(&scope), Ok(SurfaceConfig::new(100, 100)));
}

#[test]
fn missing_segment_counts_are_reported() {
    let mut scope = Scope::new();
    assert_eq!(SurfaceConfig::from_scope(&scope), Err(ConfigError::MissingUSegments));
    scope.push("v_segments", 3_i64);
    assert_eq!(SurfaceConfig::from_scope(&scope), Err(ConfigError::MissingUSegments));
    let mut scope = Scope::new();
    scope.push("u_segments", 3_i64);
    assert_eq!(SurfaceConfig::from_scope(&scope), Err(ConfigError::MissingVSegments));
}

#[test]
fn segment_count_that_is_no_integer_counts_as_missing() {
    let mut scope = Scope::new();
    scope.push("u_segments", 2.5_f32);
    scope.push("v_segments", 3_i64);
    assert_eq!(SurfaceConfig::from_scope(&scope), Err(ConfigError::MissingUSegments));
    let mut scope = Scope::new();
    scope.push("u_segments", 2_i64);
    scope.push("v_segments", "three");
    assert_eq!(SurfaceConfig::from_scope(&scope), Err(ConfigError::MissingVSegments));
}

#[test]
fn negative_segment_counts_are_reported() {
    let mut scope = Scope::new();
    scope.push("u_segments", -1_i64);
    scope.push("v_segments", -1_i64);
    assert_eq!(SurfaceConfig::from_scope(&scope), Err(ConfigError::NegativeUSegments));
    let mut scope = Scope::new();
    scope.push("u_segments", 0_i64);
    scope.push("v_segments", i64::MIN);
    assert_eq!(SurfaceConfig::from_scope(&scope), Err(ConfigError::NegativeVSegments));
}

#[test]
fn grid_beyond_the_index_format_is_reported() {
    let mut scope = Scope::new();
    scope.push("u_segments", 255_i64);
    scope.push("v_segments", 256_i64);
    assert_eq!(SurfaceConfig::from_scope(&scope), Err(ConfigError::TooManyVertices));
    let mut scope = Scope::new();
    scope.push("u_segments", i64::MAX);
    scope.push("v_segments", i64::MAX);
    assert_eq!(SurfaceConfig::from_scope(&scope), Err(ConfigError::TooManyVertices));
}

#[test]
fn pair_of_integers_describes_a_grid() {
    assert_eq!(SurfaceConfig::from_integers(Some(0), Some(0)), Ok(SurfaceConfig::new(0, 0)));
    assert_eq!(
        SurfaceConfig::from_integers(Some(255), Some(255)),
        Ok(SurfaceConfig::new(255, 255))
    );
    assert_eq!(
        SurfaceConfig::from_integers(Some(65535), Some(0)),
        Ok(SurfaceConfig::new(65535, 0))
    );
    assert_eq!(SurfaceConfig::from_integers(None, None), Err(ConfigError::MissingUSegments));
    assert_eq!(SurfaceConfig::from_integers(None, Some(-1)), Err(ConfigError::MissingUSegments));
    assert_eq!(SurfaceConfig::from_integers(Some(-1), None), Err(ConfigError::MissingVSegments));
    assert_eq!(
        SurfaceConfig::from_integers(Some(-1), Some(-1)),
        Err(ConfigError::NegativeUSegments)
    );
    assert_eq!(
        SurfaceConfig::from_integers(Some(70000), Some(-1)),
        Err(ConfigError::NegativeVSegments)
    );
    assert_eq!(
        SurfaceConfig::from_integers(Some(65536), Some(0)),
        Err(ConfigError::TooManyVertices)
    );
    assert_eq!(
        SurfaceConfig::from_integers(Some(0), Some(65536)),
        Err(ConfigError::TooManyVertices)
    );
}

#[test]
fn index_format_holds_up_to_its_limit() {
    assert_eq!(MAX_VERTICES, 65536);
    assert!(SurfaceConfig::new(255, 255).check_index_format());
    assert!(SurfaceConfig::new(65535, 0).check_index_format());
    assert!(SurfaceConfig::new(0, 65535).check_index_format());
    assert!(SurfaceConfig::new(100, 100).check_index_format());
    assert!(!SurfaceConfig::new(255, 256).check_index_format());
    assert!(!SurfaceConfig::new(65536, 0).check_index_format());
    assert!(!SurfaceConfig::new(0, 65536).check_index_format());
    assert!(!SurfaceConfig::new(usize::MAX, 0).check_index_format());
    assert!(!SurfaceConfig::new(usize::MAX, usize::MAX).check_index_format());
}

#[test]
fn seeded_grid_has_its_counts() {
    let config = SurfaceConfig::new(DEFAULT_SEGMENTS, DEFAULT_SEGMENTS);
    assert_eq!(config.vertex_count(), 10201);
    assert_eq!(config.index_count(), 60000);
}

#[test]
fn default_grid_is_a_single_vertex() {
    let config = SurfaceConfig::default();
    assert_eq!(config, SurfaceConfig::new(0, 0));
    assert_eq!(config.vertex_count(), 1);
}
