use rmkit::artifact::{
    artifact_file, cargo_build_args, select_artifact, verbosity_arguments, ArtifactRecord,
    BuildError, TargetKind,
};

fn record(pkg: &str, name: &str, kinds: Vec<TargetKind>, exe: Option<&str>) -> ArtifactRecord {
    ArtifactRecord {
        package_id: pkg.to_string(),
        target_name: name.to_string(),
        target_kinds: kinds,
        executable: exe.map(|e| e.to_string()),
        filenames: vec![format!("target/{name}.rlib")],
    }
}

fn members() -> Vec<String> {
    vec!["kb 0.1.0".to_string()]
}

#[test]
fn two_binaries_are_ambiguous() {
    let arts = vec![
        record("kb 0.1.0", "central", vec![TargetKind::Bin], Some("target/central")),
        record("kb 0.1.0", "peripheral", vec![TargetKind::Bin], Some("target/peripheral")),
    ];
    assert_eq!(
        select_artifact(arts, &members(), None, true),
        Err(BuildError::AmbiguousArtifact)
    );
}

#[test]
fn single_binary_is_selected() {
    let arts = vec![
        record("dep 1.0.0", "dep", vec![TargetKind::Lib], None),
        record("kb 0.1.0", "kb", vec![TargetKind::Bin], Some("target/kb")),
    ];
    let a = select_artifact(arts, &members(), None, true).unwrap();
    assert_eq!(a.target_name, "kb");
    assert_eq!(artifact_file(&a), Ok("target/kb".to_string()));
}

#[test]
fn named_target_is_selected() {
    let arts = vec![
        record("kb 0.1.0", "central", vec![TargetKind::Bin], Some("target/central")),
        record("kb 0.1.0", "peripheral", vec![TargetKind::Bin], Some("target/peripheral")),
        record("other 0.1.0", "central", vec![TargetKind::Bin], Some("x/central")),
    ];
    let a = select_artifact(arts, &members(), Some("peripheral"), true).unwrap();
    assert_eq!(a.executable.as_deref(), Some("target/peripheral"));
}

#[test]
fn nothing_matching() {
    let arts = vec![record("dep 1.0.0", "dep", vec![TargetKind::Lib], None)];
    assert_eq!(
        select_artifact(arts, &members(), None, true),
        Err(BuildError::NoArtifactProduced)
    );
    assert_eq!(select_artifact(vec![], &members(), Some("kb"), true), Err(BuildError::NoArtifactProduced));
}

#[test]
fn failed_build_wins() {
    let arts = vec![record("kb 0.1.0", "kb", vec![TargetKind::Bin], Some("target/kb"))];
    assert_eq!(select_artifact(arts, &members(), None, false), Err(BuildError::BuildFailed));
}

#[test]
fn library_output_falls_back_to_first_file() {
    let a = record("kb 0.1.0", "kb", vec![TargetKind::Bin], None);
    assert_eq!(artifact_file(&a), Ok("target/kb.rlib".to_string()));
    let mut b = a.clone();
    b.filenames.clear();
    assert_eq!(artifact_file(&b), Err(BuildError::NoOutputFile));
}

#[test]
fn compiler_arguments() {
    assert_eq!(
        cargo_build_args(None, 0),
        vec!["build", "--release", "--message-format=json"]
    );
    assert_eq!(
        cargo_build_args(Some("central"), 3),
        vec!["build", "--release", "--bin", "central", "--message-format=json", "-vv"]
    );
    assert!(verbosity_arguments(1).is_empty());
    assert_eq!(verbosity_arguments(2), vec!["-v"]);
    assert_eq!(verbosity_arguments(5), vec!["-vvvv"]);
}
