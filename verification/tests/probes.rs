use sandbox::status::{liveness, not_found, readiness, Status};

#[test]
fn liveness_probe_returns_200() {
    assert_eq!(liveness().code(), 200);
}

#[test]
fn readiness_probe_returns_200() {
    assert_eq!(readiness().code(), 200);
}

#[test]
fn unknown_path_returns_404() {
    assert_eq!(not_found(), Status::NotFound);
    assert_eq!(not_found().code(), 404);
}
