use wardnet::auth::{AuthContext, Role};
use wardnet::error::AppError;

#[test]
fn client_errors_map_to_status_label_and_detail() {
    let cases = [
        (AppError::NotFound("tunnel 1".to_owned()), 404, "not found"),
        (AppError::Unauthorized("bad token".to_owned()), 401, "unauthorized"),
        (AppError::Forbidden("admin only".to_owned()), 403, "forbidden"),
        (AppError::BadRequest("bad body".to_owned()), 400, "bad request"),
        (AppError::Conflict("setup done".to_owned()), 409, "conflict"),
        (AppError::UpstreamUnavailable("manifest host down".to_owned()), 502, "upstream unavailable"),
    ];
    for (err, status, label) in cases {
        let parts = err.response_parts();
        assert_eq!(parts.status, status);
        assert_eq!(parts.error, label);
        let msg = match &err {
            AppError::NotFound(m)
            | AppError::Unauthorized(m)
            | AppError::Forbidden(m)
            | AppError::BadRequest(m)
            | AppError::Conflict(m)
            | AppError::UpstreamUnavailable(m) => m.clone(),
            _ => unreachable!(),
        };
        assert_eq!(parts.detail, Some(msg));
    }
}

#[test]
fn internal_errors_hide_their_detail() {
    for err in [
        AppError::Internal("disk full".to_owned()),
        AppError::Database("locked".to_owned()),
    ] {
        let parts = err.response_parts();
        assert_eq!(parts.status, 500);
        assert_eq!(parts.error, "internal server error");
        assert_eq!(parts.detail, None);
    }
}

#[test]
fn error_messages_prefix_the_kind() {
    assert_eq!(AppError::NotFound("x".to_owned()).message(), "not found: x");
    assert_eq!(AppError::BadRequest("y".to_owned()).message(), "bad request: y");
    assert_eq!(
        AppError::UpstreamUnavailable("z".to_owned()).message(),
        "upstream unavailable: z"
    );
    assert_eq!(AppError::Internal("disk full".to_owned()).message(), "disk full");
}

#[test]
fn admin_context_is_admin() {
    let ctx = AuthContext::Admin { admin_id: 7 };
    assert!(ctx.is_admin());
    assert_eq!(ctx.device_mac(), None);
}

#[test]
fn device_context_exposes_mac() {
    let ctx = AuthContext::Device { mac: "AA:BB:CC:DD:EE:01".to_owned() };
    assert!(!ctx.is_admin());
    assert_eq!(ctx.device_mac(), Some("AA:BB:CC:DD:EE:01"));
}

#[test]
fn anonymous_context_has_nothing() {
    let ctx = AuthContext::Anonymous;
    assert!(!ctx.is_admin());
    assert_eq!(ctx.device_mac(), None);
}

#[test]
fn roles_are_distinct() {
    assert_ne!(Role::Admin, Role::Public);
}
