use amallgam::errors::{AmallgamError, AppError, INTERNAL_SERVER_ERROR};

#[test]
fn error_messages() {
    assert_eq!(AmallgamError::SessionQueueFull.message(), "Session queue full");
    assert_eq!(AmallgamError::ResourcesUnavailable.message(), "Resources unavailable. Try again");
    assert_eq!(
        AmallgamError::OffloadBotNotFound { alias: "https://a.org/user/x/".to_string() }.message(),
        "Offload bot not found for: https://a.org/user/x/"
    );
    assert_eq!(AmallgamError::RemoteUserAsBot.message(), "Attempted to use a remote user as a bot");
    assert_eq!(AmallgamError::UserNotFound.message(), "User not found");
    assert_eq!(AmallgamError::ModelNotFound.message(), "Model not found");
    assert_eq!(AmallgamError::BadLocalUserUrl.message(), "Bad Local User URL?");
    assert_eq!(AmallgamError::DomainsDoNotMatch.message(), "URL failed verification: Domains do not match");
}

#[test]
fn route_errors_are_internal_server_errors() {
    let e = AppError::from_error(&AmallgamError::SessionQueueFull);
    assert_eq!(e.status, INTERNAL_SERVER_ERROR);
    assert_eq!(e.status, 500);
    assert_eq!(e.message, "Session queue full");
    let e = AppError::from_message("boom".to_string());
    assert_eq!(e.status, 500);
    assert_eq!(e.message, "boom");
}
