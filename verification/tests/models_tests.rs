use tg_cli::models::{AuthState, ChatKind, ContentType, DownloadStatus};

#[test]
fn chat_kind_names() {
    assert_eq!(ChatKind::Private.as_str(), "private");
    assert_eq!(ChatKind::Group.as_str(), "group");
    assert_eq!(ChatKind::Supergroup.as_str(), "supergroup");
    assert_eq!(ChatKind::Channel.as_str(), "channel");
    assert_eq!(ChatKind::Bot.as_str(), "bot");
}

#[test]
fn content_type_names() {
    assert_eq!(ContentType::Text.as_str(), "text");
    assert_eq!(ContentType::Photo.as_str(), "photo");
    assert_eq!(ContentType::Video.as_str(), "video");
    assert_eq!(ContentType::Document.as_str(), "document");
    assert_eq!(ContentType::Sticker.as_str(), "sticker");
    assert_eq!(ContentType::Voice.as_str(), "voice");
    assert_eq!(ContentType::Other.as_str(), "other");
}

#[test]
fn download_status_names() {
    assert_eq!(DownloadStatus::Pending.as_str(), "pending");
    assert_eq!(DownloadStatus::Downloading.as_str(), "downloading");
    assert_eq!(DownloadStatus::Completed.as_str(), "completed");
    assert_eq!(DownloadStatus::Failed.as_str(), "failed");
}

#[test]
fn auth_states_from_tdlib() {
    assert_eq!(AuthState::from_tdlib("authorizationStateWaitTdlibParameters"), AuthState::WaitTdlibParameters);
    assert_eq!(AuthState::from_tdlib("authorizationStateWaitEncryptionKey"), AuthState::WaitEncryptionKey);
    assert_eq!(AuthState::from_tdlib("authorizationStateWaitPhoneNumber"), AuthState::WaitPhoneNumber);
    assert_eq!(AuthState::from_tdlib("authorizationStateWaitCode"), AuthState::WaitCode);
    assert_eq!(AuthState::from_tdlib("authorizationStateWaitPassword"), AuthState::WaitPassword);
    assert_eq!(AuthState::from_tdlib("authorizationStateReady"), AuthState::Ready);
    assert_eq!(AuthState::from_tdlib("authorizationStateLoggingOut"), AuthState::LoggingOut);
    assert_eq!(AuthState::from_tdlib("authorizationStateClosed"), AuthState::Closed);
    assert_eq!(
        AuthState::from_tdlib("authorizationStateWaitRegistration"),
        AuthState::Unknown("authorizationStateWaitRegistration".to_string())
    );
}
