use rdp_core::connection::{RDPCredentials, RDPSession, DEFAULT_PORT};
use rdp_core::vc::{GenericChannel, GenericChannelMessage};

#[test]
fn session_settings_defaults() {
    let creds = RDPCredentials::new("alice".to_string(), "pw".to_string(), Some("CORP".to_string()));
    assert_eq!(creds.username(), "alice");
    assert_eq!(creds.password(), "pw");
    assert_eq!(creds.domain(), &Some("CORP".to_string()));
    let s = RDPSession::from_credentials(creds);
    assert_eq!((s.width(), s.height()), (1024, 768));
    assert!(s.dynamic_channel_names().is_empty());
    assert_eq!(DEFAULT_PORT, 3389);
}

#[test]
fn session_with_dynamic_channels() {
    let creds = RDPCredentials::new("bob".to_string(), "x".to_string(), None);
    let s = RDPSession::from_credentials(creds)
        .with_dynamic_channels(Some(vec!["echo".to_string(), "log".to_string()]));
    assert_eq!(s.dynamic_channel_names(), vec!["echo".to_string(), "log".to_string()]);
    assert_eq!(s.credentials().username(), "bob");
    assert_eq!(s.credentials().domain(), &None);
}

#[test]
fn generic_channel_name_and_message() {
    let ch = GenericChannel::new("echo".to_string());
    assert_eq!(ch.channel_name(), "echo");
    let m = GenericChannelMessage::from_string("hé".to_string());
    assert_eq!(m.name(), "GENERIC");
    assert_eq!(m.size(), 3);
    assert_eq!(m.encode(), vec![b'h', 0xc3, 0xa9]);
    assert_eq!(GenericChannelMessage::from_string(String::new()).size(), 0);
}
