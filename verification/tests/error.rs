use samba::Error;

#[test]
fn messages_carry_their_label() {
    let text = || "boom".to_string();
    assert_eq!(Error::Config(text()).message(), "config error: boom");
    assert_eq!(Error::Nats(text()).message(), "nats: boom");
    assert_eq!(Error::Serde(text()).message(), "serde: boom");
    assert_eq!(Error::Io(text()).message(), "io: boom");
    assert_eq!(Error::Dispatch(text()).message(), "upstream dispatch failed: boom");
    assert_eq!(Error::Metrics(text()).message(), "metrics server: boom");
}

#[test]
fn outside_errors_keep_their_text() {
    let json = serde_json::from_str::<u32>("x").unwrap_err();
    let text = json.to_string();
    match Error::from(json) {
        Error::Serde(why) => assert_eq!(why, text),
        _ => panic!("wrong kind"),
    }
    let yaml = serde_yaml_ng::from_str::<u32>("[").unwrap_err();
    let text = yaml.to_string();
    match Error::from(yaml) {
        Error::Serde(why) => assert_eq!(why, text),
        _ => panic!("wrong kind"),
    }
    let io = std::io::Error::new(std::io::ErrorKind::NotFound, "nothing there");
    let text = io.to_string();
    match Error::from(io) {
        Error::Io(why) => assert_eq!(why, text),
        _ => panic!("wrong kind"),
    }
}
