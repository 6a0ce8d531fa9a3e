use discrakt::discord::{Discord, RECONNECT_DELAY_SECS};

#[test]
fn new_connection_is_down() {
    let discord = Discord::new(String::from("1234"));
    assert!(!discord.is_connected());
    assert_eq!(discord.application_id(), "1234");
}

#[test]
fn successful_connect_brings_the_connection_up() {
    let mut discord = Discord::new(String::from("1234"));
    assert_eq!(discord.connect(true), None);
    assert!(discord.is_connected());
}

#[test]
fn failed_connect_asks_for_a_retry_after_the_delay() {
    let mut discord = Discord::new(String::from("1234"));
    assert_eq!(discord.connect(false), Some(RECONNECT_DELAY_SECS));
    assert_eq!(discord.connect(false), Some(15));
    assert!(!discord.is_connected());
    assert_eq!(discord.connect(true), None);
    assert!(discord.is_connected());
}

#[test]
fn close_brings_the_connection_down() {
    let mut discord = Discord::new(String::from("1234"));
    discord.connect(true);
    discord.close();
    assert!(!discord.is_connected());
    discord.close();
    assert!(!discord.is_connected());
}

#[test]
fn delivered_presence_keeps_the_connection_up() {
    let mut discord = Discord::new(String::from("1234"));
    discord.connect(true);
    discord.set_activity(true);
    assert!(discord.is_connected());
}

#[test]
fn undelivered_presence_brings_the_connection_down() {
    let mut discord = Discord::new(String::from("1234"));
    discord.connect(true);
    discord.set_activity(false);
    assert!(!discord.is_connected());
    assert_eq!(discord.application_id(), "1234");
}
