use tws::log::{is_quiet, method_tag, set_quiet, status_class, LogSettings};
use tws::message::Method;

#[test]
fn quiet_flag_round_trip() {
    let mut s = LogSettings::new();
    assert!(!is_quiet(&s));
    set_quiet(&mut s, true);
    assert!(is_quiet(&s));
    set_quiet(&mut s, false);
    assert!(!is_quiet(&s));
}

#[test]
fn log_labels() {
    assert_eq!(method_tag(&Method::Delete), " DEL ");
    assert_eq!(method_tag(&Method::Other(String::from("BREW"))), " ??? ");
    assert_eq!(status_class(404), 4);
    assert_eq!(status_class(200), 2);
}
