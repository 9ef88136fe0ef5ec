use status_line::options::{PLAIN_REFRESH_MILLIS, TTY_REFRESH_MILLIS};
use status_line::Options;
use std::time::Duration;

#[test]
fn defaults_on_a_terminal() {
    let options = Options::for_terminal(true);
    assert_eq!(options.refresh_period, Duration::from_millis(100));
    assert!(options.initially_visible);
    assert!(options.enable_ansi_escapes);
}

#[test]
fn defaults_off_a_terminal() {
    let options = Options::for_terminal(false);
    assert_eq!(options.refresh_period, Duration::from_millis(1000));
    assert!(options.initially_visible);
    assert!(!options.enable_ansi_escapes);
}

#[test]
fn refresh_constants() {
    assert_eq!(TTY_REFRESH_MILLIS, 100);
    assert_eq!(PLAIN_REFRESH_MILLIS, 1000);
}

#[test]
fn default_follows_the_error_stream() {
    let options = Options::default();
    assert!(options.initially_visible);
    let expected = Options::for_terminal(options.enable_ansi_escapes);
    assert_eq!(options.refresh_period, expected.refresh_period);
    if options.enable_ansi_escapes {
        assert_eq!(options.refresh_period, Duration::from_millis(100));
    } else {
        assert_eq!(options.refresh_period, Duration::from_millis(1000));
    }
}

#[test]
fn options_can_be_copied_and_set_by_field() {
    let options = Options {
        refresh_period: Duration::from_millis(250),
        initially_visible: false,
        enable_ansi_escapes: true,
    };
    let copy = options;
    assert_eq!(copy.refresh_period, Duration::from_millis(250));
    assert!(!copy.initially_visible);
    assert!(options.enable_ansi_escapes);
}
