use clap_link::config::{set_verbosity, verbosity, Config};

#[test]
fn verbosity_starts_at_zero() {
    let config = Config::new();
    assert_eq!(verbosity(&config), 0);
}

#[test]
fn set_verbosity_is_read_back() {
    let mut config = Config::new();
    set_verbosity(&mut config, 3);
    assert_eq!(verbosity(&config), 3);
    set_verbosity(&mut config, 0);
    assert_eq!(verbosity(&config), 0);
}
