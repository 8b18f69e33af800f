use auto_scuttle::observer::{FALLBACK_MODULUS, FALLBACK_PREFIX, NO_SERVER_DETECTED};
use auto_scuttle::{fallback_server_id, get_current_server, ServerProbe};

#[test]
fn address_is_the_identifier() {
    let probe = ServerProbe::Address { server_ip: "20.213.146.107".to_string() };
    assert_eq!(get_current_server(probe), Ok("20.213.146.107".to_string()));
}

#[test]
fn single_character_address_is_an_identifier() {
    let probe = ServerProbe::Address { server_ip: "x".to_string() };
    assert_eq!(get_current_server(probe), Ok("x".to_string()));
}

#[test]
fn empty_address_means_no_server() {
    let probe = ServerProbe::Address { server_ip: String::new() };
    assert_eq!(get_current_server(probe), Err("No server detected".to_string()));
}

#[test]
fn without_api_the_identifier_comes_from_the_clock() {
    let probe = ServerProbe::NoApi { unix_secs: 1_234_567 };
    assert_eq!(get_current_server(probe), Ok("server-567".to_string()));
}

#[test]
fn fallback_identifier_has_no_leading_zeros() {
    assert_eq!(fallback_server_id(0), "server-0");
    assert_eq!(fallback_server_id(7), "server-7");
    assert_eq!(fallback_server_id(42), "server-42");
    assert_eq!(fallback_server_id(999), "server-999");
    assert_eq!(fallback_server_id(1000), "server-0");
    assert_eq!(fallback_server_id(1005), "server-5");
    assert_eq!(fallback_server_id(1_700_000_090), "server-90");
    assert_eq!(fallback_server_id(u64::MAX), "server-615");
}

#[test]
fn fallback_identifier_agrees_with_std_formatting() {
    for secs in 0..3000u64 {
        assert_eq!(fallback_server_id(secs), format!("server-{}", secs % 1000));
    }
}

#[test]
fn observer_constants() {
    assert_eq!(NO_SERVER_DETECTED, "No server detected");
    assert_eq!(FALLBACK_PREFIX, "server-");
    assert_eq!(FALLBACK_MODULUS, 1000);
}
