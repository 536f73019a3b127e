use ars_proxy::conf::{get_cli_params, to_https_warning, Conf};

fn args(list: &[&str]) -> Vec<String> {
    list.iter().map(|s| s.to_string()).collect()
}

fn error_of(list: &[&str]) -> String {
    match get_cli_params(&args(list)) {
        Ok(conf) => panic!("accepted: {:?}", conf),
        Err(message) => message,
    }
}

fn conf_of(list: &[&str]) -> Conf {
    match get_cli_params(&args(list)) {
        Ok(conf) => conf,
        Err(message) => panic!("refused: {}", message),
    }
}

#[test]
fn mandatory_arguments_alone() {
    let conf = conf_of(&["ars-proxy", "8080", "example.internal", "9090"]);
    assert_eq!(conf.local_port, 8080);
    assert_eq!(conf.remote_url, "example.internal");
    assert_eq!(conf.remote_port, 9090);
    assert_eq!(conf.https_crt, None);
    assert_eq!(conf.https_crt_pass_file, None);
    assert!(!conf.to_https);
}

#[test]
fn every_option() {
    let conf = conf_of(&[
        "ars-proxy",
        "443",
        "10.0.0.7",
        "8443",
        "--cert",
        "/etc/proxy/id.p12",
        "--pass-file",
        "/etc/proxy/pass",
        "--to-https",
    ]);
    assert_eq!(conf.local_port, 443);
    assert_eq!(conf.remote_url, "10.0.0.7");
    assert_eq!(conf.remote_port, 8443);
    assert_eq!(conf.https_crt, Some("/etc/proxy/id.p12".to_string()));
    assert_eq!(conf.https_crt_pass_file, Some("/etc/proxy/pass".to_string()));
    assert!(conf.to_https);
}

#[test]
fn options_in_any_order() {
    let conf = conf_of(&["p", "1", "h", "2", "--to-https", "--pass-file", "b", "--cert", "a"]);
    assert_eq!(conf.https_crt, Some("a".to_string()));
    assert_eq!(conf.https_crt_pass_file, Some("b".to_string()));
    assert!(conf.to_https);
}

#[test]
fn certificate_without_passphrase_file() {
    let conf = conf_of(&["p", "1", "h", "2", "--cert", "a"]);
    assert_eq!(conf.https_crt, Some("a".to_string()));
    assert_eq!(conf.https_crt_pass_file, None);
    assert!(!conf.to_https);
}

#[test]
fn later_option_overrides_earlier() {
    let conf = conf_of(&["p", "1", "h", "2", "--cert", "a", "--cert", "b", "--to-https", "--to-https"]);
    assert_eq!(conf.https_crt, Some("b".to_string()));
    assert!(conf.to_https);
}

#[test]
fn option_value_may_look_like_an_option() {
    let conf = conf_of(&["p", "1", "h", "2", "--cert", "--to-https"]);
    assert_eq!(conf.https_crt, Some("--to-https".to_string()));
    assert!(!conf.to_https);
}

#[test]
fn port_limits() {
    let conf = conf_of(&["p", "0", "h", "65535"]);
    assert_eq!(conf.local_port, 0);
    assert_eq!(conf.remote_port, 65535);
    let conf = conf_of(&["p", "+80", "h", "00443"]);
    assert_eq!(conf.local_port, 80);
    assert_eq!(conf.remote_port, 443);
}

#[test]
fn too_few_arguments() {
    assert_eq!(error_of(&[]), "Missing mandatory parameters");
    assert_eq!(error_of(&["p"]), "Missing mandatory parameters");
    assert_eq!(error_of(&["p", "1", "h"]), "Missing mandatory parameters");
    assert_eq!(error_of(&["p", "x", "h"]), "Missing mandatory parameters");
}

#[test]
fn bad_local_port() {
    assert_eq!(error_of(&["p", "x", "h", "2"]), "Error while parsing local_port argument");
    assert_eq!(error_of(&["p", "65536", "h", "2"]), "Error while parsing local_port argument");
    assert_eq!(error_of(&["p", "-1", "h", "2"]), "Error while parsing local_port argument");
    assert_eq!(error_of(&["p", "", "h", "2"]), "Error while parsing local_port argument");
    assert_eq!(error_of(&["p", "x", "h", "y"]), "Error while parsing local_port argument");
}

#[test]
fn bad_remote_port() {
    assert_eq!(error_of(&["p", "1", "h", "y"]), "Error while parsing remote_port argument");
    assert_eq!(error_of(&["p", "1", "h", "99999"]), "Error while parsing remote_port argument");
    assert_eq!(error_of(&["p", "1", "h", "80 "]), "Error while parsing remote_port argument");
    assert_eq!(error_of(&["p", "1", "h", "y", "--bogus"]), "Error while parsing remote_port argument");
}

#[test]
fn option_without_value() {
    assert_eq!(error_of(&["p", "1", "h", "2", "--cert"]), "Missing value for parameter --cert");
    assert_eq!(
        error_of(&["p", "1", "h", "2", "--cert", "a", "--pass-file"]),
        "Missing value for parameter --pass-file"
    );
    assert_eq!(
        error_of(&["p", "1", "h", "2", "--to-https", "--cert"]),
        "Missing value for parameter --cert"
    );
}

#[test]
fn unknown_option() {
    assert_eq!(error_of(&["p", "1", "h", "2", "--bogus"]), "\nInvalid parameter: --bogus");
    assert_eq!(error_of(&["p", "1", "h", "2", "extra"]), "\nInvalid parameter: extra");
    assert_eq!(error_of(&["p", "1", "h", "2", "--CERT", "a"]), "\nInvalid parameter: --CERT");
    assert_eq!(error_of(&["p", "1", "h", "2", ""]), "\nInvalid parameter: ");
    assert_eq!(
        error_of(&["p", "1", "h", "2", "--to-https", "--cert", "a", "b"]),
        "\nInvalid parameter: b"
    );
}

#[test]
fn first_error_from_the_left_wins() {
    assert_eq!(
        error_of(&["p", "1", "h", "2", "--bogus", "--cert"]),
        "\nInvalid parameter: --bogus"
    );
    assert_eq!(
        error_of(&["p", "1", "h", "2", "--pass-file", "b", "--bogus"]),
        "\nInvalid parameter: --bogus"
    );
}

#[test]
fn passphrase_file_needs_a_certificate() {
    assert_eq!(
        error_of(&["p", "1", "h", "2", "--pass-file", "b"]),
        "Parameter --pass-file requires --cert"
    );
    assert_eq!(
        error_of(&["p", "1", "h", "2", "--to-https", "--pass-file", "b"]),
        "Parameter --pass-file requires --cert"
    );
}

#[test]
fn redundant_to_https_is_warned_of() {
    assert_eq!(
        to_https_warning(&conf_of(&["p", "1", "h", "2", "--cert", "a", "--to-https"])),
        Some("\nWarning: --to-https parameter is useless when the server is listening on https")
    );
    assert_eq!(to_https_warning(&conf_of(&["p", "1", "h", "2", "--to-https"])), None);
    assert_eq!(to_https_warning(&conf_of(&["p", "1", "h", "2", "--cert", "a"])), None);
    assert_eq!(to_https_warning(&conf_of(&["p", "1", "h", "2"])), None);
}

#[test]
fn clone_keeps_every_field() {
    let conf = conf_of(&["p", "7", "h", "9", "--cert", "a", "--pass-file", "b", "--to-https"]);
    let copy = conf.clone();
    assert_eq!(copy.local_port, 7);
    assert_eq!(copy.remote_url, "h");
    assert_eq!(copy.remote_port, 9);
    assert_eq!(copy.https_crt, Some("a".to_string()));
    assert_eq!(copy.https_crt_pass_file, Some("b".to_string()));
    assert!(copy.to_https);
}
