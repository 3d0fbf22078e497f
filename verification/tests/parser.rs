use vault::command_parser::{parse_arg, parse_command, parse_key_args, CommandParams};
use vault::errors::VaultError;

fn expect_invalid_arguments(r: Result<(), VaultError>, message: &str) {
    match r {
        Err(VaultError::InvalidArguments(m)) => assert_eq!(m, message),
        _ => panic!("expected the arguments to be rejected with: {}", message),
    }
}

#[test]
fn new_params_are_empty() {
    let p = CommandParams::new();
    assert_eq!(p.command, "");
    assert_eq!(p.in_file_name, "");
    assert_eq!(p.out_file_name, "");
    assert_eq!(p.key_file_name, "");
    assert_eq!(p.key_passphrase, "");
    assert!(!p.use_key_passphrase);
}

#[test]
fn parse_arg_appends_a_present_value() {
    let mut slot = String::new();
    let r = parse_arg("in", &mut slot, &Some("plain.txt"));
    assert!(r.is_ok());
    assert_eq!(slot, "plain.txt");
}

#[test]
fn parse_arg_names_a_missing_value() {
    let mut slot = String::new();
    let r = parse_arg("out", &mut slot, &None);
    expect_invalid_arguments(r, "Missing parameter - out");
    assert_eq!(slot, "");
}

#[test]
fn parse_key_args_takes_a_key_file() {
    let mut p = CommandParams::new();
    let r = parse_key_args(&mut p, &Some("key.bin"), &None);
    assert!(r.is_ok());
    assert_eq!(p.key_file_name, "key.bin");
    assert!(!p.use_key_passphrase);
}

#[test]
fn parse_key_args_takes_a_passphrase() {
    let mut p = CommandParams::new();
    let r = parse_key_args(&mut p, &None, &Some("open sesame"));
    assert!(r.is_ok());
    assert_eq!(p.key_passphrase, "open sesame");
    assert!(p.use_key_passphrase);
}

#[test]
fn parse_key_args_rejects_both_sources() {
    let mut p = CommandParams::new();
    let r = parse_key_args(&mut p, &Some("key.bin"), &Some("open sesame"));
    expect_invalid_arguments(
        r,
        "You cannot specify both a key file and a passphrase. Please pick one or the other.",
    );
}

#[test]
fn parse_key_args_rejects_no_source() {
    let mut p = CommandParams::new();
    let r = parse_key_args(&mut p, &None, &None);
    expect_invalid_arguments(r, "You must specify either a key file or a key passphrase.");
}

#[test]
fn parse_command_encrypt_with_key_file() {
    let mut p = CommandParams::new();
    let r = parse_command(
        &mut p,
        &Some("encrypt".to_string()),
        &Some("plain.txt"),
        &Some("secret.bin"),
        &Some("key.bin"),
        &None,
    );
    assert!(r.is_ok());
    assert_eq!(p.command, "encrypt");
    assert_eq!(p.in_file_name, "plain.txt");
    assert_eq!(p.out_file_name, "secret.bin");
    assert_eq!(p.key_file_name, "key.bin");
    assert!(!p.use_key_passphrase);
}

#[test]
fn parse_command_decrypt_with_passphrase() {
    let mut p = CommandParams::new();
    let r = parse_command(
        &mut p,
        &Some("decrypt".to_string()),
        &Some("secret.bin"),
        &Some("plain.txt"),
        &None,
        &Some("open sesame"),
    );
    assert!(r.is_ok());
    assert_eq!(p.command, "decrypt");
    assert_eq!(p.key_passphrase, "open sesame");
    assert!(p.use_key_passphrase);
}

#[test]
fn parse_command_genkey() {
    let mut p = CommandParams::new();
    let r = parse_command(
        &mut p,
        &Some("genkey".to_string()),
        &None,
        &None,
        &Some("key.bin"),
        &None,
    );
    assert!(r.is_ok());
    assert_eq!(p.command, "genkey");
    assert_eq!(p.key_file_name, "key.bin");
    assert!(!p.use_key_passphrase);
}

#[test]
fn parse_command_genkey_with_passphrase() {
    let mut p = CommandParams::new();
    let r = parse_command(
        &mut p,
        &Some("genkey".to_string()),
        &None,
        &None,
        &Some("key.bin"),
        &Some("open sesame"),
    );
    assert!(r.is_ok());
    assert_eq!(p.key_file_name, "key.bin");
    assert_eq!(p.key_passphrase, "open sesame");
    assert!(p.use_key_passphrase);
}

#[test]
fn parse_command_requires_a_command() {
    let mut p = CommandParams::new();
    let r = parse_command(&mut p, &None, &None, &None, &None, &None);
    expect_invalid_arguments(r, "No command specified.");
    assert_eq!(p.command, "");
}

#[test]
fn parse_command_rejects_an_unknown_command() {
    let mut p = CommandParams::new();
    let r = parse_command(
        &mut p,
        &Some("compress".to_string()),
        &Some("a"),
        &Some("b"),
        &Some("k"),
        &None,
    );
    expect_invalid_arguments(r, "Invalid command - compress");
}

#[test]
fn parse_command_encrypt_missing_in() {
    let mut p = CommandParams::new();
    let r = parse_command(
        &mut p,
        &Some("encrypt".to_string()),
        &None,
        &Some("secret.bin"),
        &Some("key.bin"),
        &None,
    );
    expect_invalid_arguments(r, "Missing parameter - in");
}

#[test]
fn parse_command_encrypt_missing_out() {
    let mut p = CommandParams::new();
    let r = parse_command(
        &mut p,
        &Some("encrypt".to_string()),
        &Some("plain.txt"),
        &None,
        &Some("key.bin"),
        &None,
    );
    expect_invalid_arguments(r, "Missing parameter - out");
}

#[test]
fn parse_command_genkey_missing_key() {
    let mut p = CommandParams::new();
    let r = parse_command(&mut p, &Some("genkey".to_string()), &None, &None, &None, &None);
    expect_invalid_arguments(r, "Missing parameter - key");
}

#[test]
fn parse_command_decrypt_rejects_both_sources() {
    let mut p = CommandParams::new();
    let r = parse_command(
        &mut p,
        &Some("decrypt".to_string()),
        &Some("secret.bin"),
        &Some("plain.txt"),
        &Some("key.bin"),
        &Some("open sesame"),
    );
    expect_invalid_arguments(
        r,
        "You cannot specify both a key file and a passphrase. Please pick one or the other.",
    );
}
