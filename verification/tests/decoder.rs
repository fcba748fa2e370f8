use rv_extension::decoder::DecodeError;
use rv_extension::decoder::decode;
use rv_extension::domain::DomainString;
use rv_extension::domain::is_domain;

fn bytes(s: &str) -> Vec<u8> {
    s.as_bytes().to_vec()
}

#[test]
fn decodes_all_valid_entries_in_order() {
    let args = vec![bytes("alpha"), bytes("beta"), bytes("gamma")];
    let out = decode(&args).unwrap();
    assert_eq!(out.len(), 3);
    assert_eq!(out[0].as_bytes(), &bytes("alpha"));
    assert_eq!(out[1].as_bytes(), &bytes("beta"));
    assert_eq!(out[2].as_bytes(), &bytes("gamma"));
}

#[test]
fn decodes_empty_list() {
    let args: Vec<Vec<u8>> = Vec::new();
    let out = decode(&args).unwrap();
    assert_eq!(out.len(), 0);
}

#[test]
fn one_bad_entry_fails_the_whole_list() {
    let args = vec![bytes("alpha"), vec![104u8, 200u8], bytes("gamma")];
    let r = decode(&args);
    assert_eq!(r.unwrap_err(), DecodeError { index: 1 });
}

#[test]
fn reports_the_first_bad_entry() {
    let args = vec![vec![200u8], vec![201u8]];
    let r = decode(&args);
    assert_eq!(r.unwrap_err(), DecodeError { index: 0 });
}

#[test]
fn terminator_inside_an_entry_fails() {
    let args = vec![bytes("ok"), vec![104u8, 0u8, 105u8]];
    let r = decode(&args);
    assert_eq!(r.unwrap_err(), DecodeError { index: 1 });
}

#[test]
fn domain_string_accepts_ascii() {
    let d = DomainString::new(bytes("plain ascii")).unwrap();
    assert_eq!(d.as_bytes(), &bytes("plain ascii"));
    assert_eq!(d.len(), 11);
}

#[test]
fn domain_string_rejects_non_ascii_and_terminator() {
    assert!(DomainString::new(vec![128u8]).is_none());
    assert!(DomainString::new(vec![0u8]).is_none());
}

#[test]
fn is_domain_checks_every_byte() {
    assert!(is_domain(&bytes("abc")));
    assert!(is_domain(&bytes("")));
    assert!(!is_domain(&vec![97u8, 98u8, 255u8]));
    assert!(!is_domain(&vec![97u8, 0u8]));
}
