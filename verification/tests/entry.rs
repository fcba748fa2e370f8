use rv_extension::entry::extension;
use rv_extension::entry::extension_args;
use rv_extension::entry::version;

fn bytes(s: &str) -> Vec<u8> {
    s.as_bytes().to_vec()
}

#[test]
fn version_writes_the_identification_string() {
    let mut buf = vec![9u8; 32];
    let r = version(&mut buf, 32);
    assert_eq!(r, Some(21));
    assert_eq!(&buf[..21], b"Test Extension v.1.00");
    assert_eq!(buf[21], 0);
    assert_eq!(&buf[22..], &[9u8; 10]);
}

#[test]
fn version_truncates_into_a_small_buffer() {
    let mut buf = vec![9u8; 5];
    let r = version(&mut buf, 5);
    assert_eq!(r, Some(4));
    assert_eq!(&buf[..4], b"Test");
    assert_eq!(buf[4], 0);
}

#[test]
fn version_refuses_a_zero_capacity() {
    let mut buf = vec![9u8; 4];
    let r = version(&mut buf, 0);
    assert_eq!(r, None);
    assert_eq!(buf, vec![9u8; 4]);
}

#[test]
fn extension_echoes_the_request() {
    let mut buf = vec![9u8; 16];
    let r = extension(&bytes("ping"), &mut buf, 16);
    assert_eq!(r, Some(4));
    assert_eq!(&buf[..4], b"ping");
    assert_eq!(buf[4], 0);
}

#[test]
fn extension_refuses_an_invalid_request_without_writing() {
    let mut buf = vec![9u8; 16];
    let r = extension(&vec![112u8, 200u8], &mut buf, 16);
    assert_eq!(r, None);
    assert_eq!(buf, vec![9u8; 16]);
}

#[test]
fn extension_args_writes_the_stub_response() {
    let mut buf = vec![9u8; 32];
    let args = vec![bytes("one"), bytes("two")];
    let r = extension_args(&bytes("myFunction"), &args, &mut buf, 32);
    assert_eq!(r, Some(13));
    assert_eq!(&buf[..13], b"Test Response");
    assert_eq!(buf[13], 0);
}

#[test]
fn extension_args_accepts_an_empty_argument_list() {
    let mut buf = vec![9u8; 32];
    let args: Vec<Vec<u8>> = Vec::new();
    let r = extension_args(&bytes("myFunction"), &args, &mut buf, 32);
    assert_eq!(r, Some(13));
    assert_eq!(&buf[..13], b"Test Response");
}

#[test]
fn extension_args_writes_nothing_on_a_bad_argument() {
    let mut buf = vec![9u8; 32];
    let args = vec![bytes("one"), vec![200u8]];
    let r = extension_args(&bytes("myFunction"), &args, &mut buf, 32);
    assert_eq!(r, None);
    assert_eq!(buf, vec![9u8; 32]);
}

#[test]
fn extension_args_writes_nothing_on_a_bad_function_name() {
    let mut buf = vec![9u8; 32];
    let args = vec![bytes("one")];
    let r = extension_args(&vec![200u8], &args, &mut buf, 32);
    assert_eq!(r, None);
    assert_eq!(buf, vec![9u8; 32]);
}

#[test]
fn extension_args_refuses_a_zero_capacity() {
    let mut buf = vec![9u8; 8];
    let args = vec![bytes("one")];
    let r = extension_args(&bytes("myFunction"), &args, &mut buf, 0);
    assert_eq!(r, None);
    assert_eq!(buf, vec![9u8; 8]);
}
