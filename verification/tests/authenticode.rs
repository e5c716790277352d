use nono_cli::authenticode::{
    authenticode_status_from, check_hash_sizing, decode_utf16_lossy, check_subject_sizing, sanitize_for_terminal,
    signer_subject_from_buffer, thumbprint_from_buffer, AuthenticodeStatus, TRUST_E_NOSIGNATURE,
};
use nono_cli::error::NonoError;

#[test]
fn sanitize_strips_escape_sequences_and_controls() {
    assert_eq!(sanitize_for_terminal("CN=Acme, O=Acme Inc"), "CN=Acme, O=Acme Inc");
    assert_eq!(sanitize_for_terminal("a\u{1b}[31mred\u{1b}[0m"), "ared");
    assert_eq!(sanitize_for_terminal("x\u{1b}]0;title\u{7}y"), "xy");
    assert_eq!(sanitize_for_terminal("x\u{1b}]0;t\u{1b}\\y"), "xy");
    assert_eq!(sanitize_for_terminal("x\u{1b}Mz"), "xMz");
    assert_eq!(sanitize_for_terminal("a\u{1b}b"), "ab");
    assert_eq!(sanitize_for_terminal("CN=\u{1b}[31mEvil\u{1b}[0m Corp\n"), "CN=Evil Corp");
    assert_eq!(sanitize_for_terminal("tab\there\nnewline\u{7f}"), "tab\therenewline");
    assert_eq!(sanitize_for_terminal("end\u{1b}"), "end");
    assert_eq!(sanitize_for_terminal("open\u{1b}[12"), "open");
    assert_eq!(sanitize_for_terminal("é\u{85}ü"), "éü");
}

#[test]
fn verify_results_are_classified() {
    let subject = || Ok("CN=Acme".to_string());
    let thumb = || Ok("ABCD".to_string());
    assert_eq!(
        authenticode_status_from(0, subject, thumb).unwrap(),
        AuthenticodeStatus::Valid {
            signer_subject: "CN=Acme".to_string(),
            thumbprint: "ABCD".to_string()
        }
    );
    let unsigned = TRUST_E_NOSIGNATURE as i32;
    assert_eq!(
        authenticode_status_from(unsigned, || panic!("not walked"), || panic!("not walked")).unwrap(),
        AuthenticodeStatus::Unsigned
    );
    assert_eq!(
        authenticode_status_from(-5, || panic!("not walked"), || panic!("not walked")).unwrap(),
        AuthenticodeStatus::InvalidSignature { hresult: -5 }
    );
    let failing = || Err(NonoError::SandboxInit("walk failed".to_string()));
    assert!(authenticode_status_from(0, failing, thumb).is_err());
}

#[test]
fn chain_walk_checks() {
    match check_subject_sizing(1) {
        Err(NonoError::SandboxInit(m)) => assert_eq!(
            m,
            "authenticode chain-walk failed (REQ-AUDC-03 fail-closed): CertGetNameStringW(RDN_TYPE) sizing call returned 1 (no subject available)"
        ),
        other => panic!("unexpected {other:?}"),
    }
    assert!(check_subject_sizing(5).is_ok());
    let units: Vec<u16> = "CN=\u{1b}[1mX\0".encode_utf16().collect();
    assert_eq!(
        signer_subject_from_buffer(units.len() as u32, &units).unwrap(),
        "CN=X"
    );
    assert!(signer_subject_from_buffer(1, &units).is_err());
    match check_hash_sizing(1, 65) {
        Err(NonoError::SandboxInit(m)) => assert!(m.ends_with("sizing call failed (ok=1, cb_required=65)")),
        other => panic!("unexpected {other:?}"),
    }
    assert!(check_hash_sizing(1, 20).is_ok());
    assert_eq!(
        thumbprint_from_buffer(1, &[0x31, 0x9e, 0x50, 0x0a], 4).unwrap(),
        "319E500A"
    );
    assert!(thumbprint_from_buffer(0, &[1], 1).is_err());
}

#[test]
fn utf16_decoding_matches_std_lossy_decoding() {
    let cases: Vec<Vec<u16>> = vec![
        "CN=Acme".encode_utf16().collect(),
        "emoji \u{1F600} ok".encode_utf16().collect(),
        vec![0x0041, 0xD800, 0x0042],
        vec![0xDC00, 0xD83D, 0xDE00, 0xD83D],
        vec![],
    ];
    for units in cases {
        assert_eq!(decode_utf16_lossy(&units), String::from_utf16_lossy(&units));
    }
    assert_eq!(decode_utf16_lossy(&[0x0041, 0xD800, 0x0042]), "A\u{FFFD}B");
    assert_eq!(decode_utf16_lossy(&[0xD83D, 0xDE00]), "\u{1F600}");
}
