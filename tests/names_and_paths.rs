use snpguest::attestation::{select_mode, Args as AttestationArgs, Mode};
use snpguest::cert_type::{classify_common_name, parse_common_name, CertType, CertTypeError};
use snpguest::certificate_chain::Args as ChainArgs;
use snpguest::locate::{find_cert_in_dir, find_vek, resolve_chain_paths, VekFamily};
use snpguest::report::ProcType;
use snpguest::verify::{cmd, Task, VerifyCmd};

fn entries(names: &[&str]) -> Vec<String> {
    names.iter().map(|s| s.to_string()).collect()
}

#[test]
fn common_names_map_to_roles() {
    assert_eq!(classify_common_name("ark-milan"), Ok(CertType::ARK));
    assert_eq!(classify_common_name("ask-genoa"), Ok(CertType::ASK));
    assert_eq!(classify_common_name("sev-milan"), Ok(CertType::ASK));
    assert_eq!(classify_common_name("vcek"), Ok(CertType::VCEK));
    assert_eq!(classify_common_name("vlek"), Ok(CertType::VLEK));
    assert_eq!(classify_common_name("some crl"), Ok(CertType::CRL));
    assert_eq!(classify_common_name("unknown"), Err(CertTypeError::Unknown));
    assert_eq!(classify_common_name(""), Err(CertTypeError::Unknown));
}

#[test]
fn most_specific_role_wins() {
    // "ark" is tried first, then the endorsement keys, then "ask" or "sev"
    assert_eq!(classify_common_name("ask-ark"), Ok(CertType::ARK));
    assert_eq!(classify_common_name("sev-vcek"), Ok(CertType::VCEK));
    assert_eq!(classify_common_name("sev-vlek"), Ok(CertType::VLEK));
    assert_eq!(classify_common_name("sev-crl"), Ok(CertType::ASK));
    assert_eq!(parse_common_name(&Some("SEV-VCEK".to_string())), Ok(CertType::VCEK));
    assert_eq!(parse_common_name(&Some("SEV-VLEK".to_string())), Ok(CertType::VLEK));
}

#[test]
fn common_name_is_compared_without_case() {
    assert_eq!(parse_common_name(&Some("ARK-Milan".to_string())), Ok(CertType::ARK));
    assert_eq!(parse_common_name(&Some("VCEK".to_string())), Ok(CertType::VCEK));
    assert_eq!(parse_common_name(&Some("Nothing".to_string())), Err(CertTypeError::Unknown));
    assert_eq!(parse_common_name(&None), Err(CertTypeError::MissingCommonName));
}

#[test]
fn pem_preferred_to_der() {
    let dir = entries(&["ark.der", "ark.pem", "ask.der"]);
    assert_eq!(find_cert_in_dir(&dir, "ark").unwrap(), "ark.pem");
    assert_eq!(find_cert_in_dir(&dir, "ask").unwrap(), "ask.der");
    assert_eq!(find_cert_in_dir(&dir, "vcek").unwrap_err().cert, "vcek");
}

#[test]
fn vcek_chain_resolved() {
    let dir = entries(&["ark.pem", "ask.pem", "vcek.der"]);
    let p = resolve_chain_paths(&dir).unwrap();
    assert_eq!(p.ark, "ark.pem");
    assert_eq!(p.signer, "ask.pem");
    assert_eq!(p.vek, "vcek.der");
    assert_eq!(p.family, VekFamily::Vcek);
}

#[test]
fn vlek_preferred_to_vcek() {
    let dir = entries(&["ark.pem", "ask.pem", "asvk.pem", "vcek.pem", "vlek.pem"]);
    let p = resolve_chain_paths(&dir).unwrap();
    assert_eq!(p.signer, "asvk.pem");
    assert_eq!(p.vek, "vlek.pem");
    assert_eq!(p.family, VekFamily::Vlek);
    assert_eq!(find_vek(&dir).unwrap(), ("vlek.pem".to_string(), VekFamily::Vlek));
}

#[test]
fn missing_certificates_named() {
    assert_eq!(resolve_chain_paths(&entries(&["ask.pem", "vcek.pem"])).unwrap_err().cert, "ark");
    assert_eq!(
        resolve_chain_paths(&entries(&["ark.pem", "ask.pem", "vlek.pem"])).unwrap_err().cert,
        "asvk"
    );
    assert_eq!(resolve_chain_paths(&entries(&["ark.pem", "ask.pem"])).unwrap_err().cert, "vcek");
    assert_eq!(resolve_chain_paths(&entries(&["ark.pem", "vcek.pem"])).unwrap_err().cert, "ask");
    assert_eq!(find_vek(&entries(&["ark.pem"])).unwrap_err().cert, "vcek");
}

#[test]
fn flags_select_checks() {
    assert_eq!(select_mode(false, false), Mode::Both);
    assert_eq!(select_mode(true, false), Mode::TcbOnly);
    assert_eq!(select_mode(false, true), Mode::SignatureOnly);
    assert_eq!(select_mode(true, true), Mode::Both);
}

#[test]
fn commands_become_tasks() {
    match cmd(VerifyCmd::Certs(ChainArgs { certs_dir: "certs".to_string() })) {
        Task::Chain { certs_dir } => assert_eq!(certs_dir, "certs"),
        other => panic!("unexpected {:?}", other),
    }
    let args = AttestationArgs {
        certs_dir: "certs".to_string(),
        att_report_path: "report.bin".to_string(),
        processor_model: Some(ProcType::Genoa),
        tcb: false,
        signature: true,
    };
    match cmd(VerifyCmd::Attestation(args)) {
        Task::Attestation { certs_dir, att_report_path, processor_model, mode } => {
            assert_eq!(certs_dir, "certs");
            assert_eq!(att_report_path, "report.bin");
            assert_eq!(processor_model, Some(ProcType::Genoa));
            assert_eq!(mode, Mode::SignatureOnly);
        }
        other => panic!("unexpected {:?}", other),
    }
}
