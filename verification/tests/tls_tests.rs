use opengrok_mcp::domain::DomainError;
use opengrok_mcp::tls::{
    add_certs, cert_extension, dir_read_failure, load_cert_file, parse_certs_from_pem, CertDirScan,
    CertFileOutcome, TlsConfig,
};

const DUMMY_CERT_PEM: &str = r#"-----BEGIN CERTIFICATE-----
MIIBdDCCARmgAwIBAgIUVdMyxE4VaDp+Gk0it+ca0t69OrcwCgYIKoZIzj0EAwIw
DzENMAsGA1UEAwwEdGVzdDAeFw0yNjA3MjIxMzIxMjVaFw0yNzA3MjIxMzIxMjVa
MA8xDTALBgNVBAMMBHRlc3QwWTATBgcqhkjOPQIBBggqhkjOPQMBBwNCAAQdurfb
NqLB1c3WkI6I+sdzXAZWHvA1UjEr2CTLcu510b8lhSePq/ZVf95703yY06yuuUCw
N+cYfZFAH06jlkzao1MwUTAdBgNVHQ4EFgQUflbe+wj/hfPFS5esLc0j5woy/mgw
HwYDVR0jBBgwFoAUflbe+wj/hfPFS5esLc0j5woy/mgwDwYDVR0TAQH/BAUwAwEB
/zAKBggqhkjOPQQDAgNJADBGAiEAsgNmn/V1efByLJT4TuehTw7B9zNZqcpaF7cK
ygtwQ8YCIQDqH4ieElAqCu1kA/AYhcV6XA1rSCU0vvIommVf+zcjxQ==
-----END CERTIFICATE-----"#;

#[test]
fn parse_certs_from_pem_parses_valid_cert() {
    let certs = parse_certs_from_pem(DUMMY_CERT_PEM.as_bytes()).unwrap();
    assert_eq!(certs.len(), 1);
}

#[test]
fn parse_certs_from_pem_rejects_garbage() {
    let certs = parse_certs_from_pem(b"not a pem").unwrap();
    assert!(certs.is_empty());
}

#[test]
fn tls_config_default_verifies() {
    let c = TlsConfig::default();
    assert!(c.verify_ssl);
    assert!(c.ca_cert.is_none());
    assert!(c.ca_cert_dir.is_none());
}

#[test]
fn load_cert_file_loads_valid_pem() {
    let mut roots = rustls::RootCertStore::empty();
    let result = load_cert_file(&mut roots, "ca.crt", Ok(DUMMY_CERT_PEM.as_bytes().to_vec()));
    assert!(result.is_ok(), "expected Ok, got: {result:?}");
    assert_eq!(roots.len(), 1);
}

#[test]
fn load_cert_file_errors_on_missing_file() {
    let mut roots = rustls::RootCertStore::empty();
    let result = load_cert_file(&mut roots, "/nonexistent/cert.pem", Err("No such file or directory (os error 2)".into()));
    let err = result.unwrap_err();
    assert!(matches!(err, DomainError::Tls(_)));
    assert!(err.to_string().contains("failed to read"));
}

#[test]
fn load_cert_file_errors_on_invalid_pem() {
    let mut roots = rustls::RootCertStore::empty();
    let result = load_cert_file(&mut roots, "bad.pem", Ok(b"not a valid PEM certificate".to_vec()));
    assert_eq!(
        result,
        Err(DomainError::Tls("no valid CA certificates found in 'bad.pem'".into()))
    );
}

#[test]
fn cert_dir_scan_counts_files_and_certificates() {
    let mut roots = rustls::RootCertStore::empty();
    let mut scan = CertDirScan::new();
    assert!(cert_extension("crt"));
    assert!(cert_extension("PEM"));
    assert!(!cert_extension("txt"));
    scan.add_file(&mut roots, Ok(DUMMY_CERT_PEM.as_bytes().to_vec()));
    scan.add_file(&mut roots, Err("unreadable".into()));
    assert_eq!(scan.files, 2);
    assert_eq!(scan.added, 1);
    assert_eq!(scan.finish("/certs"), Ok(()));
}

#[test]
fn cert_dir_without_certificates_is_an_error_only_if_files_were_found() {
    let mut roots = rustls::RootCertStore::empty();
    let empty = CertDirScan::new();
    assert_eq!(empty.finish("/d"), Ok(()));
    let mut scan = CertDirScan::new();
    scan.add_file(&mut roots, Ok(b"not a cert".to_vec()));
    assert_eq!(
        scan.finish("/d"),
        Err(DomainError::Tls("no valid CA certificates found in directory '/d' (1 files checked)".into()))
    );
}

#[test]
fn directory_errors_name_the_directory() {
    assert_eq!(
        dir_read_failure("/nonexistent/dir", "gone"),
        DomainError::Tls("failed to read CA cert directory '/nonexistent/dir': gone".into())
    );
}

#[test]
fn add_certs_skips_unparsable_der() {
    let mut roots = rustls::RootCertStore::empty();
    let good = parse_certs_from_pem(DUMMY_CERT_PEM.as_bytes()).unwrap();
    let mut certs = good.clone();
    certs.push(vec![1, 2, 3]);
    assert_eq!(add_certs(&mut roots, certs), 1);
    assert_eq!(roots.len(), 1);
}

/// The directory scan as the server runs it, over (file name, contents)
/// pairs standing for the directory's entries.
fn scan_dir(dir: &str, files: &[(&str, &str)]) -> Result<(), DomainError> {
    let mut roots = rustls::RootCertStore::empty();
    let mut scan = CertDirScan::new();
    for (name, contents) in files {
        let ext = std::path::Path::new(name).extension().and_then(|e| e.to_str()).unwrap_or("");
        if !cert_extension(ext) {
            continue;
        }
        scan.add_file(&mut roots, Ok(contents.as_bytes().to_vec()));
    }
    scan.finish(dir)
}

#[test]
fn load_cert_dir_loads_valid_files() {
    let result = scan_dir(
        "/tmp/certs",
        &[("one.crt", DUMMY_CERT_PEM), ("two.pem", DUMMY_CERT_PEM), ("readme.txt", "not a cert")],
    );
    assert!(result.is_ok());
}

#[test]
fn load_cert_dir_errors_on_empty_dir() {
    let result = scan_dir("/tmp/certs", &[("readme.txt", "not a cert")]);
    assert!(result.is_ok());
}

#[test]
fn load_cert_dir_errors_on_missing_dir() {
    let err = dir_read_failure("/nonexistent/dir", "No such file or directory (os error 2)");
    assert!(matches!(err, DomainError::Tls(_)));
}

#[test]
fn cert_dir_scan_says_what_became_of_each_file() {
    let mut roots = rustls::RootCertStore::empty();
    let mut scan = CertDirScan::new();
    assert_eq!(scan.add_file(&mut roots, Ok(DUMMY_CERT_PEM.as_bytes().to_vec())), CertFileOutcome::Added(1));
    assert_eq!(roots.len(), 1);
    assert_eq!(scan.add_file(&mut roots, Err("denied".into())), CertFileOutcome::Unreadable);
    assert_eq!(scan.add_file(&mut roots, Ok(b"not a cert".to_vec())), CertFileOutcome::Added(0));
    let broken = b"-----BEGIN CERTIFICATE-----\n!!!!\n-----END CERTIFICATE-----\n".to_vec();
    assert_eq!(scan.add_file(&mut roots, Ok(broken)), CertFileOutcome::Unparsable);
    assert_eq!(roots.len(), 1);
    assert_eq!(scan.files, 4);
    assert_eq!(scan.added, 1);
}

#[test]
fn added_anchor_is_the_certificates_subject() {
    let mut roots = rustls::RootCertStore::empty();
    let ders = parse_certs_from_pem(DUMMY_CERT_PEM.as_bytes()).unwrap();
    assert_eq!(add_certs(&mut roots, ders.clone()), 1);
    let subjects = roots.subjects();
    assert_eq!(subjects.len(), 1);
    // The subject of the test certificate is `CN=test`.
    assert!(subjects[0].as_ref().windows(4).any(|w| w == b"test"));
}
