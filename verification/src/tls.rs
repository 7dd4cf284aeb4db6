//! TLS settings of the OpenGrok client and the decisions taken while the
//! trust store is assembled.

use vstd::prelude::*;

use rustls::pki_types::CertificateDer;
use rustls::RootCertStore;

use crate::domain::DomainError;
use crate::text::{chars_of, eq_ignore_ascii_case, eq_ignore_ascii_case_exec, push_decimal, push_str, decimal};

verus! {

/// TLS settings of the OpenGrok client.
#[derive(Debug, Clone, PartialEq, Eq)]
pub struct TlsConfig {
    /// Whether to verify the server's TLS certificate.
    pub verify_ssl: bool,
    /// Optional path to a custom CA certificate PEM file.
    pub ca_cert: Option<String>,
    /// Optional path to a directory of CA certificate files.
    pub ca_cert_dir: Option<String>,
}

impl Default for TlsConfig {
    /// Verification on, no custom CA file or directory.
    fn default() -> (r: Self)
        ensures
            r.verify_ssl,
            r.ca_cert is None,
            r.ca_cert_dir is None,
    {
        TlsConfig { verify_ssl: true, ca_cert: None, ca_cert_dir: None }
    }
}

// ---------------------------------------------------------------------------
// Which files hold certificates
// ---------------------------------------------------------------------------

/// A file extension that marks a certificate file: `crt` or `pem`, in any
/// case.
pub open spec fn is_cert_extension(ext: Seq<char>) -> bool {
    eq_ignore_ascii_case(ext, "crt"@) || eq_ignore_ascii_case(ext, "pem"@)
}

/// Whether a file with this extension is read as a certificate file.
pub fn cert_extension(ext: &str) -> (b: bool)
    ensures
        b == is_cert_extension(ext@),
{
    proof {
        reveal_strlit("crt");
        reveal_strlit("pem");
    }
    let e = chars_of(ext);
    eq_ignore_ascii_case_exec(&e, &chars_of("crt")) || eq_ignore_ascii_case_exec(&e, &chars_of("pem"))
}

// ---------------------------------------------------------------------------
// PEM parsing and the trust store
// ---------------------------------------------------------------------------

/// The certificates of a PEM text, as DER bytes, in order, or the message
/// of the first problem met while reading them (`rustls_pemfile::certs`,
/// up to the first error).
pub uninterp spec fn pem_certificates(pem: Seq<u8>) -> Result<Seq<Seq<u8>>, Seq<char>>;

/// The views of a list of DER certificates.
pub open spec fn ders_view(v: Seq<Vec<u8>>) -> Seq<Seq<u8>> {
    v.map_values(|d: Vec<u8>| d@)
}

/// Reads the certificates of a PEM text (`rustls_pemfile::certs` over the
/// bytes, collected up to the first error; each certificate as its DER
/// bytes, each error as its message).
/// Trusted: the result is the name `pem_certificates` of the bytes.
#[verifier::external_body]
fn read_pem_certs(pem: &[u8]) -> (r: Result<Vec<Vec<u8>>, String>)
    ensures
        pem_certificates(pem@) == match r {
            Ok(v) => Ok(ders_view(v@)),
            Err(e) => Err(e@),
        },
{
    let mut cursor = std::io::Cursor::new(pem);
    rustls_pemfile::certs(&mut cursor).map(|c| c.map(|d| d.to_vec()).map_err(|e| e.to_string())).collect()
}

/// The message of a PEM text that could not be read.
pub open spec fn pem_error_message(detail: Seq<char>) -> Seq<char> {
    "failed to parse PEM certificate: "@ + detail
}

/// The outcome of reading a PEM text: its certificates, or a `Tls` error
/// naming the problem.
pub fn pem_outcome(read: Result<Vec<Vec<u8>>, String>) -> (r: Result<Vec<Vec<u8>>, DomainError>)
    ensures
        match read {
            Ok(v) => r matches Ok(w) && w@ == v@,
            Err(e) => r matches Err(DomainError::Tls(m)) && m@ == pem_error_message(e@),
        },
{
    match read {
        Ok(v) => Ok(v),
        Err(e) => {
            let mut m = String::from_str("failed to parse PEM certificate: ");
            push_str(&mut m, e.as_str());
            proof { reveal_strlit("failed to parse PEM certificate: "); }
            Err(DomainError::Tls(m))
        },
    }
}

/// Parses the PEM-encoded certificates of a file's bytes into DER.
pub fn parse_certs_from_pem(bytes: &[u8]) -> (r: Result<Vec<Vec<u8>>, DomainError>)
    ensures
        match pem_certificates(bytes@) {
            Ok(ders) => r matches Ok(v) && ders_view(v@) == ders,
            Err(e) => r matches Err(DomainError::Tls(m)) && m@ == pem_error_message(e),
        },
{
    pem_outcome(read_pem_certs(bytes))
}

/// rustls's store of trusted root certificates (`rustls::RootCertStore`),
/// opaque here.
#[verifier::external_type_specification]
#[verifier::external_body]
pub struct ExRootCertStore(RootCertStore);

/// A trust anchor by its parts: subject, subject public key info, and
/// name constraints (each as DER bytes).
pub type AnchorView = (Seq<u8>, Seq<u8>, Option<Seq<u8>>);

/// The trust anchor webpki derives from a DER certificate
/// (`webpki::anchor_from_trusted_cert`), or `None` when it rejects the
/// certificate. A function of the bytes alone.
pub uninterp spec fn trust_anchor_of(der: Seq<u8>) -> Option<AnchorView>;

/// The trust anchors a store holds (`RootCertStore::roots`), in order.
pub uninterp spec fn store_anchors(store: RootCertStore) -> Seq<AnchorView>;

/// The anchors of the certificates that rustls accepts among `ders`, in
/// order.
pub open spec fn anchors_of(ders: Seq<Seq<u8>>) -> Seq<AnchorView> {
    ders.filter(|d: Seq<u8>| trust_anchor_of(d) is Some).map_values(|d: Seq<u8>| trust_anchor_of(d)->Some_0)
}

/// The number of certificates rustls accepts among `ders`.
pub open spec fn parsable_count(ders: Seq<Seq<u8>>) -> nat {
    ders.filter(|d: Seq<u8>| trust_anchor_of(d) is Some).len()
}

/// Adds the certificates that parse as trust anchors to the store
/// (`RootCertStore::add_parsable_certificates`).
/// Trusted: each certificate is turned into its anchor by
/// `anchor_from_trusted_cert` (named `trust_anchor_of`); the accepted ones
/// are pushed, in order, onto the store's anchors; the numbers accepted
/// and rejected are returned, and sum to the number given.
#[verifier::external_body]
fn add_parsable(roots: &mut RootCertStore, ders: Vec<Vec<u8>>) -> (r: (usize, usize))
    ensures
        r.0 == ders_view(ders@).filter(|d: Seq<u8>| trust_anchor_of(d) is Some).len(),
        r.0 + r.1 == ders@.len(),
        store_anchors(*final(roots)) == store_anchors(*old(roots)) + ders_view(ders@).filter(
            |d: Seq<u8>| trust_anchor_of(d) is Some,
        ).map_values(|d: Seq<u8>| trust_anchor_of(d)->Some_0),
{
    roots.add_parsable_certificates(ders.into_iter().map(CertificateDer::from))
}

/// Adds certificates to the store, returning the number successfully
/// added.
pub fn add_certs(roots: &mut RootCertStore, certs: Vec<Vec<u8>>) -> (added: usize)
    ensures
        added == parsable_count(ders_view(certs@)),
        added <= certs@.len(),
        store_anchors(*final(roots)) == store_anchors(*old(roots)) + anchors_of(ders_view(certs@)),
{
    let (added, _ignored) = add_parsable(roots, certs);
    added
}

// ---------------------------------------------------------------------------
// Loading a CA file or directory
// ---------------------------------------------------------------------------

/// The message of a CA file that could not be read.
pub open spec fn file_read_message(path: Seq<char>, cause: Seq<char>) -> Seq<char> {
    "failed to read CA cert file '"@ + path + "': "@ + cause
}

/// The message of a CA file without a usable certificate.
pub open spec fn no_certs_in_file_message(path: Seq<char>) -> Seq<char> {
    "no valid CA certificates found in '"@ + path + "'"@
}

/// Loads the CA file at `path`, whose reading gave `read` (its bytes or
/// the reason it could not be read): its certificates are added to the
/// store; a file that cannot be read or parsed, or that adds no
/// certificate, is an error.
pub fn load_cert_file(roots: &mut RootCertStore, path: &str, read: Result<Vec<u8>, String>) -> (r: Result<usize, DomainError>)
    ensures
        match read {
            Err(cause) => r matches Err(DomainError::Tls(m)) && m@ == file_read_message(path@, cause@)
                && *final(roots) == *old(roots),
            Ok(bytes) => match pem_certificates(bytes@) {
                Err(e) => r matches Err(DomainError::Tls(m)) && m@ == pem_error_message(e)
                    && *final(roots) == *old(roots),
                Ok(ders) => {
                    &&& store_anchors(*final(roots)) == store_anchors(*old(roots)) + anchors_of(ders)
                    &&& if parsable_count(ders) == 0 {
                        r matches Err(DomainError::Tls(m)) && m@ == no_certs_in_file_message(path@)
                    } else {
                        r == Ok::<usize, DomainError>(parsable_count(ders) as usize)
                    }
                },
            },
        },
{
    proof {
        reveal_strlit("failed to read CA cert file '");
        reveal_strlit("': ");
        reveal_strlit("no valid CA certificates found in '");
        reveal_strlit("'");
    }
    let bytes = match read {
        Err(cause) => {
            let mut m = String::from_str("failed to read CA cert file '");
            push_str(&mut m, path);
            push_str(&mut m, "': ");
            push_str(&mut m, cause.as_str());
            return Err(DomainError::Tls(m));
        },
        Ok(b) => b,
    };
    let certs = match parse_certs_from_pem(bytes.as_slice()) {
        Ok(c) => c,
        Err(e) => return Err(e),
    };
    let added = add_certs(roots, certs);
    if added == 0 {
        let mut m = String::from_str("no valid CA certificates found in '");
        push_str(&mut m, path);
        push_str(&mut m, "'");
        return Err(DomainError::Tls(m));
    }
    Ok(added)
}

/// The message of a CA directory that could not be listed.
pub open spec fn dir_read_message(dir: Seq<char>, cause: Seq<char>) -> Seq<char> {
    "failed to read CA cert directory '"@ + dir + "': "@ + cause
}

/// The message of a directory entry that could not be read.
pub open spec fn entry_read_message(cause: Seq<char>) -> Seq<char> {
    "failed to read directory entry: "@ + cause
}

/// The message of a CA directory whose certificate files add nothing.
pub open spec fn no_certs_in_dir_message(dir: Seq<char>, files: nat) -> Seq<char> {
    "no valid CA certificates found in directory '"@ + dir + "' ("@ + decimal(files) + " files checked)"@
}

/// The error of a CA directory that could not be listed.
pub fn dir_read_failure(dir: &str, cause: &str) -> (e: DomainError)
    ensures
        e matches DomainError::Tls(m) && m@ == dir_read_message(dir@, cause@),
{
    let mut m = String::from_str("failed to read CA cert directory '");
    push_str(&mut m, dir);
    push_str(&mut m, "': ");
    push_str(&mut m, cause);
    proof {
        reveal_strlit("failed to read CA cert directory '");
        reveal_strlit("': ");
    }
    DomainError::Tls(m)
}

/// The error of a directory entry that could not be read.
pub fn entry_read_failure(cause: &str) -> (e: DomainError)
    ensures
        e matches DomainError::Tls(m) && m@ == entry_read_message(cause@),
{
    let mut m = String::from_str("failed to read directory entry: ");
    push_str(&mut m, cause);
    proof { reveal_strlit("failed to read directory entry: "); }
    DomainError::Tls(m)
}

/// `n`, or `usize::MAX` if it is larger.
pub open spec fn saturated(n: int) -> int {
    if n > usize::MAX { usize::MAX as int } else { n }
}

/// The outcome of reading one file, by its views.
pub open spec fn read_view(read: Result<Vec<u8>, String>) -> Result<Seq<u8>, Seq<char>> {
    match read {
        Ok(b) => Ok(b@),
        Err(e) => Err(e@),
    }
}

/// The certificates a certificate file adds to the store: those rustls
/// accepts among the file's PEM certificates; none when the file could
/// not be read or its PEM text not parsed.
pub open spec fn file_added(read: Result<Seq<u8>, Seq<char>>) -> nat {
    match read {
        Ok(b) => match pem_certificates(b) {
            Ok(ders) => parsable_count(ders),
            Err(_) => 0,
        },
        Err(_) => 0,
    }
}

/// The certificates a sequence of certificate files adds in all.
pub open spec fn total_added(reads: Seq<Result<Seq<u8>, Seq<char>>>) -> nat
    decreases reads.len(),
{
    if reads.len() == 0 {
        0
    } else {
        total_added(reads.drop_last()) + file_added(reads.last())
    }
}

/// The counts (files met, certificates added) of a scan that started
/// empty and met the certificate files read as `reads`, in order.
pub open spec fn scan_after(reads: Seq<Result<Seq<u8>, Seq<char>>>) -> (nat, int)
    decreases reads.len(),
{
    if reads.len() == 0 {
        (0, 0)
    } else {
        let before = scan_after(reads.drop_last());
        (before.0 + 1, saturated(before.1 + file_added(reads.last())))
    }
}

proof fn lemma_total_added_zero(reads: Seq<Result<Seq<u8>, Seq<char>>>)
    ensures
        total_added(reads) == 0 <==> forall|i: int| 0 <= i < reads.len() ==> file_added(#[trigger] reads[i]) == 0,
    decreases reads.len(),
{
    if reads.len() > 0 {
        let front = reads.drop_last();
        lemma_total_added_zero(front);
        assert forall|i: int| 0 <= i < front.len() implies front[i] == reads[i] by {}
        if total_added(reads) != 0 {
            if file_added(reads.last()) == 0 {
                let k = choose|k: int| 0 <= k < front.len() && file_added(#[trigger] front[k]) != 0;
                assert(file_added(reads[k]) != 0);
            }
        }
    }
}

/// A scan of a CA directory, started with [`CertDirScan::new`] and fed
/// each certificate file with [`CertDirScan::add_file`], counts every file
/// it met and (up to `usize::MAX`) every certificate those files added;
/// one more file moves the counts by exactly that file; and its
/// [`CertDirScan::finish`] fails exactly when it met at least one
/// certificate file and none of them added a certificate (each was
/// unreadable, not PEM, or held nothing rustls accepts).
pub proof fn law_cert_dir_scan(reads: Seq<Result<Seq<u8>, Seq<char>>>, next: Result<Seq<u8>, Seq<char>>)
    ensures
        scan_after(reads).0 == reads.len(),
        scan_after(reads).1 == saturated(total_added(reads) as int),
        scan_after(reads.push(next)) == (scan_after(reads).0 + 1, saturated(scan_after(reads).1 + file_added(next))),
        (scan_after(reads).0 > 0 && scan_after(reads).1 == 0) <==> (reads.len() > 0 && forall|i: int|
            0 <= i < reads.len() ==> file_added(#[trigger] reads[i]) == 0),
    decreases reads.len(),
{
    assert(reads.push(next).drop_last() =~= reads);
    lemma_total_added_zero(reads);
    if reads.len() > 0 {
        law_cert_dir_scan(reads.drop_last(), reads.last());
    }
}

/// What became of one certificate file of a directory scan.
#[derive(Debug, Clone, Copy, PartialEq, Eq)]
pub enum CertFileOutcome {
    /// The file could not be read; it was skipped.
    Unreadable,
    /// The file's PEM text could not be parsed; it was skipped.
    Unparsable,
    /// The file's certificates were offered to the store; this many were
    /// added.
    Added(usize),
}

/// The running count of a CA directory scan: the certificate files met
/// and the certificates they added.
#[derive(Debug, Clone, Copy, PartialEq, Eq)]
pub struct CertDirScan {
    /// Files with a certificate extension met so far.
    pub files: usize,
    /// Certificates added so far.
    pub added: usize,
}

impl CertDirScan {
    /// A scan that has met nothing yet.
    pub fn new() -> (s: Self)
        ensures
            s.files == 0,
            s.added == 0,
    {
        CertDirScan { files: 0, added: 0 }
    }

    /// Counts one certificate file, whose reading gave `read`: its
    /// certificates are added to the store when it could be read and
    /// parsed; a file that cannot is skipped (but still counted). The
    /// count of added certificates stops at `usize::MAX`. Says what became
    /// of the file.
    pub fn add_file(&mut self, roots: &mut RootCertStore, read: Result<Vec<u8>, String>) -> (o: CertFileOutcome)
        requires
            old(self).files < usize::MAX,
        ensures
            final(self).files == old(self).files + 1,
            final(self).added == saturated(old(self).added + file_added(read_view(read))),
            match read {
                Ok(b) => match pem_certificates(b@) {
                    Ok(ders) => final(self).added == saturated(old(self).added + parsable_count(ders))
                        && store_anchors(*final(roots)) == store_anchors(*old(roots)) + anchors_of(ders)
                        && o == CertFileOutcome::Added(parsable_count(ders) as usize),
                    Err(_) => final(self).added == old(self).added && *final(roots) == *old(roots)
                        && o == CertFileOutcome::Unparsable,
                },
                Err(_) => final(self).added == old(self).added && *final(roots) == *old(roots)
                    && o == CertFileOutcome::Unreadable,
            },
    {
        self.files = self.files + 1;
        match read {
            Ok(bytes) => match parse_certs_from_pem(bytes.as_slice()) {
                Ok(certs) => {
                    let n = add_certs(roots, certs);
                    self.added = self.added.saturating_add(n);
                    CertFileOutcome::Added(n)
                },
                Err(_) => CertFileOutcome::Unparsable,
            },
            Err(_) => CertFileOutcome::Unreadable,
        }
    }

    /// The outcome of the scan of directory `dir`: an error when
    /// certificate files were found but none added a certificate.
    pub fn finish(&self, dir: &str) -> (r: Result<(), DomainError>)
        ensures
            (self.added == 0 && self.files > 0) <==> r is Err,
            r matches Err(e) ==> (e matches DomainError::Tls(m)
                && m@ == no_certs_in_dir_message(dir@, self.files as nat)),
    {
        if self.added == 0 && self.files > 0 {
            let mut m = String::from_str("no valid CA certificates found in directory '");
            push_str(&mut m, dir);
            push_str(&mut m, "' (");
            push_decimal(&mut m, self.files as u64);
            push_str(&mut m, " files checked)");
            proof {
                reveal_strlit("no valid CA certificates found in directory '");
                reveal_strlit("' (");
                reveal_strlit(" files checked)");
            }
            return Err(DomainError::Tls(m));
        }
        Ok(())
    }
}

} // verus!
