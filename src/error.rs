//! The failure kinds, their messages, and the conversions from the failures
//! of the cryptography backend (`ring`) and of the PEM codec (`pem`).

use vstd::prelude::*;

use crate::decimal::{all_digits, decimal, lemma_decimal_form, push_decimal, value_of};

verus! {

#[verifier::external_type_specification]
#[verifier::external_body]
pub struct ExPemError(pem::PemError);

#[verifier::external_type_specification]
#[verifier::external_body]
pub struct ExUnspecified(ring::error::Unspecified);

#[verifier::external_type_specification]
#[verifier::external_body]
pub struct ExKeyRejected(ring::error::KeyRejected);

/// The message that the PEM codec gives for `e`.
pub uninterp spec fn pem_error_text(e: pem::PemError) -> Seq<char>;

/// The explanation that `ring` gives for the key rejection `e`.
pub uninterp spec fn key_rejected_text(e: ring::error::KeyRejected) -> Seq<char>;

/// Relies on `Display for pem::PemError`: the message depends on the error
/// value alone.
#[verifier::external_body]
fn pem_error_to_string(e: &pem::PemError) -> (r: String)
    ensures
        r@ == pem_error_text(*e),
{
    e.to_string()
}

/// Relies on `Display for ring::error::KeyRejected`: it writes the
/// explanation that the value carries, and nothing else.
#[verifier::external_body]
fn key_rejected_to_string(e: &ring::error::KeyRejected) -> (r: String)
    ensures
        r@ == key_rejected_text(*e),
{
    e.to_string()
}

/// The error type of the toolkit.
#[derive(Debug, PartialEq, Eq)]
#[non_exhaustive]
pub enum Error {
    /// The given certificate couldn't be parsed
    CouldNotParseCertificate,
    /// The given certificate signing request couldn't be parsed
    CouldNotParseCertificationRequest,
    /// The given key pair couldn't be parsed
    CouldNotParseKeyPair,
    /// Invalid subject alternative name type
    InvalidNameType,
    /// An IP address was provided as a byte array, but the byte array was an
    /// invalid length.
    InvalidIpAddressOctetLength(usize),
    /// There is no support for generating keys for the given algorithm
    KeyGenerationUnavailable,
    /// Unsupported extension requested in CSR
    UnsupportedExtension,
    /// The requested signature algorithm is not supported
    UnsupportedSignatureAlgorithm,
    /// Unspecified `ring` error
    RingUnspecified,
    /// The `ring` library rejected the key upon loading
    RingKeyRejected(String),
    /// The provided certificate's signature algorithm is incompatible with
    /// the given key pair
    CertificateKeyPairMismatch,
    /// Time conversion related errors
    Time,
    /// Error from the pem crate
    PemError(pem::PemError),
    /// Error generated by a remote key operation
    RemoteKeyError,
    /// Unsupported field when generating a CSR
    UnsupportedInCsr,
    /// Invalid certificate revocation list (CRL) next update.
    InvalidCrlNextUpdate,
    /// CRL issuer specifies Key Usages that don't include cRLSign.
    IssuerNotCrlSigner,
}

/// The one-line message of `e`.
pub open spec fn message(e: Error) -> Seq<char> {
    match e {
        Error::CouldNotParseCertificate => "Could not parse certificate"@,
        Error::CouldNotParseCertificationRequest => "Could not parse certificate signing request"@,
        Error::CouldNotParseKeyPair => "Could not parse key pair"@,
        Error::InvalidNameType => "Invalid subject alternative name type"@,
        Error::InvalidIpAddressOctetLength(n) => "Invalid IP address octet length of "@ + decimal(
            n as nat,
        ) + " bytes"@,
        Error::KeyGenerationUnavailable => "There is no support for generating keys for the given algorithm"@,
        Error::UnsupportedSignatureAlgorithm => "The requested signature algorithm is not supported"@,
        Error::UnsupportedExtension => "Unsupported extension requested in CSR"@,
        Error::RingUnspecified => "Unspecified ring error"@,
        Error::RingKeyRejected(s) => "Key rejected by ring: "@ + s@,
        Error::CertificateKeyPairMismatch => "The provided certificate's signature algorithm is incompatible with the given key pair"@,
        Error::Time => "Time error"@,
        Error::RemoteKeyError => "Remote key error"@,
        Error::PemError(p) => "PEM error: "@ + pem_error_text(p),
        Error::UnsupportedInCsr => "Certificate parameter unsupported in CSR"@,
        Error::InvalidCrlNextUpdate => "Invalid CRL next update parameter"@,
        Error::IssuerNotCrlSigner => "CRL issuer must specify no key usage, or key usage including cRLSign"@,
    }
}

/// Whether `r` is the key rejection `err` of `ring`, with `ring`'s own
/// explanation as its text.
pub open spec fn keeps_rejection(r: Error, err: ring::error::KeyRejected) -> bool {
    r matches Error::RingKeyRejected(s) && s@ == key_rejected_text(err)
}

impl Error {
    /// The message of this error, as shown to a user.
    pub fn to_string(&self) -> (r: String)
        ensures
            r@ == message(*self),
            r@.len() > 0,
    {
        proof {
            lemma_message_nonempty(*self);
        }
        match self {
            Error::CouldNotParseCertificate => String::from_str("Could not parse certificate"),
            Error::CouldNotParseCertificationRequest => String::from_str(
                "Could not parse certificate signing request",
            ),
            Error::CouldNotParseKeyPair => String::from_str("Could not parse key pair"),
            Error::InvalidNameType => String::from_str("Invalid subject alternative name type"),
            Error::InvalidIpAddressOctetLength(n) => {
                let mut s = String::from_str("Invalid IP address octet length of ");
                push_decimal(*n, &mut s);
                s.append(" bytes");
                s
            },
            Error::KeyGenerationUnavailable => String::from_str(
                "There is no support for generating keys for the given algorithm",
            ),
            Error::UnsupportedSignatureAlgorithm => String::from_str(
                "The requested signature algorithm is not supported",
            ),
            Error::UnsupportedExtension => String::from_str(
                "Unsupported extension requested in CSR",
            ),
            Error::RingUnspecified => String::from_str("Unspecified ring error"),
            Error::RingKeyRejected(e) => {
                let mut s = String::from_str("Key rejected by ring: ");
                s.append(e.as_str());
                s
            },
            Error::CertificateKeyPairMismatch => String::from_str(
                "The provided certificate's signature algorithm is incompatible with the given key pair",
            ),
            Error::Time => String::from_str("Time error"),
            Error::RemoteKeyError => String::from_str("Remote key error"),
            Error::PemError(e) => {
                let mut s = String::from_str("PEM error: ");
                let t = pem_error_to_string(e);
                s.append(t.as_str());
                s
            },
            Error::UnsupportedInCsr => String::from_str("Certificate parameter unsupported in CSR"),
            Error::InvalidCrlNextUpdate => String::from_str("Invalid CRL next update parameter"),
            Error::IssuerNotCrlSigner => String::from_str(
                "CRL issuer must specify no key usage, or key usage including cRLSign",
            ),
        }
    }

    /// Classifies a failure of `ring` that carries no detail.
    pub fn from_unspecified(_unspecified: ring::error::Unspecified) -> (r: Error)
        ensures
            r == Error::RingUnspecified,
    {
        Error::RingUnspecified
    }

    /// Classifies a key rejection by `ring`, keeping its explanation as it is.
    pub fn from_key_rejected(err: ring::error::KeyRejected) -> (r: Error)
        ensures
            keeps_rejection(r, err),
    {
        Error::RingKeyRejected(key_rejected_to_string(&err))
    }

    /// Wraps a failure of the PEM codec, unchanged.
    pub fn from_pem_error(e: pem::PemError) -> (r: Error)
        ensures
            r == Error::PemError(e),
    {
        Error::PemError(e)
    }
}

impl From<ring::error::Unspecified> for Error {
    fn from(unspecified: ring::error::Unspecified) -> (r: Error) {
        Error::from_unspecified(unspecified)
    }
}

impl vstd::std_specs::convert::FromSpecImpl<ring::error::Unspecified> for Error {
    open spec fn obeys_from_spec() -> bool {
        true
    }

    open spec fn from_spec(v: ring::error::Unspecified) -> Error {
        Error::RingUnspecified
    }
}

impl From<ring::error::KeyRejected> for Error {
    fn from(err: ring::error::KeyRejected) -> (r: Error)
        ensures
            keeps_rejection(r, err),
    {
        Error::from_key_rejected(err)
    }
}

impl vstd::std_specs::convert::FromSpecImpl<ring::error::KeyRejected> for Error {
    /// Two `String`s with the same characters need not be one value to
    /// Verus, so no single result is promised here; `from` itself states
    /// what it returns.
    open spec fn obeys_from_spec() -> bool {
        false
    }

    open spec fn from_spec(v: ring::error::KeyRejected) -> Error {
        choose|r: Error| #[trigger] keeps_rejection(r, v)
    }
}

impl From<pem::PemError> for Error {
    fn from(e: pem::PemError) -> (r: Error) {
        Error::from_pem_error(e)
    }
}

impl vstd::std_specs::convert::FromSpecImpl<pem::PemError> for Error {
    open spec fn obeys_from_spec() -> bool {
        true
    }

    open spec fn from_spec(v: pem::PemError) -> Error {
        Error::PemError(v)
    }
}

/// Whether `a` and `b` are the same failure: the same kind, with payloads
/// of equal value (a text payload compared by its characters).
pub open spec fn same_failure(a: Error, b: Error) -> bool {
    match (a, b) {
        (Error::InvalidIpAddressOctetLength(x), Error::InvalidIpAddressOctetLength(y)) => x == y,
        (Error::RingKeyRejected(x), Error::RingKeyRejected(y)) => x@ == y@,
        (Error::PemError(x), Error::PemError(y)) => x == y,
        _ => a == b,
    }
}

/// Every failure has a message, and no message is empty.
pub proof fn lemma_message_nonempty(e: Error)
    ensures
        message(e).len() > 0,
{
        reveal_strlit("Could not parse certificate");
        reveal_strlit("Could not parse certificate signing request");
        reveal_strlit("Could not parse key pair");
        reveal_strlit("Invalid subject alternative name type");
        reveal_strlit("Invalid IP address octet length of ");
        reveal_strlit("There is no support for generating keys for the given algorithm");
        reveal_strlit("The requested signature algorithm is not supported");
        reveal_strlit("Unsupported extension requested in CSR");
        reveal_strlit("Unspecified ring error");
        reveal_strlit("Key rejected by ring: ");
        reveal_strlit("The provided certificate's signature algorithm is incompatible with the given key pair");
        reveal_strlit("Time error");
        reveal_strlit("Remote key error");
        reveal_strlit("PEM error: ");
        reveal_strlit("Certificate parameter unsupported in CSR");
        reveal_strlit("Invalid CRL next update parameter");
        reveal_strlit("CRL issuer must specify no key usage, or key usage including cRLSign");
}

/// Two values of the same failure get the same message.
pub proof fn lemma_message_deterministic(a: Error, b: Error)
    requires
        same_failure(a, b),
    ensures
        message(a) == message(b),
{
}

/// The message of an octet-length failure shows the length in decimal: the
/// text between its fixed words is a run of digits with no leading zero
/// that spells exactly the length.
pub proof fn lemma_octet_length_in_message(n: usize)
    ensures
        message(Error::InvalidIpAddressOctetLength(n)) == "Invalid IP address octet length of "@
            + decimal(n as nat) + " bytes"@,
        all_digits(decimal(n as nat)),
        value_of(decimal(n as nat)) == n,
        decimal(n as nat)[0] == '0' <==> n == 0,
{
    lemma_decimal_form(n as nat);
}

/// The explanation of a key rejection ends the message verbatim.
pub proof fn lemma_key_rejection_in_message(s: String)
    ensures
        ({
            let m = message(Error::RingKeyRejected(s));
            &&& m == "Key rejected by ring: "@ + s@
            &&& m.subrange(m.len() - s@.len(), m.len() as int) == s@
        }),
{
    let m = message(Error::RingKeyRejected(s));
    assert(m.subrange(m.len() - s@.len(), m.len() as int) =~= s@);
}

/// The message of a wrapped PEM failure is the codec's own message behind a
/// fixed prefix.
pub proof fn lemma_pem_error_in_message(e: pem::PemError)
    ensures
        message(Error::PemError(e)) == "PEM error: "@ + pem_error_text(e),
{
}

} // verus!
