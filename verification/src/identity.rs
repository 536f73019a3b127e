//! Loading the TLS identity that the listener serves with: a PKCS #12
//! bundle and, where one is configured, the file that holds its passphrase.
//! Reading the two files is the caller's part.

use native_tls::Identity;
use std::string::FromUtf8Error;
use vstd::prelude::*;
use vstd::string::*;
use vstd::utf8::*;

verus! {

/// `native_tls::Identity`, a certificate with its private key. It is only
/// made by [`parse_identity`] and passed on.
#[verifier::external_type_specification]
#[verifier::external_body]
pub struct ExIdentity(Identity);

/// `native_tls::Error`, the error of a bundle that does not open. It is
/// only told from success.
#[verifier::external_type_specification]
#[verifier::external_body]
pub struct ExTlsError(native_tls::Error);

/// `std::string::FromUtf8Error`, the error of bytes that are no UTF-8. It
/// is only told from success.
#[verifier::external_type_specification]
#[verifier::external_body]
pub struct ExFromUtf8Error(FromUtf8Error);

/// Why no identity could be loaded.
#[derive(Clone, Copy, Debug, PartialEq, Eq, Structural)]
pub enum CertificateError {
    /// The bundle could not be read.
    CertificateNotFound,
    /// The passphrase file could not be read.
    PassphraseNotFound,
    /// The passphrase file does not hold UTF-8.
    InvalidPassphraseEncoding,
    /// The bundle could not be opened with the passphrase: the passphrase is
    /// wrong or the bundle is damaged.
    CertificateParseError,
}

/// What came of reading the passphrase file.
pub enum PassphraseFile {
    /// No passphrase file is configured.
    NotConfigured,
    /// The file could not be read.
    Unreadable,
    /// The file's bytes.
    Contents(Vec<u8>),
}

/// Whether a zero byte stands among `bytes`. No passphrase holds one.
pub open spec fn has_nul(bytes: Seq<u8>) -> bool {
    exists|i: int| 0 <= i < bytes.len() && bytes[i] == 0
}

/// The passphrase that a passphrase file gives: the empty one where none is
/// configured, else the file's bytes read as UTF-8.
pub open spec fn passphrase_of(file: PassphraseFile) -> Result<Seq<char>, CertificateError> {
    match file {
        PassphraseFile::NotConfigured => Ok(Seq::empty()),
        PassphraseFile::Unreadable => Err(CertificateError::PassphraseNotFound),
        PassphraseFile::Contents(bytes) => if valid_utf8(bytes@) {
            Ok(decode_utf8(bytes@))
        } else {
            Err(CertificateError::InvalidPassphraseEncoding)
        },
    }
}

/// `String::from_utf8` of std: the bytes become a text exactly when they
/// are UTF-8, and the text is what they encode.
#[verifier::external_body]
pub(crate) fn text_of_utf8(bytes: Vec<u8>) -> (text: Result<String, FromUtf8Error>)
    ensures
        text is Ok <==> valid_utf8(bytes@),
        text matches Ok(t) ==> t@ == decode_utf8(bytes@),
{
    String::from_utf8(bytes)
}

/// `Identity::from_pkcs12`: the bundle is opened with the passphrase. What
/// comes back depends on the TLS library of the machine, so nothing is
/// said of it. A passphrase with a zero byte is not accepted.
#[verifier::external_body]
pub(crate) fn parse_identity(bundle: &Vec<u8>, passphrase: &str) -> (parsed: Result<
    Identity,
    native_tls::Error,
>)
    requires
        !has_nul(encode_utf8(passphrase@)),
{
    Identity::from_pkcs12(bundle, passphrase)
}

/// Reads the passphrase from what the passphrase file gave.
pub fn passphrase_text(file: PassphraseFile) -> (res: Result<String, CertificateError>)
    ensures
        res matches Ok(text) ==> passphrase_of(file) == Ok::<Seq<char>, CertificateError>(text@),
        res matches Err(error) ==> passphrase_of(file) == Err::<Seq<char>, CertificateError>(
            error,
        ),
{
    match file {
        PassphraseFile::NotConfigured => Ok(String::new()),
        PassphraseFile::Unreadable => Err(CertificateError::PassphraseNotFound),
        PassphraseFile::Contents(bytes) => match text_of_utf8(bytes) {
            Ok(text) => Ok(text),
            Err(_) => Err(CertificateError::InvalidPassphraseEncoding),
        },
    }
}

/// Whether a zero byte stands in the text.
pub fn holds_nul(text: &str) -> (found: bool)
    ensures
        found == has_nul(encode_utf8(text@)),
{
    let bytes = text.as_bytes();
    let mut i: usize = 0;
    while i < bytes.len()
        invariant
            i <= bytes@.len(),
            bytes@ == encode_utf8(text@),
            forall|j: int| 0 <= j < i ==> bytes@[j] != 0,
        decreases bytes@.len() - i,
    {
        if bytes[i] == 0 {
            return true;
        }
        i = i + 1;
    }
    false
}

/// Makes of the parser's answer the loader's: the identity, or the error
/// that stands for every way in which a bundle does not open.
pub fn identity_of(parsed: Result<Identity, native_tls::Error>) -> (res: Result<
    Identity,
    CertificateError,
>)
    ensures
        parsed matches Ok(identity) ==> res == Ok::<Identity, CertificateError>(identity),
        parsed is Err ==> res == Err::<Identity, CertificateError>(
            CertificateError::CertificateParseError,
        ),
{
    match parsed {
        Ok(identity) => Ok(identity),
        Err(_) => Err(CertificateError::CertificateParseError),
    }
}

/// Loads the identity from what reading the two files gave: `bundle` is
/// `None` where the bundle could not be read. The errors come in this order:
/// a missing bundle, a missing passphrase file, a passphrase that is not
/// UTF-8, a bundle that does not open. Whether a bundle opens is for the TLS
/// library to say, but for a passphrase with a zero byte, which opens none.
pub fn load_identity(bundle: Option<Vec<u8>>, passphrase: PassphraseFile) -> (res: Result<
    Identity,
    CertificateError,
>)
    ensures
        bundle is None ==> res == Err::<Identity, CertificateError>(
            CertificateError::CertificateNotFound,
        ),
        bundle is Some ==> match passphrase_of(passphrase) {
            Err(error) => res == Err::<Identity, CertificateError>(error),
            Ok(text) => {
                &&& has_nul(encode_utf8(text)) ==> res is Err
                &&& res matches Err(error) ==> error == CertificateError::CertificateParseError
            },
        },
{
    let bundle = match bundle {
        Some(bundle) => bundle,
        None => {
            return Err(CertificateError::CertificateNotFound);
        },
    };
    let text = match passphrase_text(passphrase) {
        Ok(text) => text,
        Err(error) => {
            return Err(error);
        },
    };
    if holds_nul(text.as_str()) {
        return Err(CertificateError::CertificateParseError);
    }
    identity_of(parse_identity(&bundle, text.as_str()))
}

impl CertificateError {
    /// What the operator is told, with the path of the file that the error
    /// is about.
    pub open spec fn message(self, bundle_path: Seq<char>, passphrase_path: Seq<char>) -> Seq<
        char,
    > {
        match self {
            CertificateError::CertificateNotFound => "Certificate file \""@ + bundle_path
                + "\" not found (or not accessible)"@,
            CertificateError::PassphraseNotFound => "Certificate pass file \""@ + passphrase_path
                + "\" not found (or not accessible)"@,
            CertificateError::InvalidPassphraseEncoding => "Certificate pass file \""@
                + passphrase_path + "\" is not valid UTF-8"@,
            CertificateError::CertificateParseError =>
                "Error while opening certificate file (maybe wrong password?)"@,
        }
    }

    /// Writes what the operator is told.
    pub fn describe(self, bundle_path: &str, passphrase_path: &str) -> (text: String)
        ensures
            text@ == self.message(bundle_path@, passphrase_path@),
    {
        match self {
            CertificateError::CertificateNotFound => {
                let mut text = "Certificate file \"".to_owned();
                text.append(bundle_path);
                text.append("\" not found (or not accessible)");
                text
            },
            CertificateError::PassphraseNotFound => {
                let mut text = "Certificate pass file \"".to_owned();
                text.append(passphrase_path);
                text.append("\" not found (or not accessible)");
                text
            },
            CertificateError::InvalidPassphraseEncoding => {
                let mut text = "Certificate pass file \"".to_owned();
                text.append(passphrase_path);
                text.append("\" is not valid UTF-8");
                text
            },
            CertificateError::CertificateParseError => {
                "Error while opening certificate file (maybe wrong password?)".to_owned()
            },
        }
    }
}

/// A bundle that is not there and a bundle that does not open are told
/// apart, whatever the paths: the two messages differ.
pub proof fn law_missing_is_told_from_unopened(bundle_path: Seq<char>, passphrase_path: Seq<char>)
    ensures
        CertificateError::CertificateNotFound.message(bundle_path, passphrase_path)
            != CertificateError::CertificateParseError.message(bundle_path, passphrase_path),
        CertificateError::PassphraseNotFound.message(bundle_path, passphrase_path)
            != CertificateError::CertificateParseError.message(bundle_path, passphrase_path),
{
    reveal_strlit("Certificate file \"");
    reveal_strlit("Certificate pass file \"");
    reveal_strlit("Error while opening certificate file (maybe wrong password?)");
    let missing = CertificateError::CertificateNotFound.message(bundle_path, passphrase_path);
    let no_passphrase = CertificateError::PassphraseNotFound.message(
        bundle_path,
        passphrase_path,
    );
    let unopened = CertificateError::CertificateParseError.message(bundle_path, passphrase_path);
    assert(missing[0] == 'C');
    assert(no_passphrase[0] == 'C');
    assert(unopened[0] == 'E');
}

} // verus!
