//! The authenticated session: public-key encryption of the login password,
//! time-based one-time codes, the login request's form data, and the
//! interpretation of the login response into an account identity. The
//! network calls and the outside cryptography stand behind trusted wrappers;
//! everything around them is verified.
use vstd::prelude::*;
use vstd::string::StringExecFns;
use vstd::utf8::encode_utf8;
use crate::error::{status_error, SteamError};

verus! {

/// What the base64 standard-alphabet encoder returns for a byte string. The
/// rendering is a pure function of the bytes; its exact table is the outside
/// crate's business, so it is only named here.
pub uninterp spec fn base64_of(b: Seq<u8>) -> Seq<char>;

/// Whether the platform's key material forms an acceptable public key: both
/// hex strings parse as big integers and the rsa crate's key checks (modulus
/// size and parity, exponent bounds and parity) accept the pair. A pure
/// function of the two strings, named rather than restated.
pub uninterp spec fn key_accepted(mod_hex: Seq<char>, exp_hex: Seq<char>) -> bool;

/// The longest message PKCS#1 v1.5 padding accepts under the key built from
/// this material: eleven bytes fewer than the modulus length. A pure function
/// of the material; negative when the modulus is shorter than the padding.
pub uninterp spec fn max_message_len(mod_hex: Seq<char>, exp_hex: Seq<char>) -> int;

/// Whether a one-time-code shared secret decodes: the steam_guard crate
/// accepts exactly the base64-decodable secrets. A pure function of the
/// secret, named rather than restated.
pub uninterp spec fn secret_decodes(secret: Seq<char>) -> bool;

/// The longest byte string handed to the base64 encoder; far below any
/// overflow in the encoder's output-size arithmetic.
pub const MAX_B64_INPUT: usize = 0x4000_0000;

/// Relies on base64's `Engine::encode` with the `STANDARD` engine: a
/// deterministic, padded encoding, four output characters for every three
/// input bytes begun.
#[verifier::external_body]
fn base64_encode(b: &[u8]) -> (r: String)
    requires
        b@.len() <= MAX_B64_INPUT,
    ensures
        r@ == base64_of(b@),
        r@.len() == 4 * ((b@.len() + 2) / 3),
{
    base64::Engine::encode(&base64::engine::general_purpose::STANDARD, b)
}

/// Relies on `BigUint::parse_bytes`, `RsaPublicKey::new` and
/// `RsaPublicKey::encrypt` of the rsa crate, with PKCS#1 v1.5 padding and the
/// operating system's random source. Success is decided by the material and
/// the message length alone: the padding check accepts exactly messages of
/// at most the modulus length less eleven, and randomness enters only the
/// padding bytes, so nothing is stated of the ciphertext beyond its size (the
/// key constructor caps the modulus at 4096 bits, so 512 bytes). The call
/// aborts only if the operating system's random source itself fails.
#[verifier::external_body]
fn rsa_encrypt_with_material(mod_hex: &str, exp_hex: &str, msg: &[u8]) -> (r: Option<Vec<u8>>)
    ensures
        r is Some <==> (key_accepted(mod_hex@, exp_hex@) && msg@.len() <= max_message_len(
            mod_hex@,
            exp_hex@,
        )),
        r matches Some(ct) ==> ct@.len() <= 512,
{
    let n = rsa::BigUint::parse_bytes(mod_hex.as_bytes(), 16)?;
    let e = rsa::BigUint::parse_bytes(exp_hex.as_bytes(), 16)?;
    let key = rsa::RsaPublicKey::new(n, e).ok()?;
    key.encrypt(&mut rand::rngs::OsRng, rsa::Pkcs1v15Encrypt, msg).ok()
}

/// Relies on steam_guard's `from_secret`: derives the current five-character
/// one-time code from a base64 shared secret; it fails exactly when the
/// secret does not decode. The code depends on the clock, so only its shape
/// is stated.
#[verifier::external_body]
fn totp_from_secret(secret: &str) -> (r: Option<String>)
    ensures
        r is Some <==> secret_decodes(secret@),
        r matches Some(code) ==> code@.len() == 5,
{
    steam_guard::from_secret(secret).ok()
}

/// Base64-encode a ciphertext, rejecting (implausibly) oversized input
/// instead of risking a panic in the encoder's size arithmetic.
pub fn encode_ciphertext(ciphertext: Vec<u8>) -> (r: Result<String, SteamError>)
    ensures
        ciphertext@.len() <= MAX_B64_INPUT ==> (r matches Ok(c) && c@ == base64_of(ciphertext@)
            && c@.len() == 4 * ((ciphertext@.len() + 2) / 3)),
        ciphertext@.len() > MAX_B64_INPUT ==> (r matches Err(e) && e is ProtocolError),
{
    if ciphertext.len() > MAX_B64_INPUT {
        Err(SteamError::ProtocolError { body: String::from_str("oversized ciphertext") })
    } else {
        Ok(base64_encode(ciphertext.as_slice()))
    }
}

/// The key material and correlation token served by the key-exchange
/// endpoint: hex-encoded modulus and exponent, and the server timestamp the
/// login request must echo.
#[derive(Debug)]
pub struct RSAKey {
    pub success: bool,
    pub publickey_mod: String,
    pub publickey_exp: String,
    pub timestamp: String,
    pub token_gid: String,
}

impl RSAKey {
    /// Classify the key-exchange endpoint's response: 200 with a parsed body
    /// whose success flag is set yields the material; 200 with an unparsable
    /// body, or one on which the server signals failure, is a protocol error
    /// carrying the raw body; 429, 403 and every other status map to the
    /// taxonomy.
    pub fn from_response(status: u16, parsed: Option<RSAKey>, raw_body: String) -> (r: Result<
        RSAKey,
        SteamError,
    >)
        ensures
            parsed matches Some(k) && status == 200 && k.success ==> r == Ok::<RSAKey, SteamError>(
                parsed->Some_0,
            ),
            parsed matches Some(k) && status == 200 && !k.success ==> r == Err::<
                RSAKey,
                SteamError,
            >(SteamError::ProtocolError { body: raw_body }),
            status == 200 && parsed is None ==> r == Err::<RSAKey, SteamError>(
                SteamError::ProtocolError { body: raw_body },
            ),
            status == 429 ==> r == Err::<RSAKey, SteamError>(SteamError::RateLimitedError),
            status == 403 ==> r == Err::<RSAKey, SteamError>(SteamError::ForbiddenError),
            status != 200 && status != 429 && status != 403 ==> r == Err::<RSAKey, SteamError>(
                SteamError::UnexpectedStatusError { status, body: raw_body },
            ),
    {
        if status == 200 {
            match parsed {
                Some(key) => {
                    if key.success {
                        Ok(key)
                    } else {
                        Err(SteamError::ProtocolError { body: raw_body })
                    }
                },
                None => Err(SteamError::ProtocolError { body: raw_body }),
            }
        } else {
            Err(status_error(status, raw_body))
        }
    }

    /// Encrypt the login password: parse the hex modulus and exponent, build
    /// the public key, encrypt the UTF-8 password bytes under PKCS#1 v1.5
    /// padding, and base64-encode the ciphertext. Succeeds exactly when the
    /// key material is acceptable and the password fits the padding; the
    /// padding is randomized by design, so the result is pinned only to the
    /// shape of a base64 rendering. Failures surface as protocol errors.
    pub fn encrypt_password(&self, password: String) -> (r: Result<String, SteamError>)
        ensures
            r is Ok <==> (key_accepted(self.publickey_mod@, self.publickey_exp@) && encode_utf8(
                password@,
            ).len() <= max_message_len(self.publickey_mod@, self.publickey_exp@)),
            r matches Ok(c) ==> exists|ct: Seq<u8>|
                ct.len() <= 512 && c@ == #[trigger] base64_of(ct) && c@.len() == 4 * ((ct.len() + 2)
                    / 3),
            r matches Err(e) ==> e is ProtocolError,
    {
        let ciphertext: Vec<u8> = match rsa_encrypt_with_material(
            self.publickey_mod.as_str(),
            self.publickey_exp.as_str(),
            password.as_str().as_bytes(),
        ) {
            Some(ct) => ct,
            None => {
                return Err(SteamError::ProtocolError { body: self.publickey_mod.clone() });
            },
        };
        let ghost ct_bytes = ciphertext@;
        let encoded = encode_ciphertext(ciphertext);
        proof {
            assert(ct_bytes.len() <= MAX_B64_INPUT);
            assert(encoded matches Ok(c) ==> c@ == base64_of(ct_bytes));
        }
        encoded
    }
}

/// The session parameters the login endpoint hands back on success.
#[derive(Debug)]
pub struct TransferParameters {
    pub steamid: String,
    pub token_secure: String,
    pub auth: String,
    pub remember_login: bool,
    pub webcookie: String,
}

/// The login endpoint's response, parsed leniently: unknown fields are
/// ignored by the layer that decodes the body.
#[derive(Debug)]
pub struct LoginResponse {
    pub success: bool,
    pub requires_twofactor: bool,
    pub login_complete: bool,
    pub transfer_urls: Vec<String>,
    pub transfer_parameters: TransferParameters,
}

/// An authenticated account identity: established once per successful login,
/// then only read.
#[derive(Debug)]
pub struct Account {
    pub steam_id: String,
    pub logged_in: bool,
    pub token_secure: String,
    pub auth: String,
    pub webcookie: String,
}

impl Account {
    /// Classify the login endpoint's response: 200 with a parsed body is
    /// interpreted as a login response; 200 with an unparsable body is a
    /// protocol error carrying the raw body; 429, 403 and every other status
    /// map to the taxonomy.
    pub fn from_response(status: u16, parsed: Option<LoginResponse>, raw_body: String) -> (r:
        Result<Account, SteamError>)
        ensures
            status == 200 && parsed is Some ==> {
                let resp = parsed->Some_0;
                &&& r is Ok <==> (resp.success && !resp.requires_twofactor && resp.login_complete)
                &&& (r matches Err(e) ==> e == SteamError::AuthenticationError)
                &&& (r matches Ok(a) ==> {
                    &&& a.steam_id == resp.transfer_parameters.steamid
                    &&& a.logged_in
                    &&& a.token_secure == resp.transfer_parameters.token_secure
                    &&& a.auth == resp.transfer_parameters.auth
                    &&& a.webcookie == resp.transfer_parameters.webcookie
                })
            },
            status == 200 && parsed is None ==> r == Err::<Account, SteamError>(
                SteamError::ProtocolError { body: raw_body },
            ),
            status == 429 ==> r == Err::<Account, SteamError>(SteamError::RateLimitedError),
            status == 403 ==> r == Err::<Account, SteamError>(SteamError::ForbiddenError),
            status != 200 && status != 429 && status != 403 ==> r == Err::<Account, SteamError>(
                SteamError::UnexpectedStatusError { status, body: raw_body },
            ),
    {
        if status == 200 {
            match parsed {
                Some(response) => Account::from_login_response(response),
                None => Err(SteamError::ProtocolError { body: raw_body }),
            }
        } else {
            Err(status_error(status, raw_body))
        }
    }

    /// Interpret a login response: the platform must report success, no
    /// outstanding second factor, and a complete login; anything else is an
    /// authentication failure. On success the identity carries the session
    /// tokens verbatim.
    pub fn from_login_response(response: LoginResponse) -> (r: Result<Account, SteamError>)
        ensures
            r is Ok <==> (response.success && !response.requires_twofactor
                && response.login_complete),
            r matches Err(e) ==> e == SteamError::AuthenticationError,
            r matches Ok(a) ==> {
                &&& a.steam_id == response.transfer_parameters.steamid
                &&& a.logged_in
                &&& a.token_secure == response.transfer_parameters.token_secure
                &&& a.auth == response.transfer_parameters.auth
                &&& a.webcookie == response.transfer_parameters.webcookie
            },
    {
        if response.success && !response.requires_twofactor && response.login_complete {
            let parameters = response.transfer_parameters;
            Ok(
                Account {
                    steam_id: parameters.steamid,
                    logged_in: true,
                    token_secure: parameters.token_secure,
                    auth: parameters.auth,
                    webcookie: parameters.webcookie,
                },
            )
        } else {
            Err(SteamError::AuthenticationError)
        }
    }
}

/// The form posted to the login endpoint: credentials, one-time code, the
/// echoed key timestamp, and the platform's fixed empty captcha and
/// email-auth fields.
#[derive(Debug)]
pub struct AccountLoginData {
    pub username: String,
    pub password: String,
    pub twofactorcode: String,
    pub rsatimestamp: String,
    pub remember_login: bool,
    pub emailauth: String,
    pub emailsteamid: String,
    pub loginfriendlyname: String,
    pub captcha_text: String,
    pub captchagid: String,
}

impl AccountLoginData {
    /// Assemble the login form: the four caller-supplied values verbatim,
    /// `remember_login` off, empty email-auth and captcha fields, and the
    /// fixed friendly client name.
    pub fn new(
        username: String,
        encrypted_password: String,
        twofactorcode: String,
        rsatimestamp: String,
    ) -> (r: AccountLoginData)
        ensures
            r.username == username,
            r.password == encrypted_password,
            r.twofactorcode == twofactorcode,
            r.rsatimestamp == rsatimestamp,
            !r.remember_login,
            r.emailauth@ == Seq::<char>::empty(),
            r.emailsteamid@ == Seq::<char>::empty(),
            r.loginfriendlyname@ == "Rust-SteamBot"@,
            r.captcha_text@ == Seq::<char>::empty(),
            r.captchagid@ == Seq::<char>::empty(),
    {
        AccountLoginData {
            username,
            password: encrypted_password,
            twofactorcode,
            rsatimestamp,
            remember_login: false,
            emailauth: String::new(),
            emailsteamid: String::new(),
            loginfriendlyname: String::from_str("Rust-SteamBot"),
            captcha_text: String::new(),
            captchagid: String::new(),
        }
    }
}

/// The out-of-band second factor: a shared secret from which the current
/// five-character code is derived.
#[derive(Debug)]
pub struct SteamGuard {
    pub secret: String,
}

impl SteamGuard {
    /// Hold a shared secret for code generation.
    pub fn new(secret: String) -> (r: SteamGuard)
        ensures
            r.secret == secret,
    {
        SteamGuard { secret }
    }

    /// The current one-time code: five characters, derived from the secret
    /// and the clock. Succeeds exactly when the secret decodes; an
    /// undecodable secret is rejected as such.
    pub fn generate_code(&self) -> (r: Result<String, SteamError>)
        ensures
            r is Ok <==> secret_decodes(self.secret@),
            r matches Ok(code) ==> code@.len() == 5,
            r matches Err(e) ==> e == SteamError::InvalidSecretError,
    {
        match totp_from_secret(self.secret.as_str()) {
            Some(code) => Ok(code),
            None => Err(SteamError::InvalidSecretError),
        }
    }
}

} // verus!
