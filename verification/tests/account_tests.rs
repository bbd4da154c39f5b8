use steam_trader::account::{
    encode_ciphertext, Account, AccountLoginData, LoginResponse, RSAKey, SteamGuard,
    TransferParameters,
};
use steam_trader::error::SteamError;

fn login_response(success: bool, requires_twofactor: bool, login_complete: bool) -> LoginResponse {
    LoginResponse {
        success,
        requires_twofactor,
        login_complete,
        transfer_urls: Vec::new(),
        transfer_parameters: TransferParameters {
            steamid: "76561198047314212".to_string(),
            token_secure: "tok-secure".to_string(),
            auth: "auth-token".to_string(),
            remember_login: false,
            webcookie: "web-cookie".to_string(),
        },
    }
}

#[test]
fn login_form_has_the_platforms_fixed_fields() {
    let data = AccountLoginData::new(
        "user".to_string(),
        "cipher".to_string(),
        "ABCDE".to_string(),
        "1234".to_string(),
    );
    assert_eq!(data.username, "user");
    assert_eq!(data.password, "cipher");
    assert_eq!(data.twofactorcode, "ABCDE");
    assert_eq!(data.rsatimestamp, "1234");
    assert!(!data.remember_login);
    assert_eq!(data.emailauth, "");
    assert_eq!(data.emailsteamid, "");
    assert_eq!(data.loginfriendlyname, "Rust-SteamBot");
    assert_eq!(data.captcha_text, "");
    assert_eq!(data.captchagid, "");
}

#[test]
fn complete_login_yields_the_identity() {
    let account = Account::from_login_response(login_response(true, false, true)).unwrap();
    assert_eq!(account.steam_id, "76561198047314212");
    assert!(account.logged_in);
    assert_eq!(account.token_secure, "tok-secure");
    assert_eq!(account.auth, "auth-token");
    assert_eq!(account.webcookie, "web-cookie");
}

#[test]
fn outstanding_second_factor_is_an_authentication_error() {
    let err = Account::from_login_response(login_response(true, true, false)).unwrap_err();
    assert_eq!(err, SteamError::AuthenticationError);
}

#[test]
fn incomplete_login_is_an_authentication_error() {
    let err = Account::from_login_response(login_response(true, false, false)).unwrap_err();
    assert_eq!(err, SteamError::AuthenticationError);
}

#[test]
fn unsuccessful_login_is_an_authentication_error() {
    let err = Account::from_login_response(login_response(false, false, true)).unwrap_err();
    assert_eq!(err, SteamError::AuthenticationError);
}

#[test]
fn one_time_code_has_the_steam_shape() {
    let guard = SteamGuard::new("MTIzNDU2Nzg5MGFiY2RlZmdoaWo=".to_string());
    let code = guard.generate_code().unwrap();
    assert_eq!(code.len(), 5);
    assert!(code.chars().all(|c| "23456789BCDFGHJKMNPQRTVWXY".contains(c)));
}

#[test]
fn undecodable_secret_is_an_invalid_secret_error() {
    let guard = SteamGuard::new("!!! not base64 !!!".to_string());
    assert_eq!(guard.generate_code().unwrap_err(), SteamError::InvalidSecretError);
}

#[test]
fn ciphertext_encoding_is_standard_base64() {
    assert_eq!(encode_ciphertext(Vec::new()).unwrap(), "");
    assert_eq!(encode_ciphertext(b"hello".to_vec()).unwrap(), "aGVsbG8=");
    assert_eq!(encode_ciphertext(vec![0xde, 0xad, 0xbe, 0xef]).unwrap(), "3q2+7w==");
}

#[test]
fn encrypted_password_round_trips_through_the_private_key() {
    let mut rng = rand::thread_rng();
    let private_key = rsa::RsaPrivateKey::new(&mut rng, 512).unwrap();
    let public_key = private_key.to_public_key();
    let key = RSAKey {
        success: true,
        publickey_mod: format!("{:x}", rsa::traits::PublicKeyParts::n(&public_key)),
        publickey_exp: format!("{:x}", rsa::traits::PublicKeyParts::e(&public_key)),
        timestamp: "1234".to_string(),
        token_gid: "0".to_string(),
    };
    let encoded = key.encrypt_password("hunter2".to_string()).unwrap();
    assert_eq!(encoded.len() % 4, 0);
    let ciphertext =
        base64::Engine::decode(&base64::engine::general_purpose::STANDARD, &encoded).unwrap();
    let plaintext = private_key.decrypt(rsa::Pkcs1v15Encrypt, &ciphertext).unwrap();
    assert_eq!(plaintext, b"hunter2");
}

#[test]
fn unparsable_key_material_is_a_protocol_error() {
    let key = RSAKey {
        success: true,
        publickey_mod: "zz-not-hex".to_string(),
        publickey_exp: "010001".to_string(),
        timestamp: "1234".to_string(),
        token_gid: "0".to_string(),
    };
    let err = key.encrypt_password("hunter2".to_string()).unwrap_err();
    assert_eq!(err, SteamError::ProtocolError { body: "zz-not-hex".to_string() });
}

#[test]
fn rejected_key_material_is_a_protocol_error() {
    let key = RSAKey {
        success: true,
        publickey_mod: "05".to_string(),
        publickey_exp: "04".to_string(),
        timestamp: "1234".to_string(),
        token_gid: "0".to_string(),
    };
    let err = key.encrypt_password("hunter2".to_string()).unwrap_err();
    assert!(matches!(err, SteamError::ProtocolError { .. }));
}

#[test]
fn password_too_long_for_the_key_is_a_protocol_error() {
    let mut rng = rand::thread_rng();
    let private_key = rsa::RsaPrivateKey::new(&mut rng, 512).unwrap();
    let public_key = private_key.to_public_key();
    let key = RSAKey {
        success: true,
        publickey_mod: format!("{:x}", rsa::traits::PublicKeyParts::n(&public_key)),
        publickey_exp: format!("{:x}", rsa::traits::PublicKeyParts::e(&public_key)),
        timestamp: "1234".to_string(),
        token_gid: "0".to_string(),
    };
    let long_password = "x".repeat(64 - 11 + 1);
    let err = key.encrypt_password(long_password).unwrap_err();
    assert!(matches!(err, SteamError::ProtocolError { .. }));
    let longest_fitting = "y".repeat(64 - 11);
    assert!(key.encrypt_password(longest_fitting).is_ok());
}

#[test]
fn key_exchange_classification_matches_the_taxonomy() {
    let material = RSAKey {
        success: true,
        publickey_mod: "abcdef".to_string(),
        publickey_exp: "010001".to_string(),
        timestamp: "1234".to_string(),
        token_gid: "0".to_string(),
    };
    let ok = RSAKey::from_response(200, Some(material), String::new()).unwrap();
    assert_eq!(ok.publickey_mod, "abcdef");
    assert_eq!(ok.timestamp, "1234");
    let refused = RSAKey {
        success: false,
        publickey_mod: String::new(),
        publickey_exp: String::new(),
        timestamp: String::new(),
        token_gid: String::new(),
    };
    assert_eq!(
        RSAKey::from_response(200, Some(refused), "{\"success\":false}".to_string()).unwrap_err(),
        SteamError::ProtocolError { body: "{\"success\":false}".to_string() }
    );
    assert_eq!(
        RSAKey::from_response(200, None, "bad".to_string()).unwrap_err(),
        SteamError::ProtocolError { body: "bad".to_string() }
    );
    assert_eq!(
        RSAKey::from_response(429, None, String::new()).unwrap_err(),
        SteamError::RateLimitedError
    );
    assert_eq!(
        RSAKey::from_response(403, None, String::new()).unwrap_err(),
        SteamError::ForbiddenError
    );
    assert_eq!(
        RSAKey::from_response(500, None, "oops".to_string()).unwrap_err(),
        SteamError::UnexpectedStatusError { status: 500, body: "oops".to_string() }
    );
}

#[test]
fn login_classification_matches_the_taxonomy() {
    let account =
        Account::from_response(200, Some(login_response(true, false, true)), String::new())
            .unwrap();
    assert_eq!(account.steam_id, "76561198047314212");
    assert!(account.logged_in);
    assert_eq!(
        Account::from_response(200, Some(login_response(true, true, false)), String::new())
            .unwrap_err(),
        SteamError::AuthenticationError
    );
    assert_eq!(
        Account::from_response(200, None, "bad".to_string()).unwrap_err(),
        SteamError::ProtocolError { body: "bad".to_string() }
    );
    assert_eq!(
        Account::from_response(429, None, String::new()).unwrap_err(),
        SteamError::RateLimitedError
    );
    assert_eq!(
        Account::from_response(403, None, String::new()).unwrap_err(),
        SteamError::ForbiddenError
    );
    assert_eq!(
        Account::from_response(500, None, "oops".to_string()).unwrap_err(),
        SteamError::UnexpectedStatusError { status: 500, body: "oops".to_string() }
    );
}
