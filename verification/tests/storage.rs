use rate_limit::json::{JsonDocument, JsonMember};
use rate_limit::pbkdf2::{hmac_sha1, pbkdf2_sha1};
use rate_limit::sha1::sha1;
use rate_limit::storage::{
    cipher_job, credentials_json, decrypt_safe_storage, decrypted_token, encrypted_token,
    finish_decrypt, keychain_password, stored_token, token_cache, token_in, CipherJob, Credentials,
    OAuthData,
};

fn hex(bytes: &[u8]) -> String {
    bytes.iter().map(|b| format!("{:02x}", b)).collect()
}

fn derived(password: &str, salt: &str, iterations: u32, len: usize) -> String {
    let mut out = vec![0u8; len];
    pbkdf2_sha1(password.as_bytes(), salt.as_bytes(), iterations, &mut out);
    hex(&out)
}

fn job(ciphertext: &[u8]) -> CipherJob {
    CipherJob {
        key: vec![1u8; 16],
        iv: vec![0x20u8; 16],
        ciphertext: ciphertext.to_vec(),
    }
}

// === hashing ===

#[test]
fn sha1_of_known_messages() {
    assert_eq!(hex(&sha1(b"")), "da39a3ee5e6b4b0d3255bfef95601890afd80709");
    assert_eq!(hex(&sha1(b"abc")), "a9993e364706816aba3e25717850c26c9cd0d89d");
    assert_eq!(
        hex(&sha1(
            b"abcdbcdecdefdefgefghfghighijhijkijkljklmklmnlmnomnopnopq"
        )),
        "84983e441c3bd26ebaae4aa1f95129e5e54670f1"
    );
    assert_eq!(
        hex(&sha1(&vec![b'a'; 1_000_000])),
        "34aa973cd4c4daa4f61eeb2bdbad27316534016f"
    );
}

#[test]
fn hmac_of_known_messages() {
    assert_eq!(
        hex(&hmac_sha1(&[0x0bu8; 20], b"Hi There")),
        "b617318655057264e28bc0b6fb378c8ef146be00"
    );
    assert_eq!(
        hex(&hmac_sha1(b"Jefe", b"what do ya want for nothing?")),
        "effcdf6ae5eb2fa2d27416d5f184df9c259a7c79"
    );
    assert_eq!(
        hex(&hmac_sha1(
            &[0xaau8; 80],
            b"Test Using Larger Than Block-Size Key - Hash Key First"
        )),
        "aa4ae5e15272d00e95705637ce8a3b55ed402112"
    );
}

#[test]
fn hmac_key_is_hashed_or_filled() {
    let long = [0x61u8; 65];
    assert_eq!(hmac_sha1(&long, b"m"), hmac_sha1(&sha1(&long), b"m"));
    assert_eq!(hmac_sha1(b"key", b"m"), hmac_sha1(b"key\0\0", b"m"));
}

#[test]
fn pbkdf2_of_known_inputs() {
    assert_eq!(
        derived("password", "salt", 1, 20),
        "0c60c80f961f0e71f3a9b524af6012062fe037a6"
    );
    assert_eq!(
        derived("password", "salt", 2, 20),
        "ea6c014dc72d6f8ccd1ed92ace1d41f0d8de8957"
    );
    assert_eq!(
        derived("password", "salt", 4096, 20),
        "4b007901b765489abead49d926f721d065a429c1"
    );
}

#[test]
fn pbkdf2_shorter_key_is_a_prefix() {
    let long = derived("password", "salt", 3, 20);
    assert_eq!(derived("password", "salt", 3, 16), long[..32]);
    assert_eq!(derived("password", "salt", 3, 0), "");
}

#[test]
fn pbkdf2_leaves_what_is_beyond_a_digest() {
    let mut out = [7u8; 24];
    pbkdf2_sha1(b"password", b"salt", 1, &mut out);
    assert_eq!(hex(&out[..20]), "0c60c80f961f0e71f3a9b524af6012062fe037a6");
    assert_eq!(out[20..], [7u8; 4]);
}

#[test]
fn pbkdf2_without_iterations_is_one_iteration() {
    assert_eq!(derived("p", "s", 0, 20), derived("p", "s", 1, 20));
}

// === keychain ===

#[test]
fn keychain_password_loses_line_ends_only_at_the_end() {
    let mut stdout = b"pass\nword \r\n\n".to_vec();
    let mut stderr = b"noise".to_vec();
    assert_eq!(
        keychain_password(true, &mut stdout, &mut stderr),
        Ok("pass\nword ".to_string())
    );
    assert!(stdout.is_empty());
    assert!(stderr.is_empty());
}

#[test]
fn keychain_refusal_is_reported_and_wiped() {
    let mut stdout = b"secret".to_vec();
    let mut stderr = b"denied".to_vec();
    assert_eq!(
        keychain_password(false, &mut stdout, &mut stderr),
        Err("keychain access denied — run from interactive terminal".to_string())
    );
    assert!(stdout.is_empty());
    assert!(stderr.is_empty());
}

#[test]
fn keychain_password_has_to_be_text() {
    let mut stdout = vec![b'a', 0xff];
    let err = keychain_password(true, &mut stdout, &mut Vec::new()).unwrap_err();
    assert_eq!(
        err,
        "security output UTF-8 decode: invalid utf-8 sequence of 1 bytes from index 1"
    );
    assert!(stdout.is_empty());
}

#[test]
fn keychain_password_may_be_empty_or_not_ascii() {
    assert_eq!(
        keychain_password(true, &mut b"\n".to_vec(), &mut Vec::new()),
        Ok(String::new())
    );
    assert_eq!(
        keychain_password(true, &mut "pä\n".as_bytes().to_vec(), &mut Vec::new()),
        Ok("pä".to_string())
    );
}

// === encrypted storage ===

#[test]
fn encrypted_token_is_found_in_the_configuration() {
    let mut config = "{\"a\": 1, \"oauth:tokenCache\": \"djEw\"}".to_string();
    assert_eq!(encrypted_token(&mut config), Ok("djEw".to_string()));
    assert!(config.is_empty());
}

#[test]
fn configuration_without_a_token_is_refused() {
    for text in ["{}", "[]", "{\"oauth:tokenCache\": 5}", "{\"oauth:tokenCache\": {}}"] {
        assert_eq!(
            encrypted_token(&mut text.to_string()),
            Err("no oauth:tokenCache in config.json".to_string())
        );
    }
    let err = encrypted_token(&mut "not json".to_string()).unwrap_err();
    assert_eq!(err, "parse config.json: expected ident at line 1 column 2");
}

#[test]
fn token_cache_reads_a_document() {
    let document = JsonDocument {
        members: Some(vec![
            ("x".to_string(), JsonMember::Other),
            ("oauth:tokenCache".to_string(), JsonMember::Text("t".to_string())),
        ]),
    };
    assert_eq!(token_cache(&document), Ok("t".to_string()));
    assert!(token_cache(&JsonDocument { members: None }).is_err());
}

#[test]
fn stored_data_becomes_a_cipher_job() {
    let mut encrypted = "djEwAAEC".to_string();
    let mut password = "peanuts".to_string();
    let job = decrypt_safe_storage(&mut encrypted, &mut password).unwrap();
    assert_eq!(hex(&job.key), "d9a09d499b4e1b7461f28e67972c6dbd");
    assert_eq!(job.iv, vec![0x20u8; 16]);
    assert_eq!(job.ciphertext, vec![0, 1, 2]);
    assert!(encrypted.is_empty());
    assert!(password.is_empty());
}

#[test]
fn stored_data_without_the_mark_is_refused() {
    for text in ["", "djEx", "djE=", "AAAA"] {
        let err = decrypt_safe_storage(&mut text.to_string(), &mut "p".to_string())
            .err()
            .unwrap();
        assert_eq!(err, "not v10 encrypted data");
    }
}

#[test]
fn stored_data_has_to_be_base64() {
    let mut encrypted = "dj!w".to_string();
    let err = decrypt_safe_storage(&mut encrypted, &mut "p".to_string())
        .err()
        .unwrap();
    assert!(err.starts_with("base64 decode: "));
    assert!(encrypted.is_empty());
}

#[test]
fn cipher_job_from_decoded_bytes() {
    let made = cipher_job(Ok(b"v10".to_vec()), "p").ok().unwrap();
    assert!(made.ciphertext.is_empty());
    assert_eq!(made.key.len(), 16);
    assert_eq!(
        cipher_job(Err("why".to_string()), "p").err().unwrap(),
        "base64 decode: why"
    );
}

#[test]
fn cipher_output_is_cut_to_what_was_filled() {
    let mut job = job(&[9, 9]);
    let mut output = vec![1u8, 2, 3, 4];
    assert_eq!(finish_decrypt(&mut job, 0, &mut output, 3), Ok(vec![1, 2, 3]));
    assert!(output.is_empty());
    assert!(job.key.is_empty());
    assert_eq!(job.ciphertext, vec![9, 9]);
    assert_eq!(
        finish_decrypt(&mut job, 0, &mut vec![1u8], 5),
        Ok(vec![1])
    );
}

#[test]
fn cipher_failure_is_reported_and_wiped() {
    let mut job = job(&[]);
    let mut output = vec![1u8, 2, 3, 4];
    assert_eq!(
        finish_decrypt(&mut job, -4303, &mut output, 4),
        Err("CCCrypt failed: -4303".to_string())
    );
    assert!(output.is_empty());
    assert!(job.key.is_empty());
}

// === token ===

#[test]
fn first_member_with_a_token_gives_it() {
    let mut decrypted =
        b"{\"a\":1,\"b\":{\"x\":\"y\"},\"c\":{\"token\":5},\"d\":{\"token\":\"t1\"},\"e\":{\"token\":\"t2\"}}"
            .to_vec();
    assert_eq!(decrypted_token(&mut decrypted), Ok("t1".to_string()));
    assert!(decrypted.is_empty());
}

#[test]
fn decrypted_data_without_a_token_is_refused() {
    for text in ["{}", "[]", "{\"token\":\"t\"}", "{\"a\":{\"token\":null}}"] {
        assert_eq!(
            decrypted_token(&mut text.as_bytes().to_vec()),
            Err("no token found in decrypted data".to_string())
        );
    }
    assert_eq!(
        decrypted_token(&mut vec![0xffu8]),
        Err("UTF-8 decode: invalid utf-8 sequence of 1 bytes from index 0".to_string())
    );
    assert!(decrypted_token(&mut b"{".to_vec())
        .unwrap_err()
        .starts_with("parse decrypted JSON: "));
}

#[test]
fn decrypted_text_is_wiped() {
    let mut text = "{\"a\":{\"token\":\"t\"}}".to_string();
    assert_eq!(token_in(&mut text), Ok("t".to_string()));
    assert!(text.is_empty());
    let mut text = "secret".to_string();
    assert!(token_in(&mut text)
        .unwrap_err()
        .starts_with("parse decrypted JSON: "));
    assert!(text.is_empty());
}

/// A cipher that is its own inverse.
fn mixed(job: &CipherJob, bytes: &[u8]) -> Vec<u8> {
    bytes
        .iter()
        .enumerate()
        .map(|(i, b)| b ^ job.key[i % 16] ^ job.iv[i % 16])
        .collect()
}

#[test]
fn stored_bytes_are_decrypted() {
    for plain in [&b""[..], &b"some bytes that were stored"[..]] {
        let empty = cipher_job(Ok(b"v10".to_vec()), "peanuts").ok().unwrap();
        let stored = [&b"v10"[..], &mixed(&empty, plain)[..]].concat();
        let mut job = cipher_job(Ok(stored), "peanuts").ok().unwrap();
        let mut output = mixed(&job, &job.ciphertext);
        let filled = output.len();
        output.extend([0u8; 16]);
        assert_eq!(
            finish_decrypt(&mut job, 0, &mut output, filled),
            Ok(plain.to_vec())
        );
    }
}

#[test]
fn stored_token_reads_a_document() {
    let document = JsonDocument {
        members: Some(vec![(
            "k".to_string(),
            JsonMember::Object(vec![
                ("other".to_string(), Some("o".to_string())),
                ("token".to_string(), Some("t".to_string())),
            ]),
        )]),
    };
    assert_eq!(stored_token(&document), Ok("t".to_string()));
}

#[test]
fn saved_credentials_read_back() {
    for token in ["sk-ant-test123", "quote\" slash\\ line\n", "ü—"] {
        let mut secret = token.to_string();
        let text = credentials_json(&mut secret);
        assert!(secret.is_empty());
        let value: serde_json::Value = serde_json::from_str(&text).unwrap();
        assert_eq!(value["claudeAiOauth"]["accessToken"], token);
        assert_eq!(value.as_object().unwrap().len(), 1);
    }
    assert_eq!(
        credentials_json(&mut "sk-ant-test123".to_string()),
        "{\"claudeAiOauth\":{\"accessToken\":\"sk-ant-test123\"}}"
    );
}

#[test]
fn credentials_may_lack_the_token() {
    let full = Credentials {
        oauth: Some(OAuthData {
            access_token: Some("t".to_string()),
        }),
    };
    assert_eq!(full.token(), Some("t".to_string()));
    let partial = Credentials {
        oauth: Some(OAuthData { access_token: None }),
    };
    assert_eq!(partial.token(), None);
    assert_eq!(Credentials { oauth: None }.token(), None);
}
