use rate_limit::calls::{CipherOutput, ExtractCalls, KeychainOutput};
use rate_limit::extract::extract_token;
use rate_limit::product::Product;
use std::cell::RefCell;

struct World {
    home: Option<Vec<u8>>,
    keychain: Result<(bool, &'static [u8]), &'static str>,
    config: Result<&'static str, &'static str>,
    cipher: (i32, &'static [u8]),
    write: Result<(), &'static str>,
}

fn world() -> World {
    World {
        home: Some(b"/Users/me".to_vec()),
        keychain: Ok((true, b"peanuts\n")),
        config: Ok("{\"oauth:tokenCache\":\"djEwAAEC\"}"),
        cipher: (0, b"{\"a\":{\"token\":\"t1\"}}"),
        write: Ok(()),
    }
}

fn extract(w: World) -> (Result<Vec<u8>, String>, Vec<String>) {
    let product = Product {
        name: "acme".to_string(),
        title: "Acme".to_string(),
    };
    let calls = RefCell::new(Vec::new());
    let result = extract_token(
        &product,
        w.home,
        &mut ExtractCalls::new(
            |entry| {
                calls
                    .borrow_mut()
                    .push(format!("ask {} / {}", entry.service, entry.account));
                w.keychain
                    .map(|(succeeded, stdout)| KeychainOutput {
                        succeeded,
                        stdout: stdout.to_vec(),
                        stderr: b"noise".to_vec(),
                    })
                    .map_err(|e| e.to_string())
            },
            |path| {
                calls
                    .borrow_mut()
                    .push(format!("read {}", String::from_utf8_lossy(path)));
                w.config.map(|s| s.to_string()).map_err(|e| e.to_string())
            },
            |job| {
                calls
                    .borrow_mut()
                    .push(format!("decrypt {:?} with {:02x}..", job.ciphertext, job.key[0]));
                let mut output = w.cipher.1.to_vec();
                output.extend([0u8; 16]);
                CipherOutput {
                    status: w.cipher.0,
                    filled: w.cipher.1.len(),
                    output,
                }
            },
            |path, text| {
                calls
                    .borrow_mut()
                    .push(format!("write {} to {}", text, String::from_utf8_lossy(path)));
                w.write.map_err(|e| e.to_string())
            },
        ),
    );
    (result, calls.into_inner())
}

#[test]
fn token_is_extracted_step_by_step() {
    let (result, calls) = extract(world());
    assert_eq!(result, Ok(b"/Users/me/.acme/.credentials.json".to_vec()));
    assert_eq!(
        calls,
        vec![
            "ask Acme Safe Storage / Acme Key",
            "read /Users/me/Library/Application Support/Acme/config.json",
            "decrypt [0, 1, 2] with d9..",
            "write {\"claudeAiOauth\":{\"accessToken\":\"t1\"}} to /Users/me/.acme/.credentials.json",
        ]
    );
}

fn fails(w: World, message: &str, made: usize) {
    let (result, calls) = extract(w);
    assert_eq!(result, Err(message.to_string()));
    assert_eq!(calls.len(), made);
    assert!(calls.iter().take(3).all(|call| !call.starts_with("write")));
}

#[test]
fn failed_extraction_writes_nothing() {
    let mut w = world();
    w.keychain = Err("not found");
    fails(w, "security command failed: not found", 1);
    let mut w = world();
    w.keychain = Ok((false, b"secret"));
    fails(w, "keychain access denied — run from interactive terminal", 1);
    let mut w = world();
    w.home = None;
    fails(w, "HOME is not set", 1);
    let mut w = world();
    w.config = Err("gone");
    fails(w, "read config.json: gone", 2);
    let mut w = world();
    w.config = Ok("{}");
    fails(w, "no oauth:tokenCache in config.json", 2);
    let mut w = world();
    w.config = Ok("{\"oauth:tokenCache\":\"djEx\"}");
    fails(w, "not v10 encrypted data", 2);
    let mut w = world();
    w.cipher = (-4304, b"");
    fails(w, "CCCrypt failed: -4304", 3);
    let mut w = world();
    w.cipher = (0, b"{\"a\":{\"other\":1}}");
    fails(w, "no token found in decrypted data", 3);
}

#[test]
fn failed_write_is_reported() {
    let mut w = world();
    w.write = Err("rename: denied");
    let (result, calls) = extract(w);
    assert_eq!(result, Err("rename: denied".to_string()));
    assert_eq!(calls.len(), 4);
}
