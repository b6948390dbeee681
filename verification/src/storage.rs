//! The token in the desktop application's encrypted storage: how it is found, decrypted and
//! saved.
//!
//! The storage is a JSON document that holds, in Base64, the mark `v10` and an AES-128-CBC
//! ciphertext. Its key is derived from a password in the keychain. The cipher itself and the
//! keychain are the operating system's.

use crate::decimal::push_signed;
use crate::json::{parse_json, write_single_member, JsonDocument, JsonMember};
use crate::pbkdf2::pbkdf2_sha1;
use crate::secret::{secret_text, wipe_bytes, wipe_string};
use vstd::prelude::*;

verus! {

/// The salt of the key derivation.
pub const KEY_SALT: &'static str = "saltysalt";

/// The iteration count of the key derivation.
pub const KEY_ITERATIONS: u32 = 1003;

/// Number of bytes in the key, and in a cipher block.
pub const KEY_LEN: usize = 16;

/// The credentials file: where the display finds the token.
pub struct Credentials {
    pub oauth: Option<OAuthData>,
}

/// The part of the credentials that holds the token.
pub struct OAuthData {
    pub access_token: Option<String>,
}

impl Credentials {
    /// The token, if the credentials hold one.
    pub fn token(self) -> (r: Option<String>)
        ensures
            r == match self.oauth {
                Some(data) => data.access_token,
                None => None,
            },
    {
        match self.oauth {
            Some(data) => data.access_token,
            None => None,
        }
    }
}

/// What the cipher has to decrypt, and with what.
pub struct CipherJob {
    pub key: Vec<u8>,
    pub iv: Vec<u8>,
    pub ciphertext: Vec<u8>,
}

/// What the cipher has to decrypt, and with what, as mathematical values.
pub struct CipherJobView {
    pub key: Seq<u8>,
    pub iv: Seq<u8>,
    pub ciphertext: Seq<u8>,
}

impl View for CipherJob {
    type V = CipherJobView;

    open spec fn view(&self) -> CipherJobView {
        CipherJobView { key: self.key@, iv: self.iv@, ciphertext: self.ciphertext@ }
    }
}

/// A text without the line feeds and carriage returns at its end.
pub open spec fn without_line_end(s: Seq<char>) -> Seq<char>
    decreases s.len(),
{
    if s.len() > 0 && (s.last() == '\n' || s.last() == '\r') {
        without_line_end(s.drop_last())
    } else {
        s
    }
}

/// Trimming takes line ends only, and leaves none at the end.
pub proof fn law_trimming(s: Seq<char>)
    ensures
        without_line_end(s).is_prefix_of(s),
        forall|i: int|
            without_line_end(s).len() <= i < s.len() ==> #[trigger] s[i] == '\n' || s[i] == '\r',
        without_line_end(s).len() > 0 ==> without_line_end(s).last() != '\n' && without_line_end(
            s,
        ).last() != '\r',
        without_line_end(without_line_end(s)) == without_line_end(s),
    decreases s.len(),
{
    if s.len() > 0 && (s.last() == '\n' || s.last() == '\r') {
        law_trimming(s.drop_last());
        assert forall|i: int| without_line_end(s).len() <= i < s.len() implies #[trigger] s[i]
            == '\n' || s[i] == '\r' by {
            if i < s.len() - 1 {
                assert(s.drop_last()[i] == s[i]);
            }
        }
    }
}

/// What the keychain command's outcome amounts to.
pub open spec fn keychain_outcome(succeeded: bool, stdout: Seq<u8>) -> Result<
    Seq<char>,
    Seq<char>,
> {
    if !succeeded {
        Err("keychain access denied — run from interactive terminal"@)
    } else {
        match crate::secret::decoded_text(stdout, "security output UTF-8 decode: "@) {
            Ok(text) => Ok(without_line_end(text)),
            Err(e) => Err(e),
        }
    }
}

/// The password is all that the keychain command wrote, but for line ends behind it. A command that
/// failed gives none.
pub proof fn law_password_is_what_was_written(
    password: Seq<char>,
    line_ends: Seq<char>,
    stdout: Seq<u8>,
)
    requires
        password.len() > 0 ==> password.last() != '\n' && password.last() != '\r',
        forall|i: int|
            0 <= i < line_ends.len() ==> #[trigger] line_ends[i] == '\n' || line_ends[i] == '\r',
    ensures
        keychain_outcome(true, vstd::utf8::encode_utf8(password + line_ends)) == Ok::<
            Seq<char>,
            Seq<char>,
        >(password),
        keychain_outcome(false, stdout) == Err::<Seq<char>, Seq<char>>(
            "keychain access denied — run from interactive terminal"@,
        ),
{
    crate::secret::law_text_survives_bytes(
        password + line_ends,
        stdout,
        "security output UTF-8 decode: "@,
    );
    lemma_line_ends_go(password, line_ends);
}

/// Line ends behind a text that has none go.
proof fn lemma_line_ends_go(text: Seq<char>, line_ends: Seq<char>)
    requires
        text.len() > 0 ==> text.last() != '\n' && text.last() != '\r',
        forall|i: int|
            0 <= i < line_ends.len() ==> #[trigger] line_ends[i] == '\n' || line_ends[i] == '\r',
    ensures
        without_line_end(text + line_ends) == text,
    decreases line_ends.len(),
{
    if line_ends.len() > 0 {
        let fewer = line_ends.drop_last();
        assert forall|i: int| 0 <= i < fewer.len() implies #[trigger] fewer[i] == '\n' || fewer[i]
            == '\r' by {
            assert(fewer[i] == line_ends[i]);
        }
        lemma_line_ends_go(text, fewer);
        assert(line_ends[line_ends.len() - 1] == '\n' || line_ends[line_ends.len() - 1] == '\r');
        assert((text + line_ends).drop_last() =~= text + fewer);
    } else {
        assert(text + line_ends =~= text);
    }
}

/// A string without the line feeds and carriage returns at its end; the string itself is wiped.
fn trimmed(s: &mut String) -> (r: String)
    ensures
        r@ == without_line_end(old(s)@),
        final(s)@.len() == 0,
{
    let mut n: usize = s.as_str().unicode_len();
    let ghost all = s@;
    assert(all.take(n as int) =~= all);
    while n > 0 && (s.as_str().get_char(n - 1) == '\n' || s.as_str().get_char(n - 1) == '\r')
        invariant
            all == s@,
            n <= all.len(),
            without_line_end(all) == without_line_end(all.take(n as int)),
        decreases n,
    {
        n = n - 1;
        assert(all.take(n + 1).drop_last() =~= all.take(n as int));
    }
    let kept: String = s.as_str().substring_char(0, n).to_owned();
    wipe_string(s);
    kept
}

/// The keychain password, from the outcome of the command that asks for it. Nothing of what the
/// command wrote stays behind.
pub fn keychain_password(succeeded: bool, stdout: &mut Vec<u8>, stderr: &mut Vec<u8>) -> (r: Result<
    String,
    String,
>)
    ensures
        crate::secret::is_text_outcome(r, keychain_outcome(succeeded, old(stdout)@)),
        final(stdout)@.len() == 0,
        final(stderr)@.len() == 0,
{
    wipe_bytes(stderr);
    if !succeeded {
        wipe_bytes(stdout);
        return Err("keychain access denied — run from interactive terminal".to_owned());
    }
    match secret_text(stdout, "security output UTF-8 decode: ") {
        Ok(password) => {
            let mut password: String = password;
            Ok(trimmed(&mut password))
        },
        Err(e) => Err(e),
    }
}

/// The encrypted token in a configuration document.
pub open spec fn token_cache_outcome(document: Option<Seq<(Seq<char>, crate::json::MemberView)>>)
    -> Result<Seq<char>, Seq<char>> {
    match crate::json::document_string(document, "oauth:tokenCache"@) {
        Some(s) => Ok(s),
        None => Err("no oauth:tokenCache in config.json"@),
    }
}

/// The encrypted token in a configuration document.
pub fn token_cache(document: &JsonDocument) -> (r: Result<String, String>)
    ensures
        crate::secret::is_text_outcome(r, token_cache_outcome(document@)),
{
    match document.string("oauth:tokenCache") {
        Some(s) => Ok(s),
        None => Err("no oauth:tokenCache in config.json".to_owned()),
    }
}

/// The encrypted token in a configuration file.
pub open spec fn config_outcome(config: Seq<char>) -> Result<Seq<char>, Seq<char>> {
    match crate::json::json_document(config) {
        Ok(document) => token_cache_outcome(document),
        Err(why) => Err("parse config.json: "@ + why),
    }
}

/// The encrypted token in a configuration file, which is wiped.
pub fn encrypted_token(config: &mut String) -> (r: Result<String, String>)
    ensures
        crate::secret::is_text_outcome(r, config_outcome(old(config)@)),
        final(config)@.len() == 0,
{
    let parsed: Result<JsonDocument, String> = parse_json(config.as_str());
    wipe_string(config);
    match parsed {
        Ok(document) => token_cache(&document),
        Err(why) => {
            let mut e: String = "parse config.json: ".to_owned();
            e.append(why.as_str());
            Err(e)
        },
    }
}

/// The bytes that a Base64 text denotes, or what is wrong with the text.
pub uninterp spec fn base64_bytes(text: Seq<char>) -> Result<Seq<u8>, Seq<char>>;

/// Decodes Base64 with the standard engine of `base64` (`general_purpose::STANDARD`). What it
/// gives, bytes or error, is a function of the text alone.
#[verifier::external_body]
fn decode_base64(text: &str) -> (r: Result<Vec<u8>, String>)
    ensures
        match base64_bytes(text@) {
            Ok(bytes) => r matches Ok(v) && v@ == bytes,
            Err(why) => r matches Err(e) && e@ == why,
        },
{
    base64::Engine::decode(&base64::engine::general_purpose::STANDARD, text).map_err(
        |e| e.to_string(),
    )
}

/// The key that a password stands for.
pub open spec fn storage_key(password: Seq<char>) -> Seq<u8> {
    crate::pbkdf2::derived_block(
        vstd::utf8::encode_utf8(password),
        vstd::utf8::encode_utf8(KEY_SALT@),
        KEY_ITERATIONS as nat,
    ).take(KEY_LEN as int)
}

/// The initialisation vector: spaces.
pub open spec fn storage_iv() -> Seq<u8> {
    Seq::new(KEY_LEN as nat, |i: int| 0x20u8)
}

/// The mark of the encryption scheme: `v10`.
pub open spec fn storage_mark() -> Seq<u8> {
    seq![0x76u8, 0x31u8, 0x30u8]
}

/// Whether stored bytes bear the mark of the encryption scheme.
pub open spec fn is_marked(stored: Seq<u8>) -> bool {
    storage_mark().is_prefix_of(stored)
}

/// What stored bytes ask of the cipher: behind the mark, the ciphertext; a key derived from the
/// password; and an initialisation vector of spaces.
pub open spec fn cipher_job_outcome(stored: Result<Seq<u8>, Seq<char>>, password: Seq<char>)
    -> Result<CipherJobView, Seq<char>> {
    match stored {
        Err(why) => Err("base64 decode: "@ + why),
        Ok(bytes) => if is_marked(bytes) {
            Ok(
                CipherJobView {
                    key: storage_key(password),
                    iv: storage_iv(),
                    ciphertext: bytes.skip(3),
                },
            )
        } else {
            Err("not v10 encrypted data"@)
        },
    }
}

/// The key is the first sixteen bytes of PBKDF2 of the whole password, with the salt `saltysalt`
/// and 1003 iterations.
pub proof fn law_key_derivation(password: Seq<char>)
    ensures
        storage_key(password).len() == 16,
        storage_key(password).is_prefix_of(
            crate::pbkdf2::derived_block(
                vstd::utf8::encode_utf8(password),
                vstd::utf8::encode_utf8("saltysalt"@),
                1003,
            ),
        ),
        storage_iv().len() == 16,
        forall|i: int| 0 <= i < 16 ==> #[trigger] storage_iv()[i] == ' ' as u8,
{
    crate::pbkdf2::law_derived_block_length(
        vstd::utf8::encode_utf8(password),
        vstd::utf8::encode_utf8("saltysalt"@),
        1003,
    );
}

/// What is handed to the cipher: exactly of bytes that begin with `v10`, all that follows, with the
/// key of the password and the fixed vector. Other bytes, and what is no Base64, are refused.
pub proof fn law_cipher_is_given_what_follows_the_mark(
    bytes: Seq<u8>,
    why: Seq<char>,
    password: Seq<char>,
)
    ensures
        ({
            let marked = bytes.len() >= 3 && bytes[0] == 'v' as u8 && bytes[1] == '1' as u8
                && bytes[2] == '0' as u8;
            let r = cipher_job_outcome(Ok(bytes), password);
            &&& !marked ==> r == Err::<CipherJobView, Seq<char>>("not v10 encrypted data"@)
            &&& marked ==> (r matches Ok(job) && job.key == storage_key(password) && job.iv
                == storage_iv() && job.ciphertext.len() == bytes.len() - 3 && bytes.take(3)
                + job.ciphertext == bytes)
        }),
        cipher_job_outcome(Err(why), password) == Err::<CipherJobView, Seq<char>>(
            "base64 decode: "@ + why,
        ),
{
    lemma_mark(bytes);
}

/// The mark, byte by byte, and what follows it.
proof fn lemma_mark(bytes: Seq<u8>)
    ensures
        is_marked(bytes) <==> bytes.len() >= 3 && bytes[0] == 'v' as u8 && bytes[1] == '1' as u8
            && bytes[2] == '0' as u8,
        bytes.len() >= 3 ==> bytes.take(3) + bytes.skip(3) == bytes,
{
    let mark = storage_mark();
    assert(mark.len() == 3 && mark[0] == 0x76 && mark[1] == 0x31 && mark[2] == 0x30);
    if bytes.len() >= 3 {
        assert(bytes.take(3) + bytes.skip(3) =~= bytes);
        assert(bytes.take(3)[0] == bytes[0] && bytes.take(3)[1] == bytes[1] && bytes.take(3)[2]
            == bytes[2]);
        if bytes[0] == 'v' as u8 && bytes[1] == '1' as u8 && bytes[2] == '0' as u8 {
            assert(bytes.take(3) =~= mark);
        }
    }
}

/// Whether a result is the expected one.
pub open spec fn is_job_outcome(
    r: Result<CipherJob, String>,
    expected: Result<CipherJobView, Seq<char>>,
) -> bool {
    match expected {
        Ok(job) => r matches Ok(j) && j@ == job,
        Err(text) => r matches Err(e) && e@ == text,
    }
}

/// A job is the expected one exactly if its key, vector and ciphertext are, and a refusal if its text
/// is.
pub proof fn law_job_outcome(
    r: Result<CipherJob, String>,
    expected: Result<CipherJobView, Seq<char>>,
)
    ensures
        is_job_outcome(r, expected) <==> {
            ||| (r matches Ok(job) && expected matches Ok(view) && job.key@ == view.key && job.iv@
                == view.iv && job.ciphertext@ == view.ciphertext)
            ||| (r matches Err(e) && expected == Err::<CipherJobView, Seq<char>>(e@))
        },
{
}

/// The key that a password stands for.
fn derive_key(password: &str) -> (key: Vec<u8>)
    ensures
        key@ == storage_key(password@),
{
    let mut key: Vec<u8> = vec![0u8; KEY_LEN];
    pbkdf2_sha1(
        password.as_bytes(),
        KEY_SALT.as_bytes(),
        KEY_ITERATIONS,
        key.as_mut_slice(),
    );
    proof {
        crate::pbkdf2::law_derived_block_length(
            vstd::utf8::encode_utf8(password@),
            vstd::utf8::encode_utf8(KEY_SALT@),
            KEY_ITERATIONS as nat,
        );
        assert(key@ =~= storage_key(password@));
    }
    key
}

/// What stored bytes ask of the cipher.
pub fn cipher_job(stored: Result<Vec<u8>, String>, password: &str) -> (r: Result<
    CipherJob,
    String,
>)
    ensures
        is_job_outcome(
            r,
            cipher_job_outcome(
                match stored {
                    Ok(v) => Ok(v@),
                    Err(e) => Err(e@),
                },
                password@,
            ),
        ),
{
    let raw: Vec<u8> = match stored {
        Ok(v) => v,
        Err(why) => {
            let mut e: String = "base64 decode: ".to_owned();
            e.append(why.as_str());
            return Err(e);
        },
    };
    proof {
        lemma_mark(raw@);
    }
    if raw.len() < 3 || raw[0] != 0x76 || raw[1] != 0x31 || raw[2] != 0x30 {
        return Err("not v10 encrypted data".to_owned());
    }
    let mut ciphertext: Vec<u8> = Vec::new();
    for i in 3..raw.len()
        invariant
            3 <= raw@.len(),
            ciphertext@ == raw@.subrange(3, i as int),
    {
        ciphertext.push(raw[i]);
    }
    assert(ciphertext@ =~= raw@.skip(3));
    let key: Vec<u8> = derive_key(password);
    let iv: Vec<u8> = vec![0x20u8; KEY_LEN];
    assert(iv@ =~= storage_iv());
    Ok(CipherJob { key, iv, ciphertext })
}

/// Prepares the decryption of a stored token; the texts that it is given are wiped.
pub fn decrypt_safe_storage(encrypted_b64: &mut String, password: &mut String) -> (r: Result<
    CipherJob,
    String,
>)
    ensures
        is_job_outcome(r, cipher_job_outcome(base64_bytes(old(encrypted_b64)@), old(password)@)),
        final(encrypted_b64)@.len() == 0,
        final(password)@.len() == 0,
{
    let stored: Result<Vec<u8>, String> = decode_base64(encrypted_b64.as_str());
    let job: Result<CipherJob, String> = cipher_job(stored, password.as_str());
    wipe_string(encrypted_b64);
    wipe_string(password);
    job
}

/// What the cipher's outcome amounts to: the part of the output that it filled, if its status
/// is 0.
pub open spec fn cipher_outcome(status: int, output: Seq<u8>, filled: nat) -> Result<
    Seq<u8>,
    Seq<char>,
> {
    if status != 0 {
        Err("CCCrypt failed: "@ + crate::decimal::signed_decimal(status))
    } else if filled < output.len() {
        Ok(output.take(filled as int))
    } else {
        Ok(output)
    }
}

/// The scheme gives back what it stored: whatever the cipher, if it decrypts what it encrypted,
/// then from the mark and the encryption of some bytes under the password's key the cipher is
/// asked for exactly those bytes, and its output amounts to them.
pub proof fn law_stored_bytes_are_decrypted(
    encrypt: spec_fn(Seq<u8>, Seq<u8>, Seq<u8>) -> Seq<u8>,
    decrypt: spec_fn(Seq<u8>, Seq<u8>, Seq<u8>) -> Seq<u8>,
    password: Seq<char>,
    plain: Seq<u8>,
    encrypted_b64: Seq<char>,
)
    requires
        forall|key: Seq<u8>, iv: Seq<u8>, bytes: Seq<u8>|
            decrypt(key, iv, #[trigger] encrypt(key, iv, bytes)) == bytes,
        base64_bytes(encrypted_b64) == Ok::<Seq<u8>, Seq<char>>(
            storage_mark() + encrypt(storage_key(password), storage_iv(), plain),
        ),
    ensures
        cipher_job_outcome(base64_bytes(encrypted_b64), password) matches Ok(job) && {
            &&& decrypt(job.key, job.iv, job.ciphertext) == plain
            &&& forall|output: Seq<u8>, filled: nat|
                filled <= output.len() && output.take(filled as int) == decrypt(
                    job.key,
                    job.iv,
                    job.ciphertext,
                ) ==> #[trigger] cipher_outcome(0, output, filled) == Ok::<Seq<u8>, Seq<char>>(
                    plain,
                )
        },
{
    let ciphertext = encrypt(storage_key(password), storage_iv(), plain);
    let stored = storage_mark() + ciphertext;
    assert(stored.take(3) =~= storage_mark());
    assert(stored.skip(3) =~= ciphertext);
    assert forall|output: Seq<u8>, filled: nat|
        filled <= output.len() && output.take(filled as int) == plain implies #[trigger] cipher_outcome(
        0,
        output,
        filled,
    ) == Ok::<Seq<u8>, Seq<char>>(plain) by {
        if filled == output.len() {
            assert(output.take(filled as int) =~= output);
        }
    }
}

/// What the cipher's buffer amounts to: its beginning, as long as the cipher says it is filled and
/// no longer than it is, exactly if the status is 0. Another status is named in the error.
pub proof fn law_filled_part_counts(status: int, output: Seq<u8>, filled: nat)
    ensures
        status == 0 ==> (cipher_outcome(status, output, filled) matches Ok(bytes)
            && bytes.is_prefix_of(output) && (filled <= output.len() ==> bytes.len() == filled) && (
        filled > output.len() ==> bytes == output)),
        status != 0 ==> cipher_outcome(status, output, filled) == Err::<Seq<u8>, Seq<char>>(
            "CCCrypt failed: "@ + crate::decimal::signed_decimal(status),
        ),
{
    if filled == output.len() {
        assert(output.take(filled as int) =~= output);
    }
    assert(output.take(output.len() as int) =~= output);
}

/// Takes the cipher's outcome. The key is wiped, and so is the output where the cipher failed.
pub fn finish_decrypt(
    job: &mut CipherJob,
    status: i32,
    output: &mut Vec<u8>,
    filled: usize,
) -> (r: Result<Vec<u8>, String>)
    ensures
        match cipher_outcome(status as int, old(output)@, filled as nat) {
            Ok(bytes) => r matches Ok(v) && v@ == bytes,
            Err(text) => r matches Err(e) && e@ == text,
        },
        final(output)@.len() == 0,
        final(job).key@.len() == 0,
        final(job).iv == old(job).iv,
        final(job).ciphertext == old(job).ciphertext,
{
    wipe_bytes(&mut job.key);
    if status != 0 {
        wipe_bytes(output);
        let mut e: String = "CCCrypt failed: ".to_owned();
        push_signed(&mut e, status);
        return Err(e);
    }
    let mut decrypted: Vec<u8> = Vec::new();
    std::mem::swap(&mut decrypted, output);
    decrypted.truncate(filled);
    Ok(decrypted)
}

/// The token in a decrypted document: that of the first member that has one.
pub open spec fn stored_token_outcome(document: Option<Seq<(Seq<char>, crate::json::MemberView)>>)
    -> Result<Seq<char>, Seq<char>> {
    let found = match document {
        Some(members) => crate::json::nested_string(members, "token"@),
        None => None,
    };
    match found {
        Some(s) => Ok(s),
        None => Err("no token found in decrypted data"@),
    }
}

/// The token in a decrypted document.
pub fn stored_token(document: &JsonDocument) -> (r: Result<String, String>)
    ensures
        crate::secret::is_text_outcome(r, stored_token_outcome(document@)),
{
    match document.nested("token") {
        Some(s) => Ok(s),
        None => Err("no token found in decrypted data".to_owned()),
    }
}

/// The token in a decrypted text.
pub open spec fn text_outcome(text: Seq<char>) -> Result<Seq<char>, Seq<char>> {
    match crate::json::json_document(text) {
        Ok(document) => stored_token_outcome(document),
        Err(why) => Err("parse decrypted JSON: "@ + why),
    }
}

/// The token in decrypted bytes.
pub open spec fn decrypted_outcome(decrypted: Seq<u8>) -> Result<Seq<char>, Seq<char>> {
    match crate::secret::decoded_text(decrypted, "UTF-8 decode: "@) {
        Ok(text) => text_outcome(text),
        Err(e) => Err(e),
    }
}

/// Where the token is found: in decrypted bytes that are the text of a JSON object, in the first
/// member that is an object with a string under `token`. Without one, what is wrong is said.
pub proof fn law_token_is_found(text: Seq<char>, token: Seq<char>)
    ensures
        decrypted_outcome(vstd::utf8::encode_utf8(text)) == Ok::<Seq<char>, Seq<char>>(token) <==> (
        crate::json::json_document(text) matches Ok(Some(members)) && crate::json::nested_string(
            members,
            "token"@,
        ) == Some(token)),
        crate::json::json_document(text) matches Err(why) ==> decrypted_outcome(
            vstd::utf8::encode_utf8(text),
        ) == Err::<Seq<char>, Seq<char>>("parse decrypted JSON: "@ + why),
        crate::json::json_document(text) matches Ok(None) ==> decrypted_outcome(
            vstd::utf8::encode_utf8(text),
        ) == Err::<Seq<char>, Seq<char>>("no token found in decrypted data"@),
        crate::json::json_document(text) matches Ok(Some(members)) && crate::json::nested_string(
            members,
            "token"@,
        ) is None ==> decrypted_outcome(vstd::utf8::encode_utf8(text)) == Err::<
            Seq<char>,
            Seq<char>,
        >("no token found in decrypted data"@),
{
    crate::secret::law_text_survives_bytes(text, Seq::empty(), "UTF-8 decode: "@);
}

/// Where the encrypted token is found: in a configuration that is a JSON object, as the string
/// under `oauth:tokenCache`. Without it, what is wrong is said.
pub proof fn law_encrypted_token_is_found(config: Seq<char>, encrypted: Seq<char>)
    ensures
        config_outcome(config) == Ok::<Seq<char>, Seq<char>>(encrypted) <==> (
        crate::json::json_document(config) matches Ok(document) && crate::json::document_string(
            document,
            "oauth:tokenCache"@,
        ) == Some(encrypted)),
        crate::json::json_document(config) matches Err(why) ==> config_outcome(config) == Err::<
            Seq<char>,
            Seq<char>,
        >("parse config.json: "@ + why),
        crate::json::json_document(config) matches Ok(document) && crate::json::document_string(
            document,
            "oauth:tokenCache"@,
        ) is None ==> config_outcome(config) == Err::<Seq<char>, Seq<char>>(
            "no oauth:tokenCache in config.json"@,
        ),
{
}

/// The token in a decrypted text, which is wiped.
pub fn token_in(text: &mut String) -> (r: Result<String, String>)
    ensures
        crate::secret::is_text_outcome(r, text_outcome(old(text)@)),
        final(text)@.len() == 0,
{
    let parsed: Result<JsonDocument, String> = parse_json(text.as_str());
    wipe_string(text);
    match parsed {
        Ok(document) => stored_token(&document),
        Err(why) => {
            let mut e: String = "parse decrypted JSON: ".to_owned();
            e.append(why.as_str());
            Err(e)
        },
    }
}

/// The token in decrypted bytes, which are wiped.
pub fn decrypted_token(decrypted: &mut Vec<u8>) -> (r: Result<String, String>)
    ensures
        crate::secret::is_text_outcome(r, decrypted_outcome(old(decrypted)@)),
        final(decrypted)@.len() == 0,
{
    match secret_text(decrypted, "UTF-8 decode: ") {
        Ok(text) => {
            let mut text: String = text;
            token_in(&mut text)
        },
        Err(e) => Err(e),
    }
}

/// The credentials as a document: an object that holds the token under `claudeAiOauth`, there
/// under `accessToken`.
pub open spec fn credentials_member(token: Seq<char>) -> crate::json::MemberView {
    crate::json::MemberView::Object(seq![("accessToken"@, Some(token))])
}

/// Whether a text is the credentials file of a token: it is written as one, and read as one.
pub open spec fn is_credentials(text: Seq<char>, token: Seq<char>) -> bool {
    &&& text == crate::json::single_member_text("claudeAiOauth"@, credentials_member(token))
    &&& crate::json::reads_as(text, "claudeAiOauth"@, credentials_member(token))
}

/// The token that a credentials file holds: the string under `accessToken` in the object under
/// `claudeAiOauth`.
pub open spec fn saved_token(text: Seq<char>) -> Option<Seq<char>> {
    match crate::json::json_document(text) {
        Ok(Some(members)) => match crate::json::member(members, "claudeAiOauth"@) {
            Some(crate::json::MemberView::Object(inner)) => crate::json::object_string(
                inner,
                "accessToken"@,
            ),
            _ => None,
        },
        _ => None,
    }
}

/// The credentials file of a token holds that token, and no other member.
pub proof fn law_saved_token_is_found(text: Seq<char>, token: Seq<char>)
    requires
        is_credentials(text, token),
    ensures
        saved_token(text) == Some(token),
        crate::json::json_document(text) matches Ok(Some(members)) && members.len() == 1,
{
    reveal_with_fuel(crate::json::member, 2);
    reveal_with_fuel(crate::json::object_string, 2);
}

/// The credentials file for a token, which is wiped.
pub fn credentials_json(token: &mut String) -> (r: String)
    ensures
        is_credentials(r@, old(token)@),
        final(token)@.len() == 0,
{
    let mut inner: Vec<(String, Option<String>)> = Vec::new();
    inner.push(("accessToken".to_owned(), Some(token.clone())));
    let value: JsonMember = JsonMember::Object(inner);
    assert(value@ == credentials_member(token@)) by {
        assert(value@->Object_0 =~= seq![("accessToken"@, Some(token@))]);
    }
    let text: String = write_single_member("claudeAiOauth", value);
    wipe_string(token);
    text
}

} // verus!
