//! Extracting the token: the keychain is asked for the password, the desktop application's
//! configuration is read, the cipher is run, and the token is written to the credentials file.

use crate::calls::{CipherOutput, ExtractCall, ExtractCalls, KeychainOutput};
use crate::paths::{claude_config_path, credentials_path};
use crate::product::{KeychainEntry, Product};
use crate::secret::wipe_string;
use crate::storage::{
    credentials_json, decrypt_safe_storage, decrypted_token, encrypted_token, finish_decrypt,
    keychain_password, CipherJob,
};
use vstd::prelude::*;

verus! {

/// Where an extraction stands.
pub enum ExtractState {
    /// The keychain is asked for the password.
    NeedPassword,
    /// The password is known, and the configuration is read.
    NeedConfig { password: Seq<char> },
    /// The cipher is run.
    NeedCipher { job: crate::storage::CipherJobView },
    /// The token was found, and is written.
    NeedWrite { token: Seq<char> },
    /// The token was written, or why it was not.
    Done(Result<(), Seq<char>>),
}

/// The desktop application's configuration, below a home directory.
#[verifier::opaque]
pub open spec fn config_file(product: Product, dir: Seq<u8>) -> Seq<u8> {
    crate::paths::joined(
        dir,
        crate::paths::text_bytes(crate::paths::in_desktop_dir(product.title@)),
    )
}

/// The credentials file, below a home directory.
#[verifier::opaque]
pub open spec fn credentials_file(product: Product, dir: Seq<u8>) -> Seq<u8> {
    crate::paths::joined(
        dir,
        crate::paths::text_bytes(
            crate::paths::in_product_dir(product.name@, "/.credentials.json"@),
        ),
    )
}

/// The password that the keychain's answer amounts to.
#[verifier::opaque]
pub open spec fn password_outcome(answer: Result<KeychainOutput, String>) -> Result<
    Seq<char>,
    Seq<char>,
> {
    match answer {
        Ok(given) => crate::storage::keychain_outcome(given.succeeded, given.stdout@),
        Err(why) => Err("security command failed: "@ + why@),
    }
}

/// What the configuration, or the failure to read it, asks of the cipher.
#[verifier::opaque]
pub open spec fn job_outcome(answer: Result<String, String>, password: Seq<char>) -> Result<
    crate::storage::CipherJobView,
    Seq<char>,
> {
    match answer {
        Ok(config) => match crate::storage::config_outcome(config@) {
            Ok(encrypted) => crate::storage::cipher_job_outcome(
                crate::storage::base64_bytes(encrypted),
                password,
            ),
            Err(e) => Err(e),
        },
        Err(why) => Err("read config.json: "@ + why@),
    }
}

/// The token that the cipher's outcome amounts to.
#[verifier::opaque]
pub open spec fn cipher_token(given: CipherOutput) -> Result<Seq<char>, Seq<char>> {
    match crate::storage::cipher_outcome(
        given.status as int,
        given.output@,
        given.filled as nat,
    ) {
        Ok(bytes) => crate::storage::decrypted_outcome(bytes),
        Err(e) => Err(e),
    }
}

/// What the cipher gave counts whole: the filled part of its buffer is read as a text and searched
/// for the token, and a failed cipher or a part that is no text is reported as such.
pub proof fn law_cipher_output_counts_whole(given: CipherOutput, text: Seq<char>)
    requires
        given.filled <= given.output@.len(),
    ensures
        given.status != 0 ==> cipher_token(given) == Err::<Seq<char>, Seq<char>>(
            "CCCrypt failed: "@ + crate::decimal::signed_decimal(given.status as int),
        ),
        given.status == 0 && given.output@.take(given.filled as int) == vstd::utf8::encode_utf8(
            text,
        ) ==> cipher_token(given) == crate::storage::text_outcome(text),
        given.status == 0 && !vstd::utf8::valid_utf8(given.output@.take(given.filled as int))
            ==> cipher_token(given) == Err::<Seq<char>, Seq<char>>(
            "UTF-8 decode: "@ + crate::secret::utf8_error_text(
                given.output@.take(given.filled as int),
            ),
        ),
{
    reveal(cipher_token);
    let bytes = given.output@.take(given.filled as int);
    if given.filled == given.output@.len() {
        assert(bytes =~= given.output@);
    }
    crate::secret::law_text_survives_bytes(text, bytes, "UTF-8 decode: "@);
}

/// Both files stand below the home directory, and under the names that the display and the desktop
/// application know them by.
pub proof fn law_extraction_files(product: Product, dir: Seq<u8>)
    requires
        dir.len() > 0,
    ensures
        dir.is_prefix_of(config_file(product, dir)),
        dir.is_prefix_of(credentials_file(product, dir)),
        vstd::utf8::encode_utf8(
            "Library/Application Support/"@ + product.title@ + "/config.json"@,
        ).is_suffix_of(config_file(product, dir)),
        vstd::utf8::encode_utf8("."@ + product.name@ + "/.credentials.json"@).is_suffix_of(
            credentials_file(product, dir),
        ),
        config_file(product, dir) != credentials_file(product, dir),
{
    reveal(config_file);
    reveal(credentials_file);
    crate::paths::law_one_separator(
        dir,
        crate::paths::text_bytes(crate::paths::in_desktop_dir(product.title@)),
    );
    crate::paths::law_one_separator(
        dir,
        crate::paths::text_bytes(
            crate::paths::in_product_dir(product.name@, "/.credentials.json"@),
        ),
    );
    crate::paths::law_files_are_distinct(dir, product);
}

impl ExtractState {
    /// Whether a call is the one that is due, whatever comes back.
    pub open spec fn is_due(
        self,
        product: Product,
        home: Option<Seq<u8>>,
        call: ExtractCall,
    ) -> bool {
        match (self, call) {
            (ExtractState::NeedPassword, ExtractCall::AskKeychain(entry, _)) => {
                &&& entry.service@ == product.title@ + " Safe Storage"@
                &&& entry.account@ == product.title@ + " Key"@
            },
            (ExtractState::NeedConfig { .. }, ExtractCall::ReadConfig(path, _)) => {
                home matches Some(dir) && path@ == config_file(product, dir)
            },
            (ExtractState::NeedCipher { job }, ExtractCall::Decrypt(asked, _)) => asked@ == job,
            (ExtractState::NeedWrite { token }, ExtractCall::WriteCredentials(path, text, _)) => {
                &&& home matches Some(dir) && path@ == credentials_file(product, dir)
                &&& crate::storage::is_credentials(text@, token)
            },
            _ => false,
        }
    }

    /// Where a call and its answer lead.
    pub open spec fn advanced(self, home: Option<Seq<u8>>, call: ExtractCall) -> ExtractState {
        match call {
            ExtractCall::AskKeychain(_, answer) => match password_outcome(answer) {
                Ok(password) => if home is Some {
                    ExtractState::NeedConfig { password }
                } else {
                    ExtractState::Done(Err("HOME is not set"@))
                },
                Err(e) => ExtractState::Done(Err(e)),
            },
            ExtractCall::ReadConfig(_, answer) => match job_outcome(answer, self->password) {
                Ok(job) => ExtractState::NeedCipher { job },
                Err(e) => ExtractState::Done(Err(e)),
            },
            ExtractCall::Decrypt(_, given) => match cipher_token(given) {
                Ok(token) => ExtractState::NeedWrite { token },
                Err(e) => ExtractState::Done(Err(e)),
            },
            ExtractCall::WriteCredentials(_, _, Ok(_)) => ExtractState::Done(Ok(())),
            ExtractCall::WriteCredentials(_, _, Err(why)) => ExtractState::Done(Err(why@)),
        }
    }
}

/// Where an extraction stands after a series of calls.
pub open spec fn extract_after(home: Option<Seq<u8>>, calls: Seq<ExtractCall>) -> ExtractState
    decreases calls.len(),
{
    if calls.len() == 0 {
        ExtractState::NeedPassword
    } else {
        extract_after(home, calls.drop_last()).advanced(home, calls.last())
    }
}

/// Whether each call was due when it was made.
pub open spec fn is_extraction(
    product: Product,
    home: Option<Seq<u8>>,
    calls: Seq<ExtractCall>,
) -> bool
    decreases calls.len(),
{
    calls.len() == 0 || {
        &&& is_extraction(product, home, calls.drop_last())
        &&& extract_after(home, calls.drop_last()).is_due(product, home, calls.last())
    }
}

/// The state tells how many calls there were, and of what kind the last was.
proof fn lemma_state_tells_calls(product: Product, home: Option<Seq<u8>>, calls: Seq<ExtractCall>)
    requires
        is_extraction(product, home, calls),
    ensures
        match extract_after(home, calls) {
            ExtractState::NeedPassword => calls.len() == 0,
            ExtractState::NeedConfig { .. } => calls.len() == 1 && home is Some,
            ExtractState::NeedCipher { .. } => calls.len() == 2 && home is Some,
            ExtractState::NeedWrite { token } => {
                &&& calls.len() == 3
                &&& home is Some
                &&& calls[2] matches ExtractCall::Decrypt(_, given) && cipher_token(given) == Ok::<
                    Seq<char>,
                    Seq<char>,
                >(token)
            },
            ExtractState::Done(_) => 0 < calls.len() <= 4,
        },
    decreases calls.len(),
{
    if calls.len() > 0 {
        lemma_state_tells_calls(product, home, calls.drop_last());
    }
}

/// The calls of an extraction, in order, and what each is given: the keychain's entry of the
/// product, the product's configuration below the home directory, and for the cipher exactly what
/// the password and the configuration before it amount to.
pub proof fn law_each_call_is_given_what_came_before(
    product: Product,
    home: Option<Seq<u8>>,
    calls: Seq<ExtractCall>,
)
    requires
        is_extraction(product, home, calls),
    ensures
        calls.len() <= 4,
        calls.len() > 0 ==> {
            &&& calls[0] matches ExtractCall::AskKeychain(entry, _)
            &&& entry.service@ == product.title@ + " Safe Storage"@
            &&& entry.account@ == product.title@ + " Key"@
        },
        calls.len() > 1 ==> {
            &&& home is Some
            &&& calls[0] matches ExtractCall::AskKeychain(_, Ok(given))
            &&& crate::storage::keychain_outcome(given.succeeded, given.stdout@) is Ok
            &&& calls[1] matches ExtractCall::ReadConfig(path, _)
            &&& path@ == config_file(product, home->0)
        },
        calls.len() > 2 ==> {
            &&& calls[0] matches ExtractCall::AskKeychain(_, Ok(given))
            &&& calls[1] matches ExtractCall::ReadConfig(_, Ok(config))
            &&& calls[2] matches ExtractCall::Decrypt(job, _)
            &&& crate::storage::config_outcome(config@) is Ok
            &&& crate::storage::cipher_job_outcome(
                crate::storage::base64_bytes(crate::storage::config_outcome(config@)->Ok_0),
                crate::storage::keychain_outcome(given.succeeded, given.stdout@)->Ok_0,
            ) == Ok::<crate::storage::CipherJobView, Seq<char>>(job@)
        },
        calls.len() > 3 ==> calls[3] is WriteCredentials,
    decreases calls.len(),
{
    reveal(password_outcome);
    reveal(job_outcome);
    lemma_state_tells_calls(product, home, calls);
    if calls.len() > 0 {
        let before = calls.drop_last();
        law_each_call_is_given_what_came_before(product, home, before);
        lemma_state_tells_calls(product, home, before);
        assert forall|i: int| 0 <= i < before.len() implies #[trigger] before[i] == calls[i] by {}
        if before.len() > 0 {
            assert(before[0] == calls[0]);
        }
        if before.len() > 1 {
            assert(before[1] == calls[1]);
        }
        if before.len() > 2 {
            assert(before[2] == calls[2]);
        }
        if before.len() == 1 || before.len() == 2 {
            lemma_state_holds_outcome(home, before);
        }
    }
}

/// The password that a state holds is the one that the first call gave, and the cipher's job that
/// of the second.
proof fn lemma_state_holds_outcome(home: Option<Seq<u8>>, calls: Seq<ExtractCall>)
    requires
        calls.len() == 1 || calls.len() == 2,
        calls[0] is AskKeychain,
        calls.len() == 2 ==> calls[1] is ReadConfig && extract_after(home, calls.take(1))
            is NeedConfig,
    ensures
        extract_after(home, calls) matches ExtractState::NeedConfig { password } ==> calls.len()
            == 1 && password_outcome(calls[0]->AskKeychain_1) == Ok::<Seq<char>, Seq<char>>(
            password,
        ) && home is Some,
        extract_after(home, calls) matches ExtractState::NeedCipher { job } ==> calls.len() == 2
            && password_outcome(calls[0]->AskKeychain_1) is Ok && job_outcome(
            calls[1]->ReadConfig_1,
            password_outcome(calls[0]->AskKeychain_1)->Ok_0,
        ) == Ok::<crate::storage::CipherJobView, Seq<char>>(job),
{
    reveal_with_fuel(extract_after, 3);
    if calls.len() == 2 {
        assert(calls.drop_last() =~= calls.take(1));
        assert(calls.take(1).drop_last() =~= Seq::<ExtractCall>::empty());
        assert(calls.take(1).last() == calls[0]);
    } else {
        assert(calls.drop_last() =~= Seq::<ExtractCall>::empty());
    }
}

/// Why an extraction stops short: the keychain command could not be run or gave no password, the
/// home directory is not known, the configuration could not be read or has no usable data, the
/// cipher's outcome has no token, or the write failed. Each reason is reported as it is.
pub proof fn law_reason_is_reported(
    product: Product,
    home: Option<Seq<u8>>,
    calls: Seq<ExtractCall>,
    call: ExtractCall,
)
    requires
        is_extraction(product, home, calls.push(call)),
    ensures
        ({
            let next = extract_after(home, calls.push(call));
            &&& call matches ExtractCall::AskKeychain(_, Err(e)) ==> next == ExtractState::Done(
                Err("security command failed: "@ + e@),
            )
            &&& call matches ExtractCall::AskKeychain(_, Ok(given)) ==> match crate::storage::keychain_outcome(
                given.succeeded,
                given.stdout@,
            ) {
                Err(e) => next == ExtractState::Done(Err(e)),
                Ok(password) => if home is None {
                    next == ExtractState::Done(Err("HOME is not set"@))
                } else {
                    next == ExtractState::NeedConfig { password }
                },
            }
            &&& call matches ExtractCall::ReadConfig(_, Err(e)) ==> next == ExtractState::Done(
                Err("read config.json: "@ + e@),
            )
            &&& call matches ExtractCall::ReadConfig(_, Ok(config)) ==> (
            crate::storage::config_outcome(config@) matches Err(e) ==> next == ExtractState::Done(
                Err(e),
            ))
            &&& call matches ExtractCall::Decrypt(_, given) ==> (cipher_token(given) matches Err(e)
                ==> next == ExtractState::Done(Err(e)))
            &&& call matches ExtractCall::WriteCredentials(_, _, Err(e)) ==> next
                == ExtractState::Done(Err(e@))
            &&& call matches ExtractCall::WriteCredentials(_, _, Ok(_)) ==> next
                == ExtractState::Done(Ok(()))
        }),
{
    reveal(password_outcome);
    reveal(job_outcome);
    assert(calls.push(call).drop_last() =~= calls);
}

/// The credentials file is written at most once, as the fourth and last call, only after the
/// decrypted data was found to hold a token, and with that token: whoever reads the file finds it.
pub proof fn law_write_follows_token(
    product: Product,
    home: Option<Seq<u8>>,
    calls: Seq<ExtractCall>,
    i: int,
)
    requires
        is_extraction(product, home, calls),
        0 <= i < calls.len(),
        calls[i] is WriteCredentials,
    ensures
        i == 3,
        calls.len() == 4,
        calls[2] matches ExtractCall::Decrypt(_, given) && cipher_token(given) matches Ok(token)
            && calls[3] matches ExtractCall::WriteCredentials(path, text, _) && {
            &&& home matches Some(dir) && path@ == credentials_file(product, dir)
            &&& crate::storage::is_credentials(text@, token)
            &&& crate::storage::saved_token(text@) == Some(token)
        },
    decreases calls.len(),
{
    let before = calls.drop_last();
    lemma_state_tells_calls(product, home, before);
    lemma_state_tells_calls(product, home, calls);
    if i < before.len() {
        law_write_follows_token(product, home, before, i);
        assert(before.drop_last().len() == 3);
        assert(false);
    } else if let ExtractCall::WriteCredentials(_, text, _) = calls[i] {
        let token = extract_after(home, before)->token;
        assert(before[2] == calls[2]);
        crate::storage::law_saved_token_is_found(text@, token);
    }
}

/// A failed extraction leaves the credentials file as it was: nothing was written, unless the
/// write itself is what failed.
pub proof fn law_failed_extraction_writes_nothing(
    product: Product,
    home: Option<Seq<u8>>,
    calls: Seq<ExtractCall>,
    why: Seq<char>,
)
    requires
        is_extraction(product, home, calls),
        extract_after(home, calls) == ExtractState::Done(Err(why)),
    ensures
        forall|i: int|
            0 <= i < calls.len() && #[trigger] calls[i] is WriteCredentials ==> {
                &&& i == calls.len() - 1
                &&& calls[i] matches ExtractCall::WriteCredentials(_, _, Err(e)) && e@ == why
            },
{
    assert forall|i: int| 0 <= i < calls.len() && #[trigger] calls[i] is WriteCredentials implies {
        &&& i == calls.len() - 1
        &&& calls[i] matches ExtractCall::WriteCredentials(_, _, Err(e)) && e@ == why
    } by {
        law_write_follows_token(product, home, calls, i);
        assert(calls.last() == calls[i]);
    }
}

/// Decrypted data that is a JSON document decides: with a token in it that token is written, and
/// the extraction succeeds if the write does; without one it fails and says so.
pub proof fn law_token_decides(
    product: Product,
    home: Option<Seq<u8>>,
    calls: Seq<ExtractCall>,
    bytes: Seq<u8>,
    document: Option<Seq<(Seq<char>, crate::json::MemberView)>>,
)
    requires
        is_extraction(product, home, calls),
        calls.len() > 0,
        calls.last() matches ExtractCall::Decrypt(_, given) && crate::storage::cipher_outcome(
            given.status as int,
            given.output@,
            given.filled as nat,
        ) == Ok::<Seq<u8>, Seq<char>>(bytes),
        vstd::utf8::valid_utf8(bytes),
        crate::json::json_document(vstd::utf8::decode_utf8(bytes)) == Ok::<
            Option<Seq<(Seq<char>, crate::json::MemberView)>>,
            Seq<char>,
        >(document),
    ensures
        match document {
            Some(members) => match crate::json::nested_string(members, "token"@) {
                Some(token) => {
                    &&& extract_after(home, calls) == ExtractState::NeedWrite { token }
                    &&& forall|write: ExtractCall|
                        is_extraction(product, home, #[trigger] calls.push(write))
                            && write is WriteCredentials ==> {
                            &&& crate::storage::saved_token(write->WriteCredentials_1@) == Some(
                                token,
                            )
                            &&& extract_after(home, calls.push(write)) == ExtractState::Done(
                                Ok(()),
                            ) <==> write->WriteCredentials_2 is Ok
                        }
                },
                None => extract_after(home, calls) == ExtractState::Done(
                    Err("no token found in decrypted data"@),
                ),
            },
            None => extract_after(home, calls) == ExtractState::Done(
                Err("no token found in decrypted data"@),
            ),
        },
{
    reveal(cipher_token);
    if let Some(members) = document {
        if let Some(token) = crate::json::nested_string(members, "token"@) {
            assert forall|write: ExtractCall|
                is_extraction(product, home, #[trigger] calls.push(write))
                    && write is WriteCredentials implies {
                &&& crate::storage::saved_token(write->WriteCredentials_1@) == Some(token)
                &&& extract_after(home, calls.push(write)) == ExtractState::Done(Ok(()))
                    <==> write->WriteCredentials_2 is Ok
            } by {
                assert(calls.push(write).drop_last() =~= calls);
                crate::storage::law_saved_token_is_found(write->WriteCredentials_1@, token);
            }
        }
    }
}

/// Whether the callbacks may answer a call as it records.
pub open spec fn is_extract_answer<
    K: FnMut(&KeychainEntry) -> Result<KeychainOutput, String>,
    R: FnMut(&Vec<u8>) -> Result<String, String>,
    D: FnMut(&CipherJob) -> CipherOutput,
    W: FnMut(&Vec<u8>, &String) -> Result<(), String>,
>(call: ExtractCall, callbacks: ExtractCalls<K, R, D, W>) -> bool {
    match call {
        ExtractCall::AskKeychain(entry, r) => call_ensures(callbacks.asker(), (&entry,), r),
        ExtractCall::ReadConfig(path, r) => call_ensures(callbacks.reader(), (&path,), r),
        ExtractCall::Decrypt(job, r) => call_ensures(callbacks.decrypter(), (&job,), r),
        ExtractCall::WriteCredentials(path, text, r) => call_ensures(
            callbacks.writer(),
            (&path, &text),
            r,
        ),
    }
}

/// Whether the callbacks may give the answers that a series of calls records.
pub open spec fn is_extracted_by<
    K: FnMut(&KeychainEntry) -> Result<KeychainOutput, String>,
    R: FnMut(&Vec<u8>) -> Result<String, String>,
    D: FnMut(&CipherJob) -> CipherOutput,
    W: FnMut(&Vec<u8>, &String) -> Result<(), String>,
>(calls: Seq<ExtractCall>, callbacks: ExtractCalls<K, R, D, W>) -> bool {
    forall|i: int| 0 <= i < calls.len() ==> is_extract_answer(#[trigger] calls[i], callbacks)
}

/// Whether the callbacks can be called, whatever they are asked.
pub open spec fn are_callable<
    K: FnMut(&KeychainEntry) -> Result<KeychainOutput, String>,
    R: FnMut(&Vec<u8>) -> Result<String, String>,
    D: FnMut(&CipherJob) -> CipherOutput,
    W: FnMut(&Vec<u8>, &String) -> Result<(), String>,
>(callbacks: ExtractCalls<K, R, D, W>) -> bool {
    &&& forall|entry: &KeychainEntry| #[trigger] call_requires(callbacks.asker(), (entry,))
    &&& forall|path: &Vec<u8>| #[trigger] call_requires(callbacks.reader(), (path,))
    &&& forall|job: &CipherJob| #[trigger] call_requires(callbacks.decrypter(), (job,))
    &&& forall|path: &Vec<u8>, text: &String| #[trigger]
        call_requires(callbacks.writer(), (path, text))
}

/// Whether a series of calls is what an extraction made, given the callbacks before and after it,
/// and ends with the given result.
pub open spec fn is_extracted<
    K: FnMut(&KeychainEntry) -> Result<KeychainOutput, String>,
    R: FnMut(&Vec<u8>) -> Result<String, String>,
    D: FnMut(&CipherJob) -> CipherOutput,
    W: FnMut(&Vec<u8>, &String) -> Result<(), String>,
>(
    product: Product,
    home: Option<Seq<u8>>,
    calls: Seq<ExtractCall>,
    before: ExtractCalls<K, R, D, W>,
    after: ExtractCalls<K, R, D, W>,
    r: Result<Vec<u8>, String>,
) -> bool {
    &&& is_extraction(product, home, calls)
    &&& is_extracted_by(calls, before)
    &&& after.calls() == before.calls() + calls
    &&& match extract_after(home, calls) {
        ExtractState::Done(Ok(_)) => r matches Ok(path) && home matches Some(dir) && path@
            == credentials_file(product, dir),
        ExtractState::Done(Err(why)) => r matches Err(e) && e@ == why,
        _ => false,
    }
}

/// Writes the credentials; the text is wiped.
fn write_and_wipe<K, R, D, W>(
    callbacks: &mut ExtractCalls<K, R, D, W>,
    path: &Vec<u8>,
    text: &mut String,
) -> (r: Result<(), String>) where
    K: FnMut(&KeychainEntry) -> Result<KeychainOutput, String>,
    R: FnMut(&Vec<u8>) -> Result<String, String>,
    D: FnMut(&CipherJob) -> CipherOutput,
    W: FnMut(&Vec<u8>, &String) -> Result<(), String>,

    requires
        call_requires(old(callbacks).writer(), (path, &*old(text))),
    ensures
        final(callbacks).same_callbacks(*old(callbacks)),
        final(callbacks).calls() == old(callbacks).calls().push(
            ExtractCall::WriteCredentials(*path, *old(text), r),
        ),
        call_ensures(old(callbacks).writer(), (path, &*old(text)), r),
        final(text)@.len() == 0,
{
    let r: Result<(), String> = callbacks.write_credentials(path, text);
    wipe_string(text);
    r
}

/// A message behind a text that says what failed.
fn failure(what: &str, why: String) -> (r: String)
    ensures
        r@ == what@ + why@,
{
    let mut e: String = what.to_owned();
    e.append(why.as_str());
    e
}

/// The password that the keychain's answer amounts to; what it wrote is wiped.
fn password_from(answer: Result<KeychainOutput, String>) -> (r: Result<String, String>)
    ensures
        crate::secret::is_text_outcome(r, password_outcome(answer)),
{
    reveal(password_outcome);
    match answer {
        Ok(given) => {
            let mut given: KeychainOutput = given;
            keychain_password(given.succeeded, &mut given.stdout, &mut given.stderr)
        },
        Err(why) => Err(failure("security command failed: ", why)),
    }
}

/// What the configuration asks of the cipher; the password is wiped.
fn job_from(answer: Result<String, String>, password: &mut String) -> (r: Result<CipherJob, String>)
    ensures
        crate::storage::is_job_outcome(r, job_outcome(answer, old(password)@)),
        final(password)@.len() == 0,
{
    reveal(job_outcome);
    let encrypted: Result<String, String> = match answer {
        Ok(config) => {
            let mut config: String = config;
            encrypted_token(&mut config)
        },
        Err(why) => Err(failure("read config.json: ", why)),
    };
    match encrypted {
        Ok(encrypted) => {
            let mut encrypted: String = encrypted;
            decrypt_safe_storage(&mut encrypted, password)
        },
        Err(e) => {
            wipe_string(password);
            Err(e)
        },
    }
}

/// The token that the cipher's outcome amounts to; the key and the output are wiped.
fn token_from(job: &mut CipherJob, out: &mut CipherOutput) -> (r: Result<String, String>)
    ensures
        crate::secret::is_text_outcome(r, cipher_token(*old(out))),
        final(job).key@.len() == 0,
        final(out).output@.len() == 0,
{
    reveal(cipher_token);
    match finish_decrypt(job, out.status, &mut out.output, out.filled) {
        Ok(decrypted) => {
            let mut decrypted: Vec<u8> = decrypted;
            decrypted_token(&mut decrypted)
        },
        Err(e) => Err(e),
    }
}

/// The paths of the configuration and of the credentials file.
fn extraction_paths(product: &Product, home_var: Option<Vec<u8>>) -> (r: Result<
    (Vec<u8>, Vec<u8>),
    String,
>)
    ensures
        match crate::paths::home_dir(home_var) {
            Some(dir) => r matches Ok((config, credentials)) && config@ == config_file(
                *product,
                dir,
            ) && credentials@ == credentials_file(*product, dir),
            None => r matches Err(e) && e@ == "HOME is not set"@,
        },
{
    reveal(config_file);
    reveal(credentials_file);
    let home_again: Option<Vec<u8>> = match &home_var {
        Some(dir) => Some(dir.clone()),
        None => None,
    };
    assert(crate::paths::home_dir(home_again) == crate::paths::home_dir(home_var)) by {
        if let (Some(a), Some(b)) = (home_again, home_var) {
            assert(a@ =~= b@);
        }
    }
    match (claude_config_path(product, home_again), credentials_path(product, home_var)) {
        (Ok(config), Ok(credentials)) => Ok((config, credentials)),
        (Err(e), _) => Err(e),
        (_, Err(e)) => Err(e),
    }
}

/// Appends a call that was due and answered to a series of such calls.
proof fn lemma_next_call<K, R, D, W>(
    product: Product,
    home: Option<Seq<u8>>,
    calls: Seq<ExtractCall>,
    call: ExtractCall,
    callbacks: ExtractCalls<K, R, D, W>,
) where
    K: FnMut(&KeychainEntry) -> Result<KeychainOutput, String>,
    R: FnMut(&Vec<u8>) -> Result<String, String>,
    D: FnMut(&CipherJob) -> CipherOutput,
    W: FnMut(&Vec<u8>, &String) -> Result<(), String>,

    requires
        is_extraction(product, home, calls),
        is_extracted_by(calls, callbacks),
        extract_after(home, calls).is_due(product, home, call),
        is_extract_answer(call, callbacks),
    ensures
        is_extraction(product, home, calls.push(call)),
        is_extracted_by(calls.push(call), callbacks),
        extract_after(home, calls.push(call)) == extract_after(home, calls).advanced(home, call),
{
    assert(calls.push(call).drop_last() =~= calls);
}

/// Extracts the token and saves it. The result is the path of the credentials file.
///
/// The calls that are made are exactly those of an extraction, each once and in order, and their
/// answers decide how it ends. Each step wipes the secrets that it is given.
pub fn extract_token<K, R, D, W>(
    product: &Product,
    home_var: Option<Vec<u8>>,
    callbacks: &mut ExtractCalls<K, R, D, W>,
) -> (r: Result<Vec<u8>, String>) where
    K: FnMut(&KeychainEntry) -> Result<KeychainOutput, String>,
    R: FnMut(&Vec<u8>) -> Result<String, String>,
    D: FnMut(&CipherJob) -> CipherOutput,
    W: FnMut(&Vec<u8>, &String) -> Result<(), String>,

    requires
        are_callable(*old(callbacks)),
    ensures
        final(callbacks).same_callbacks(*old(callbacks)),
        exists|calls: Seq<ExtractCall>| #[trigger]
            is_extracted(
                *product,
                crate::paths::home_dir(home_var),
                calls,
                *old(callbacks),
                *final(callbacks),
                r,
            ),
{
    let ghost home = crate::paths::home_dir(home_var);
    let ghost start = *callbacks;
    let ghost none = Seq::<ExtractCall>::empty();

    let entry: KeychainEntry = product.keychain_entry();
    let asked: Result<KeychainOutput, String> = callbacks.ask_keychain(&entry);
    let ghost one = none.push(ExtractCall::AskKeychain(entry, asked));
    proof {
        lemma_next_call(*product, home, none, ExtractCall::AskKeychain(entry, asked), start);
        assert(callbacks.calls() =~= start.calls() + one);
    }
    let mut password: String = match password_from(asked) {
        Ok(password) => password,
        Err(e) => {
            let r: Result<Vec<u8>, String> = Err(e);
            assert(is_extracted(*product, home, one, start, *callbacks, r));
            return r;
        },
    };
    let (config_path, path): (Vec<u8>, Vec<u8>) = match extraction_paths(product, home_var) {
        Ok(paths) => paths,
        Err(e) => {
            wipe_string(&mut password);
            let r: Result<Vec<u8>, String> = Err(e);
            assert(is_extracted(*product, home, one, start, *callbacks, r));
            return r;
        },
    };

    let read: Result<String, String> = callbacks.read_config(&config_path);
    let ghost two = one.push(ExtractCall::ReadConfig(config_path, read));
    proof {
        lemma_next_call(*product, home, one, ExtractCall::ReadConfig(config_path, read), start);
        assert(callbacks.calls() =~= start.calls() + two);
    }
    let mut job: CipherJob = match job_from(read, &mut password) {
        Ok(job) => job,
        Err(e) => {
            let r: Result<Vec<u8>, String> = Err(e);
            assert(is_extracted(*product, home, two, start, *callbacks, r));
            return r;
        },
    };

    let mut out: CipherOutput = callbacks.decrypt(&job);
    let ghost three = two.push(ExtractCall::Decrypt(job, out));
    proof {
        lemma_next_call(*product, home, two, ExtractCall::Decrypt(job, out), start);
        assert(callbacks.calls() =~= start.calls() + three);
    }
    let mut token: String = match token_from(&mut job, &mut out) {
        Ok(token) => token,
        Err(e) => {
            let r: Result<Vec<u8>, String> = Err(e);
            assert(is_extracted(*product, home, three, start, *callbacks, r));
            return r;
        },
    };

    let mut text: String = credentials_json(&mut token);
    let ghost written_text = text;
    let written: Result<(), String> = write_and_wipe(callbacks, &path, &mut text);
    let ghost four = three.push(ExtractCall::WriteCredentials(path, written_text, written));
    proof {
        let call = ExtractCall::WriteCredentials(path, written_text, written);
        lemma_next_call(*product, home, three, call, start);
        assert(callbacks.calls() =~= start.calls() + four);
    }
    let r: Result<Vec<u8>, String> = match written {
        Ok(_) => Ok(path),
        Err(e) => Err(e),
    };
    assert(is_extracted(*product, home, four, start, *callbacks, r));
    r
}

} // verus!
