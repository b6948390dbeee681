//! The callbacks that act on the outside world, with a record of every call.
//!
//! The callbacks are private to this module: whoever holds them can call them only here, and each
//! call adds to the record. A contract that fixes the record therefore fixes which calls are made,
//! in what order and how often.

use crate::product::KeychainEntry;
use crate::show::{ShowAction, ShowEvent};
use crate::storage::CipherJob;
use vstd::prelude::*;

verus! {

/// A call that waiting for the lock makes, with the number of the attempt and what came back.
pub enum WaitCall<C> {
    TryLock(u32, bool),
    LoadCache(u32, Option<C>),
    Sleep(u32),
}

/// What waiting for the lock needs from outside. Each callback is given the number of the attempt,
/// from 0.
pub struct WaitCalls<C, F, L, S> {
    try_lock: F,
    load_cache: L,
    sleep: S,
    record: Ghost<Seq<WaitCall<C>>>,
}

impl<C, F: FnMut(u32) -> bool, L: FnMut(u32) -> Option<C>, S: FnMut(u32)> WaitCalls<C, F, L, S> {
    /// Tries to take the lock without blocking.
    pub closed spec fn locker(self) -> F {
        self.try_lock
    }

    /// Looks for a fresh cache.
    pub closed spec fn loader(self) -> L {
        self.load_cache
    }

    /// Pauses.
    pub closed spec fn sleeper(self) -> S {
        self.sleep
    }

    /// The calls made so far, in order.
    pub closed spec fn calls(self) -> Seq<WaitCall<C>> {
        self.record@
    }

    /// Whether two values hold the same callbacks.
    pub open spec fn same_callbacks(self, other: Self) -> bool {
        &&& self.locker() == other.locker()
        &&& self.loader() == other.loader()
        &&& self.sleeper() == other.sleeper()
    }

    /// Callbacks of which none was called yet.
    pub fn new(try_lock: F, load_cache: L, sleep: S) -> (r: Self)
        ensures
            r.locker() == try_lock,
            r.loader() == load_cache,
            r.sleeper() == sleep,
            r.calls() == Seq::<WaitCall<C>>::empty(),
    {
        WaitCalls { try_lock, load_cache, sleep, record: Ghost(Seq::empty()) }
    }

    /// Tries to take the lock.
    pub fn try_lock(&mut self, attempt: u32) -> (r: bool)
        requires
            call_requires(old(self).locker(), (attempt,)),
        ensures
            final(self).same_callbacks(*old(self)),
            final(self).calls() == old(self).calls().push(WaitCall::TryLock(attempt, r)),
            call_ensures(old(self).locker(), (attempt,), r),
    {
        let r: bool = (self.try_lock)(attempt);
        self.record = Ghost(self.record@.push(WaitCall::TryLock(attempt, r)));
        r
    }

    /// Looks for a fresh cache.
    pub fn load_cache(&mut self, attempt: u32) -> (r: Option<C>)
        requires
            call_requires(old(self).loader(), (attempt,)),
        ensures
            final(self).same_callbacks(*old(self)),
            final(self).calls() == old(self).calls().push(WaitCall::LoadCache(attempt, r)),
            call_ensures(old(self).loader(), (attempt,), r),
    {
        let r: Option<C> = (self.load_cache)(attempt);
        self.record = Ghost(self.record@.push(WaitCall::LoadCache(attempt, r)));
        r
    }

    /// Pauses.
    pub fn sleep(&mut self, attempt: u32)
        requires
            call_requires(old(self).sleeper(), (attempt,)),
        ensures
            final(self).same_callbacks(*old(self)),
            final(self).calls() == old(self).calls().push(WaitCall::Sleep(attempt)),
            call_ensures(old(self).sleeper(), (attempt,), ()),
    {
        (self.sleep)(attempt);
        self.record = Ghost(self.record@.push(WaitCall::Sleep(attempt)));
    }
}

/// A call that looking for data makes: an action with its answer, or data to be saved.
pub enum ShowCall<C> {
    Perform(ShowAction, ShowEvent<C>),
    Save(C),
}

/// What looking for data needs from outside: one callback carries out an action and says what
/// came of it, the other writes data to the cache.
pub struct ShowCalls<C, P, S> {
    perform: P,
    save: S,
    record: Ghost<Seq<ShowCall<C>>>,
}

impl<C, P: FnMut(ShowAction) -> ShowEvent<C>, S: FnMut(&C)> ShowCalls<C, P, S> {
    /// Carries out an action.
    pub closed spec fn performer(self) -> P {
        self.perform
    }

    /// Writes data to the cache.
    pub closed spec fn saver(self) -> S {
        self.save
    }

    /// The calls made so far, in order.
    pub closed spec fn calls(self) -> Seq<ShowCall<C>> {
        self.record@
    }

    /// Whether two values hold the same callbacks.
    pub open spec fn same_callbacks(self, other: Self) -> bool {
        &&& self.performer() == other.performer()
        &&& self.saver() == other.saver()
    }

    /// Callbacks of which none was called yet.
    pub fn new(perform: P, save: S) -> (r: Self)
        ensures
            r.performer() == perform,
            r.saver() == save,
            r.calls() == Seq::<ShowCall<C>>::empty(),
    {
        ShowCalls { perform, save, record: Ghost(Seq::empty()) }
    }

    /// Carries out an action.
    pub fn perform(&mut self, action: ShowAction) -> (r: ShowEvent<C>)
        requires
            call_requires(old(self).performer(), (action,)),
        ensures
            final(self).same_callbacks(*old(self)),
            final(self).calls() == old(self).calls().push(ShowCall::Perform(action, r)),
            call_ensures(old(self).performer(), (action,), r),
    {
        let r: ShowEvent<C> = (self.perform)(action);
        self.record = Ghost(self.record@.push(ShowCall::Perform(action, r)));
        r
    }

    /// Writes data to the cache.
    pub fn save(&mut self, data: &C)
        requires
            call_requires(old(self).saver(), (data,)),
        ensures
            final(self).same_callbacks(*old(self)),
            final(self).calls() == old(self).calls().push(ShowCall::Save(*data)),
            call_ensures(old(self).saver(), (data,), ()),
    {
        (self.save)(data);
        self.record = Ghost(self.record@.push(ShowCall::Save(*data)));
    }
}

/// What the command that asks the keychain for a password gave.
pub struct KeychainOutput {
    pub succeeded: bool,
    pub stdout: Vec<u8>,
    pub stderr: Vec<u8>,
}

/// What the cipher gave: its status, its buffer, and how much of it is filled.
pub struct CipherOutput {
    pub status: i32,
    pub output: Vec<u8>,
    pub filled: usize,
}

/// A call that extracting the token makes, with what came back.
pub enum ExtractCall {
    AskKeychain(KeychainEntry, Result<KeychainOutput, String>),
    ReadConfig(Vec<u8>, Result<String, String>),
    Decrypt(CipherJob, CipherOutput),
    WriteCredentials(Vec<u8>, String, Result<(), String>),
}

/// What extracting the token needs from outside: one callback asks the keychain, one reads the
/// file at a path, one runs the cipher, and one writes a text to the file at a path.
pub struct ExtractCalls<K, R, D, W> {
    ask: K,
    read: R,
    decrypt: D,
    write: W,
    record: Ghost<Seq<ExtractCall>>,
}

impl<
    K: FnMut(&KeychainEntry) -> Result<KeychainOutput, String>,
    R: FnMut(&Vec<u8>) -> Result<String, String>,
    D: FnMut(&CipherJob) -> CipherOutput,
    W: FnMut(&Vec<u8>, &String) -> Result<(), String>,
> ExtractCalls<K, R, D, W> {
    /// Asks the keychain.
    pub closed spec fn asker(self) -> K {
        self.ask
    }

    /// Reads a file.
    pub closed spec fn reader(self) -> R {
        self.read
    }

    /// Runs the cipher.
    pub closed spec fn decrypter(self) -> D {
        self.decrypt
    }

    /// Writes a file.
    pub closed spec fn writer(self) -> W {
        self.write
    }

    /// The calls made so far, in order.
    pub closed spec fn calls(self) -> Seq<ExtractCall> {
        self.record@
    }

    /// Whether two values hold the same callbacks.
    pub open spec fn same_callbacks(self, other: Self) -> bool {
        &&& self.asker() == other.asker()
        &&& self.reader() == other.reader()
        &&& self.decrypter() == other.decrypter()
        &&& self.writer() == other.writer()
    }

    /// Callbacks of which none was called yet.
    pub fn new(ask: K, read: R, decrypt: D, write: W) -> (r: Self)
        ensures
            r.asker() == ask,
            r.reader() == read,
            r.decrypter() == decrypt,
            r.writer() == write,
            r.calls() == Seq::<ExtractCall>::empty(),
    {
        ExtractCalls { ask, read, decrypt, write, record: Ghost(Seq::empty()) }
    }

    /// Asks the keychain.
    pub fn ask_keychain(&mut self, entry: &KeychainEntry) -> (r: Result<KeychainOutput, String>)
        requires
            call_requires(old(self).asker(), (entry,)),
        ensures
            final(self).same_callbacks(*old(self)),
            final(self).calls() == old(self).calls().push(ExtractCall::AskKeychain(*entry, r)),
            call_ensures(old(self).asker(), (entry,), r),
    {
        let r: Result<KeychainOutput, String> = (self.ask)(entry);
        self.record = Ghost(self.record@.push(ExtractCall::AskKeychain(*entry, r)));
        r
    }

    /// Reads the configuration.
    pub fn read_config(&mut self, path: &Vec<u8>) -> (r: Result<String, String>)
        requires
            call_requires(old(self).reader(), (path,)),
        ensures
            final(self).same_callbacks(*old(self)),
            final(self).calls() == old(self).calls().push(ExtractCall::ReadConfig(*path, r)),
            call_ensures(old(self).reader(), (path,), r),
    {
        let r: Result<String, String> = (self.read)(path);
        self.record = Ghost(self.record@.push(ExtractCall::ReadConfig(*path, r)));
        r
    }

    /// Runs the cipher.
    pub fn decrypt(&mut self, job: &CipherJob) -> (r: CipherOutput)
        requires
            call_requires(old(self).decrypter(), (job,)),
        ensures
            final(self).same_callbacks(*old(self)),
            final(self).calls() == old(self).calls().push(ExtractCall::Decrypt(*job, r)),
            call_ensures(old(self).decrypter(), (job,), r),
    {
        let r: CipherOutput = (self.decrypt)(job);
        self.record = Ghost(self.record@.push(ExtractCall::Decrypt(*job, r)));
        r
    }

    /// Writes the credentials.
    pub fn write_credentials(&mut self, path: &Vec<u8>, text: &String) -> (r: Result<(), String>)
        requires
            call_requires(old(self).writer(), (path, text)),
        ensures
            final(self).same_callbacks(*old(self)),
            final(self).calls() == old(self).calls().push(
                ExtractCall::WriteCredentials(*path, *text, r),
            ),
            call_ensures(old(self).writer(), (path, text), r),
    {
        let r: Result<(), String> = (self.write)(path, text);
        self.record = Ghost(self.record@.push(ExtractCall::WriteCredentials(*path, *text, r)));
        r
    }
}

} // verus!
