//! What the gateway makes of an etcd store: the pairs under a prefix, the
//! events of a watch, and the pauses between attempts to reconnect.

use crate::text::joined;
use vstd::prelude::*;
use vstd::string::StringSliceAdditionalSpecFns;
use vstd::utf8::{decode_utf8, valid_utf8};

verus! {

/// The largest number of connections that the pool holds.
pub const POOL_MAX_SIZE: usize = 8;

/// The pause before the first new attempt to reach the store, in seconds.
pub const INITIAL_DELAY_SECS: u64 = 1;

/// The longest pause between two attempts, in seconds.
pub const MAX_DELAY_SECS: u64 = 30;

/// Why the store could not be used.
#[derive(Debug, PartialEq, Eq)]
pub enum EtcdError {
    /// The store could not be reached, or refused.
    Connection(String),
    /// A key or a value is not UTF-8.
    Decode,
    /// The connection could not be made anew.
    Reconnect(String),
}

impl EtcdError {
    /// The text with which the error is reported.
    pub open spec fn spec_message(self) -> Seq<char> {
        match self {
            EtcdError::Connection(cause) => "ETCD connection error: "@ + cause@,
            EtcdError::Decode => "Data decoding error: invalid utf-8"@,
            EtcdError::Reconnect(cause) => "Reconnection failed: "@ + cause@,
        }
    }

    pub fn message(&self) -> (r: String)
        ensures
            r@ == self.spec_message(),
    {
        match self {
            EtcdError::Connection(cause) => joined("ETCD connection error: ", cause.as_str()),
            EtcdError::Decode => "Data decoding error: invalid utf-8".to_string(),
            EtcdError::Reconnect(cause) => joined("Reconnection failed: ", cause.as_str()),
        }
    }
}

/// What happened to a key.
#[derive(Debug, Clone, Copy, PartialEq, Eq, Structural)]
pub enum EtcdEventType {
    Put,
    Delete,
    Unknown,
}

/// One event of a watch.
#[derive(Debug, PartialEq, Eq)]
pub struct EtcdWatchEvent {
    pub event_type: EtcdEventType,
    pub key: String,
    pub value: Option<String>,
    pub prev_value: Option<String>,
}

/// What an [`EtcdWatchEvent`] stands for.
pub struct WatchEventView {
    pub event_type: EtcdEventType,
    pub key: Seq<char>,
    pub value: Option<Seq<char>>,
    pub prev_value: Option<Seq<char>>,
}

impl View for EtcdWatchEvent {
    type V = WatchEventView;

    open spec fn view(&self) -> WatchEventView {
        WatchEventView {
            event_type: self.event_type,
            key: self.key@,
            value: match self.value {
                Some(v) => Some(v@),
                None => None,
            },
            prev_value: match self.prev_value {
                Some(v) => Some(v@),
                None => None,
            },
        }
    }
}

/// What a list of events stands for.
pub open spec fn events_view(events: Seq<EtcdWatchEvent>) -> Seq<WatchEventView> {
    Seq::new(events.len(), |i: int| events[i]@)
}

impl EtcdWatchEvent {
    /// The event for a change of which the store told the kind and, where it
    /// sent the pair, the key and the value. A change without a pair is no
    /// event.
    pub fn from_parts(
        event_type: EtcdEventType,
        key: Option<String>,
        value: Option<String>,
        prev_value: Option<String>,
    ) -> (r: Option<EtcdWatchEvent>)
        ensures
            r is Some <==> key is Some,
            r matches Some(e) ==> e.event_type == event_type && e.key == key->0 && e.value
                == value && e.prev_value == prev_value,
    {
        match key {
            Some(k) => Some(EtcdWatchEvent { event_type, key: k, value, prev_value }),
            None => None,
        }
    }
}

/// How the connections of the pool are made.
#[derive(Debug)]
pub struct EtcdClientManager {
    pub endpoints: Vec<String>,
    pub username: String,
    pub password: String,
}

impl EtcdClientManager {
    /// Whether a connection logs in: only where both a user name and a
    /// password are set.
    pub fn with_user(&self) -> (r: bool)
        ensures
            r == (self.username@.len() > 0 && self.password@.len() > 0),
    {
        !self.username.as_str().is_empty() && !self.password.as_str().is_empty()
    }
}

/// The pause that follows a pause of `delay` seconds: twice as long, and
/// never more than thirty seconds.
pub open spec fn next_delay(delay: int) -> int {
    if 2 * delay < 30 {
        2 * delay
    } else {
        30
    }
}

/// The pause after `failures` failed attempts in a row: one second at
/// first, doubled with every failure, and never more than thirty seconds.
pub open spec fn delay_after(failures: nat) -> int
    decreases failures,
{
    if failures == 0 {
        1
    } else {
        next_delay(delay_after((failures - 1) as nat))
    }
}

/// The pauses of a watch that keeps trying to reach the store.
#[derive(Debug)]
pub struct WatchBackoff {
    delay: u64,
}

impl WatchBackoff {
    /// The pause that the next failure is followed by, in seconds.
    pub closed spec fn delay(&self) -> int {
        self.delay as int
    }

    #[verifier::type_invariant]
    closed spec fn wf(&self) -> bool {
        1 <= self.delay <= 30
    }

    /// A watch that has not failed yet.
    pub fn new() -> (r: WatchBackoff)
        ensures
            r.delay() == 1,
    {
        WatchBackoff { delay: INITIAL_DELAY_SECS }
    }

    /// The store was reached: the next pause is the first one again.
    pub fn on_connected(&mut self)
        ensures
            final(self).delay() == 1,
    {
        *self = WatchBackoff { delay: INITIAL_DELAY_SECS };
    }

    /// An attempt failed: the answer is the pause to make now, in seconds,
    /// and the next pause is twice as long, up to the cap.
    pub fn on_failure(&mut self) -> (pause: u64)
        ensures
            pause == old(self).delay(),
            1 <= pause <= 30,
            final(self).delay() == next_delay(old(self).delay()),
    {
        proof {
            use_type_invariant(&*self);
        }
        let pause = self.delay;
        let doubled = if pause * 2 < MAX_DELAY_SECS {
            pause * 2
        } else {
            MAX_DELAY_SECS
        };
        *self = WatchBackoff { delay: doubled };
        pause
    }
}

/// Every pause is between one and thirty seconds, a later pause is never
/// shorter, and from the fifth failure on the pause is thirty seconds.
pub proof fn lemma_delay_bounds(failures: nat)
    ensures
        1 <= delay_after(failures) <= 30,
        delay_after(failures) <= delay_after(failures + 1),
        failures >= 5 ==> delay_after(failures) == 30,
    decreases failures,
{
    reveal_with_fuel(delay_after, 6);
    if failures > 0 {
        lemma_delay_bounds((failures - 1) as nat);
    }
}

/// `String::from_utf8`: the text that the bytes encode, where they are
/// valid UTF-8.
#[verifier::external_body]
fn utf8_text(bytes: &Vec<u8>) -> (r: Option<String>)
    ensures
        r is Some <==> valid_utf8(bytes@),
        r matches Some(s) ==> s@ == decode_utf8(bytes@),
{
    String::from_utf8(bytes.clone()).ok()
}

/// What a list of pairs of texts stands for.
pub open spec fn pairs_view(pairs: Seq<(String, String)>) -> Seq<(Seq<char>, Seq<char>)> {
    Seq::new(pairs.len(), |i: int| (pairs[i].0@, pairs[i].1@))
}

/// What a list of pairs of byte strings stands for.
pub open spec fn raw_view(kvs: Seq<(Vec<u8>, Vec<u8>)>) -> Seq<(Seq<u8>, Seq<u8>)> {
    Seq::new(kvs.len(), |i: int| (kvs[i].0@, kvs[i].1@))
}

/// The pairs among the first `n` that stand under a prefix, as texts: the
/// pair whose key is the prefix itself is left out. The result is `None`
/// where a key is not UTF-8, or the value of a pair that is kept.
pub open spec fn under_prefix(prefix: Seq<char>, kvs: Seq<(Seq<u8>, Seq<u8>)>, n: int) -> Option<
    Seq<(Seq<char>, Seq<char>)>,
>
    decreases n,
{
    if n <= 0 || n > kvs.len() {
        Some(Seq::empty())
    } else {
        match under_prefix(prefix, kvs, n - 1) {
            None => None,
            Some(found) => if !valid_utf8(kvs[n - 1].0) {
                None
            } else if decode_utf8(kvs[n - 1].0) == prefix {
                Some(found)
            } else if !valid_utf8(kvs[n - 1].1) {
                None
            } else {
                Some(found.push((decode_utf8(kvs[n - 1].0), decode_utf8(kvs[n - 1].1))))
            },
        }
    }
}

/// Once a pair cannot be read, no longer list can be.
pub proof fn lemma_unreadable_stays(prefix: Seq<char>, kvs: Seq<(Seq<u8>, Seq<u8>)>, i: int, n: int)
    requires
        0 < i <= n <= kvs.len(),
        under_prefix(prefix, kvs, i) is None,
    ensures
        under_prefix(prefix, kvs, n) is None,
    decreases n - i,
{
    if i < n {
        lemma_unreadable_stays(prefix, kvs, i, n - 1);
    }
}

/// The value among the first `n` pairs whose key is `key`, as a text: the
/// first such pair counts. The result is an error where that value is not
/// UTF-8.
pub open spec fn value_of(key: Seq<u8>, kvs: Seq<(Seq<u8>, Seq<u8>)>, from: int) -> Result<
    Option<Seq<char>>,
    (),
>
    decreases kvs.len() - from,
{
    if from < 0 || from >= kvs.len() {
        Ok(None)
    } else if kvs[from].0 == key {
        if valid_utf8(kvs[from].1) {
            Ok(Some(decode_utf8(kvs[from].1)))
        } else {
            Err(())
        }
    } else {
        value_of(key, kvs, from + 1)
    }
}

/// Whether two byte strings are the same.
pub fn bytes_eq(a: &Vec<u8>, b: &[u8]) -> (r: bool)
    ensures
        r == (a@ == b@),
{
    if a.len() != b.len() {
        return false;
    }
    let mut i: usize = 0;
    while i < a.len()
        invariant
            i <= a@.len(),
            a@.len() == b@.len(),
            a@.subrange(0, i as int) == b@.subrange(0, i as int),
        decreases a@.len() - i,
    {
        if a[i] != b[i] {
            return false;
        }
        assert(a@.subrange(0, i + 1) =~= a@.subrange(0, i as int).push(a@[i as int]));
        assert(b@.subrange(0, i + 1) =~= b@.subrange(0, i as int).push(b@[i as int]));
        i += 1;
    }
    assert(a@.subrange(0, a@.len() as int) =~= a@);
    assert(b@.subrange(0, b@.len() as int) =~= b@);
    true
}

/// The gateway's access to an etcd store.
#[derive(Debug)]
pub struct EtcdClientProvider {
    pub manager: EtcdClientManager,
}

impl EtcdClientProvider {
    /// An access with the given endpoints and login.
    pub fn new(endpoints: Vec<String>, username: String, password: String) -> (r:
        EtcdClientProvider)
        ensures
            r.manager.endpoints == endpoints,
            r.manager.username == username,
            r.manager.password == password,
    {
        EtcdClientProvider { manager: EtcdClientManager { endpoints, username, password } }
    }

    /// The pairs that a read of a prefix brought, as texts, without the pair
    /// of the prefix itself.
    pub fn get_prefix(&self, prefix: &str, kvs: &Vec<(Vec<u8>, Vec<u8>)>) -> (r: Result<
        Vec<(String, String)>,
        EtcdError,
    >)
        ensures
            match under_prefix(prefix@, raw_view(kvs@), kvs@.len() as int) {
                Some(found) => r matches Ok(pairs) && pairs_view(pairs@) == found,
                None => r matches Err(EtcdError::Decode),
            },
    {
        let ghost raw = raw_view(kvs@);
        let mut out: Vec<(String, String)> = Vec::new();
        let mut i: usize = 0;
        assert(pairs_view(out@) =~= Seq::empty());
        while i < kvs.len()
            invariant
                i <= kvs@.len(),
                raw == raw_view(kvs@),
                under_prefix(prefix@, raw, i as int) == Some(pairs_view(out@)),
            decreases kvs@.len() - i,
        {
            let key = match utf8_text(&kvs[i].0) {
                Some(key) => key,
                None => {
                    proof {
                        lemma_unreadable_stays(prefix@, raw, i + 1, kvs@.len() as int);
                    }
                    return Err(EtcdError::Decode);
                },
            };
            if *key.as_str() != *prefix {
                let value = match utf8_text(&kvs[i].1) {
                    Some(value) => value,
                    None => {
                        proof {
                            lemma_unreadable_stays(prefix@, raw, i + 1, kvs@.len() as int);
                        }
                        return Err(EtcdError::Decode);
                    },
                };
                let ghost before = pairs_view(out@);
                out.push((key, value));
                assert(pairs_view(out@) =~= before.push((key@, value@)));
            }
            i += 1;
        }
        Ok(out)
    }

    /// The value that a read of one key brought, as a text.
    pub fn get(&self, key: &str, kvs: &Vec<(Vec<u8>, Vec<u8>)>) -> (r: Result<Option<String>, EtcdError>)
        ensures
            match value_of(key.spec_bytes(), raw_view(kvs@), 0) {
                Ok(Some(v)) => r matches Ok(Some(s)) && s@ == v,
                Ok(None) => r matches Ok(None),
                Err(_) => r matches Err(EtcdError::Decode),
            },
    {
        let ghost raw = raw_view(kvs@);
        let wanted = key.as_bytes();
        let mut i: usize = 0;
        while i < kvs.len()
            invariant
                i <= kvs@.len(),
                raw == raw_view(kvs@),
                wanted@ == key.spec_bytes(),
                value_of(key.spec_bytes(), raw, 0) == value_of(key.spec_bytes(), raw, i as int),
            decreases kvs@.len() - i,
        {
            if bytes_eq(&kvs[i].0, wanted) {
                return match utf8_text(&kvs[i].1) {
                    Some(value) => Ok(Some(value)),
                    None => Err(EtcdError::Decode),
                };
            }
            i += 1;
        }
        Ok(None)
    }

    /// Whether a delete removed something: the store says how many keys it
    /// deleted.
    pub fn delete(&self, deleted: i64) -> (r: bool)
        ensures
            r == (deleted > 0),
    {
        deleted > 0
    }

    /// The pauses of a watch that starts now.
    pub fn watch(&self) -> (r: WatchBackoff)
        ensures
            r.delay() == 1,
    {
        WatchBackoff::new()
    }
}

} // verus!
