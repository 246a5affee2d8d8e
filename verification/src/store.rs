//! Persistence of configuration: a typed key-value store and the derivation
//! of storage keys from device names.
//!
//! The store models the read/write contract the engine needs from the
//! device's non-volatile storage: typed reads that tolerate absent keys, and
//! writes that may fail. A write-protect switch stands in for storage
//! failures, so callers and tests can exercise the failure path; a failed
//! write leaves the store unchanged and the in-memory state authoritative.
//!
//! A device's keys are its name truncated to a short prefix (storage limits
//! key length) plus a one-character field suffix. Two names that share the
//! truncated prefix silently alias each other's stored values, so device
//! names must stay distinguishable within the prefix length.

use vstd::prelude::*;
use vstd::string::*;

verus! {

/// One stored value, tagged with its type. A typed read of a key holding a
/// value of another type behaves as if the key were absent.
#[derive(Clone, Copy, PartialEq, Eq, Structural, Debug)]
pub enum StoreValue {
    U32(u32),
    I64(i64),
    U8(u8),
}

/// A write did not complete; the store is unchanged.
#[derive(Clone, Copy, PartialEq, Eq, Structural, Debug)]
pub enum StoreError {
    WriteFailed,
}

struct Entry {
    key: String,
    value: StoreValue,
}

/// In-memory model of the key-value storage namespace.
pub struct ConfigStore {
    entries: Vec<Entry>,
    writable: bool,
}

spec fn keys_unique(s: Seq<Entry>) -> bool {
    forall|i: int, j: int| 0 <= i < j < s.len() ==> s[i].key@ != s[j].key@
}

spec fn entries_map(s: Seq<Entry>) -> Map<Seq<char>, StoreValue>
    decreases s.len(),
{
    if s.len() == 0 {
        Map::empty()
    } else {
        entries_map(s.drop_last()).insert(s.last().key@, s.last().value)
    }
}

proof fn lemma_map_absent(s: Seq<Entry>, k: Seq<char>)
    requires
        forall|j: int| 0 <= j < s.len() ==> s[j].key@ != k,
    ensures
        !entries_map(s).dom().contains(k),
    decreases s.len(),
{
    if s.len() > 0 {
        assert forall|j: int| 0 <= j < s.drop_last().len() implies s.drop_last()[j].key@ != k by {
            assert(s.drop_last()[j] == s[j]);
        }
        lemma_map_absent(s.drop_last(), k);
        assert(s.last() == s[s.len() - 1]);
    }
}

proof fn lemma_map_found(s: Seq<Entry>, i: int)
    requires
        keys_unique(s),
        0 <= i < s.len(),
    ensures
        entries_map(s).dom().contains(s[i].key@),
        entries_map(s)[s[i].key@] == s[i].value,
    decreases s.len(),
{
    if i < s.len() - 1 {
        assert(keys_unique(s.drop_last())) by {
            assert forall|x: int, y: int|
                0 <= x < y < s.drop_last().len() implies s.drop_last()[x].key@
                != s.drop_last()[y].key@ by {
                assert(s.drop_last()[x] == s[x]);
                assert(s.drop_last()[y] == s[y]);
            }
        }
        assert(s.drop_last()[i] == s[i]);
        lemma_map_found(s.drop_last(), i);
        assert(s.last().key@ != s[i].key@);
    }
}

proof fn lemma_map_update(s: Seq<Entry>, i: int, e: Entry)
    requires
        keys_unique(s),
        0 <= i < s.len(),
        e.key@ == s[i].key@,
    ensures
        keys_unique(s.update(i, e)),
        entries_map(s.update(i, e)) == entries_map(s).insert(e.key@, e.value),
    decreases s.len(),
{
    let t = s.update(i, e);
    assert forall|x: int, y: int| 0 <= x < y < t.len() implies t[x].key@ != t[y].key@ by {
        assert(s[x].key@ != s[y].key@);
    }
    if i == s.len() - 1 {
        assert(t.drop_last() =~= s.drop_last());
        assert(t.last() == e);
        assert(entries_map(t) == entries_map(s.drop_last()).insert(e.key@, e.value));
        assert(entries_map(s).insert(e.key@, e.value) =~= entries_map(s.drop_last()).insert(
            e.key@,
            e.value,
        ));
    } else {
        assert(keys_unique(s.drop_last())) by {
            assert forall|x: int, y: int|
                0 <= x < y < s.drop_last().len() implies s.drop_last()[x].key@
                != s.drop_last()[y].key@ by {
                assert(s.drop_last()[x] == s[x]);
                assert(s.drop_last()[y] == s[y]);
            }
        }
        assert(s.drop_last()[i] == s[i]);
        lemma_map_update(s.drop_last(), i, e);
        assert(t.drop_last() =~= s.drop_last().update(i, e));
        assert(t.last() == s.last());
        assert(s.last().key@ != e.key@);
        assert(entries_map(t) == entries_map(s.drop_last().update(i, e)).insert(
            s.last().key@,
            s.last().value,
        ));
        assert(entries_map(s.drop_last()).insert(e.key@, e.value).insert(
            s.last().key@,
            s.last().value,
        ) =~= entries_map(s.drop_last()).insert(s.last().key@, s.last().value).insert(
            e.key@,
            e.value,
        ));
    }
}

impl View for ConfigStore {
    type V = Map<Seq<char>, StoreValue>;

    closed spec fn view(&self) -> Map<Seq<char>, StoreValue> {
        entries_map(self.entries@)
    }
}

impl ConfigStore {
    /// The store's internal invariant: no key occurs twice.
    pub closed spec fn wf(&self) -> bool {
        keys_unique(self.entries@)
    }

    /// Whether writes currently complete.
    pub closed spec fn spec_writable(&self) -> bool {
        self.writable
    }

    /// An empty, writable store: the state of storage on first boot.
    pub fn new() -> (s: ConfigStore)
        ensures
            s.wf(),
            s@ == Map::<Seq<char>, StoreValue>::empty(),
            s.spec_writable(),
    {
        ConfigStore { entries: Vec::new(), writable: true }
    }

    /// Switch write acceptance; models storage becoming unable (or able
    /// again) to complete writes.
    pub fn set_writable(&mut self, writable: bool)
        requires
            old(self).wf(),
        ensures
            final(self).wf(),
            final(self)@ == old(self)@,
            final(self).spec_writable() == writable,
    {
        self.writable = writable;
    }

    pub fn is_writable(&self) -> (r: bool)
        ensures
            r == self.spec_writable(),
    {
        self.writable
    }

    fn find(&self, key: &String) -> (r: Option<usize>)
        ensures
            match r {
                Some(i) => i < self.entries@.len() && self.entries@[i as int].key@ == key@,
                None => forall|j: int| 0 <= j < self.entries@.len() ==> self.entries@[j].key@ != key@,
            },
    {
        let mut i: usize = 0;
        while i < self.entries.len()
            invariant
                i <= self.entries@.len(),
                forall|j: int| 0 <= j < i ==> self.entries@[j].key@ != key@,
            decreases self.entries@.len() - i,
        {
            if self.entries[i].key == *key {
                return Some(i);
            }
            i = i + 1;
        }
        None
    }

    fn get_value(&self, key: &String) -> (r: Option<StoreValue>)
        requires
            self.wf(),
        ensures
            match r {
                Some(v) => self@.dom().contains(key@) && self@[key@] == v,
                None => !self@.dom().contains(key@),
            },
    {
        match self.find(key) {
            Some(i) => {
                proof {
                    lemma_map_found(self.entries@, i as int);
                }
                Some(self.entries[i].value)
            },
            None => {
                proof {
                    lemma_map_absent(self.entries@, key@);
                }
                None
            },
        }
    }

    fn set_value(&mut self, key: &str, value: StoreValue) -> (r: Result<(), StoreError>)
        requires
            old(self).wf(),
        ensures
            final(self).wf(),
            final(self).spec_writable() == old(self).spec_writable(),
            match r {
                Ok(u) => old(self).spec_writable() && final(self)@ == old(self)@.insert(
                    key@,
                    value,
                ),
                Err(e) => !old(self).spec_writable() && e == StoreError::WriteFailed && final(self)@
                    == old(self)@,
            },
    {
        if !self.writable {
            return Err(StoreError::WriteFailed);
        }
        let k = key.to_owned();
        let ghost s0 = self.entries@;
        match self.find(&k) {
            Some(i) => {
                self.entries[i].value = value;
                proof {
                    lemma_map_update(s0, i as int, self.entries@[i as int]);
                }
                Ok(())
            },
            None => {
                proof {
                    lemma_map_absent(s0, k@);
                }
                self.entries.push(Entry { key: k, value });
                proof {
                    assert(self.entries@.drop_last() =~= s0);
                    assert(forall|j: int|
                        0 <= j < s0.len() ==> self.entries@[j] == s0[j]);
                }
                Ok(())
            },
        }
    }

    /// Read a 32-bit value; `None` when the key is absent or holds a value
    /// of another type.
    pub fn get_u32(&self, key: &str) -> (r: Option<u32>)
        requires
            self.wf(),
        ensures
            match r {
                Some(v) => self@.dom().contains(key@) && self@[key@] == StoreValue::U32(v),
                None => !self@.dom().contains(key@) || !(self@[key@] is U32),
            },
    {
        let k = key.to_owned();
        match self.get_value(&k) {
            Some(StoreValue::U32(v)) => Some(v),
            _ => None,
        }
    }

    /// Read a signed 64-bit value; `None` when absent or of another type.
    pub fn get_i64(&self, key: &str) -> (r: Option<i64>)
        requires
            self.wf(),
        ensures
            match r {
                Some(v) => self@.dom().contains(key@) && self@[key@] == StoreValue::I64(v),
                None => !self@.dom().contains(key@) || !(self@[key@] is I64),
            },
    {
        let k = key.to_owned();
        match self.get_value(&k) {
            Some(StoreValue::I64(v)) => Some(v),
            _ => None,
        }
    }

    /// Read a byte value; `None` when absent or of another type.
    pub fn get_u8(&self, key: &str) -> (r: Option<u8>)
        requires
            self.wf(),
        ensures
            match r {
                Some(v) => self@.dom().contains(key@) && self@[key@] == StoreValue::U8(v),
                None => !self@.dom().contains(key@) || !(self@[key@] is U8),
            },
    {
        let k = key.to_owned();
        match self.get_value(&k) {
            Some(StoreValue::U8(v)) => Some(v),
            _ => None,
        }
    }

    /// Write a 32-bit value; on failure the store is unchanged.
    pub fn set_u32(&mut self, key: &str, value: u32) -> (r: Result<(), StoreError>)
        requires
            old(self).wf(),
        ensures
            final(self).wf(),
            final(self).spec_writable() == old(self).spec_writable(),
            match r {
                Ok(u) => old(self).spec_writable() && final(self)@ == old(self)@.insert(
                    key@,
                    StoreValue::U32(value),
                ),
                Err(e) => !old(self).spec_writable() && e == StoreError::WriteFailed && final(self)@
                    == old(self)@,
            },
    {
        self.set_value(key, StoreValue::U32(value))
    }

    /// Write a signed 64-bit value; on failure the store is unchanged.
    pub fn set_i64(&mut self, key: &str, value: i64) -> (r: Result<(), StoreError>)
        requires
            old(self).wf(),
        ensures
            final(self).wf(),
            final(self).spec_writable() == old(self).spec_writable(),
            match r {
                Ok(u) => old(self).spec_writable() && final(self)@ == old(self)@.insert(
                    key@,
                    StoreValue::I64(value),
                ),
                Err(e) => !old(self).spec_writable() && e == StoreError::WriteFailed && final(self)@
                    == old(self)@,
            },
    {
        self.set_value(key, StoreValue::I64(value))
    }

    /// Write a byte value; on failure the store is unchanged.
    pub fn set_u8(&mut self, key: &str, value: u8) -> (r: Result<(), StoreError>)
        requires
            old(self).wf(),
        ensures
            final(self).wf(),
            final(self).spec_writable() == old(self).spec_writable(),
            match r {
                Ok(u) => old(self).spec_writable() && final(self)@ == old(self)@.insert(
                    key@,
                    StoreValue::U8(value),
                ),
                Err(e) => !old(self).spec_writable() && e == StoreError::WriteFailed && final(self)@
                    == old(self)@,
            },
    {
        self.set_value(key, StoreValue::U8(value))
    }
}

/// Characters of a device name that survive in its storage keys.
pub const KEY_PREFIX_CHARS: usize = 10;

/// The truncated prefix of a device name that keys its stored fields.
pub open spec fn spec_key_base(name: Seq<char>) -> Seq<char> {
    if name.len() <= KEY_PREFIX_CHARS {
        name
    } else {
        name.subrange(0, KEY_PREFIX_CHARS as int)
    }
}

/// The key under which a device's window duration is stored.
pub open spec fn spec_duration_key(name: Seq<char>) -> Seq<char> {
    spec_key_base(name) + seq!['_', 'd']
}

/// The key under which a device's window start offset is stored.
pub open spec fn spec_init_time_key(name: Seq<char>) -> Seq<char> {
    spec_key_base(name) + seq!['_', 'i']
}

/// The fixed key under which the controller-wide manual-mode flag is stored.
pub open spec fn spec_manual_mode_key() -> Seq<char> {
    "manual_mode"@
}

/// The fixed key under which the clock-correction offset is stored.
pub open spec fn spec_time_offset_key() -> Seq<char> {
    "time_offset"@
}

/// The stored 32-bit value under `k`, or `default` when `k` is absent or
/// holds a value of another type.
pub open spec fn spec_get_u32_or(m: Map<Seq<char>, StoreValue>, k: Seq<char>, default: u32) -> u32 {
    if m.dom().contains(k) {
        match m[k] {
            StoreValue::U32(v) => v,
            _ => default,
        }
    } else {
        default
    }
}

/// The stored signed 64-bit value under `k`, or `default`.
pub open spec fn spec_get_i64_or(m: Map<Seq<char>, StoreValue>, k: Seq<char>, default: i64) -> i64 {
    if m.dom().contains(k) {
        match m[k] {
            StoreValue::I64(v) => v,
            _ => default,
        }
    } else {
        default
    }
}

/// The stored byte value under `k`, or `default`.
pub open spec fn spec_get_u8_or(m: Map<Seq<char>, StoreValue>, k: Seq<char>, default: u8) -> u8 {
    if m.dom().contains(k) {
        match m[k] {
            StoreValue::U8(v) => v,
            _ => default,
        }
    } else {
        default
    }
}

/// The first `KEY_PREFIX_CHARS` characters of `name` (all of it when
/// shorter).
pub fn key_base(name: &str) -> (r: String)
    ensures
        r@ == spec_key_base(name@),
{
    let n = name.unicode_len();
    if n <= KEY_PREFIX_CHARS {
        name.to_owned()
    } else {
        name.substring_char(0, KEY_PREFIX_CHARS).to_owned()
    }
}

pub fn duration_key(name: &str) -> (r: String)
    ensures
        r@ == spec_duration_key(name@),
{
    let mut k = key_base(name);
    k.append("_d");
    proof {
        reveal_strlit("_d");
        assert("_d"@ =~= seq!['_', 'd']);
    }
    k
}

pub fn init_time_key(name: &str) -> (r: String)
    ensures
        r@ == spec_init_time_key(name@),
{
    let mut k = key_base(name);
    k.append("_i");
    proof {
        reveal_strlit("_i");
        assert("_i"@ =~= seq!['_', 'i']);
    }
    k
}

/// Read a device's stored schedule, substituting the caller's defaults for
/// any field that is absent or malformed.
pub fn load_schedule(
    store: &ConfigStore,
    name: &str,
    default_init_time: u32,
    default_duration: u32,
) -> (r: (u32, u32))
    requires
        store.wf(),
    ensures
        r.0 == spec_get_u32_or(store@, spec_init_time_key(name@), default_init_time),
        r.1 == spec_get_u32_or(store@, spec_duration_key(name@), default_duration),
{
    let init_key = init_time_key(name);
    let dur_key = duration_key(name);
    let init_time = match store.get_u32(init_key.as_str()) {
        Some(v) => v,
        None => default_init_time,
    };
    let duration = match store.get_u32(dur_key.as_str()) {
        Some(v) => v,
        None => default_duration,
    };
    (init_time, duration)
}

/// Persist a device's schedule best-effort under its derived keys. Returns
/// whether the write completed; on failure the store is unchanged and the
/// in-memory schedule stays authoritative.
pub fn save_schedule(store: &mut ConfigStore, name: &str, init_time: u32, duration: u32) -> (persisted:
    bool)
    requires
        old(store).wf(),
    ensures
        final(store).wf(),
        final(store).spec_writable() == old(store).spec_writable(),
        persisted == old(store).spec_writable(),
        persisted ==> final(store)@ == old(store)@.insert(
            spec_duration_key(name@),
            StoreValue::U32(duration),
        ).insert(spec_init_time_key(name@), StoreValue::U32(init_time)),
        !persisted ==> final(store)@ == old(store)@,
{
    let dur_key = duration_key(name);
    let init_key = init_time_key(name);
    let wrote_duration = store.set_u32(dur_key.as_str(), duration).is_ok();
    let wrote_init = store.set_u32(init_key.as_str(), init_time).is_ok();
    wrote_duration && wrote_init
}

/// The two field keys derived from one name never collide: they differ in
/// their final character.
pub proof fn lemma_field_keys_distinct(name: Seq<char>)
    ensures
        spec_duration_key(name) != spec_init_time_key(name),
{
    let b = spec_key_base(name);
    assert(spec_duration_key(name)[b.len() as int + 1] == 'd');
    assert(spec_init_time_key(name)[b.len() as int + 1] == 'i');
}

/// Saving a schedule and reloading it under the same name yields exactly the
/// saved values, whatever the store held before.
pub proof fn lemma_schedule_round_trip(
    m: Map<Seq<char>, StoreValue>,
    name: Seq<char>,
    init_time: u32,
    duration: u32,
    default_init_time: u32,
    default_duration: u32,
)
    ensures
        ({
            let saved = m.insert(spec_duration_key(name), StoreValue::U32(duration)).insert(
                spec_init_time_key(name),
                StoreValue::U32(init_time),
            );
            spec_get_u32_or(saved, spec_init_time_key(name), default_init_time) == init_time
                && spec_get_u32_or(saved, spec_duration_key(name), default_duration) == duration
        }),
{
    lemma_field_keys_distinct(name);
}

/// Two names that agree on the truncated prefix derive identical storage
/// keys, so their stored schedules silently alias each other.
pub proof fn lemma_truncated_names_alias(a: Seq<char>, b: Seq<char>)
    requires
        spec_key_base(a) == spec_key_base(b),
    ensures
        spec_duration_key(a) == spec_duration_key(b),
        spec_init_time_key(a) == spec_init_time_key(b),
{
}

} // verus!
