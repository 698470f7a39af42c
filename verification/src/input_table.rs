//! Keyed table of current digital input levels.
//!
//! A key is the 4-tuple (port, device class, index, button id) identifying
//! one logical input; a level is a signed 16-bit magnitude (for digital
//! buttons only 0/1 are meaningful, but the full range is carried to match
//! the engine's calling contract). `set` is an unconditional upsert; `get`
//! returns the stored level, or 0 for a key never set.

use vstd::prelude::*;

verus! {

/// The level a table holds for a key: the stored one, or 0 for a key never
/// set.
pub open spec fn stored_level(
    levels: Map<(u32, u32, u32, u32), i16>,
    key: (u32, u32, u32, u32),
) -> i16 {
    if levels.contains_key(key) {
        levels[key]
    } else {
        0
    }
}

struct LevelEntry {
    port: u32,
    device: u32,
    index: u32,
    id: u32,
    level: i16,
}

spec fn entry_key(e: LevelEntry) -> (u32, u32, u32, u32) {
    (e.port, e.device, e.index, e.id)
}

spec fn unique_keys(s: Seq<LevelEntry>) -> bool {
    forall|i: int, j: int|
        0 <= i < j < s.len() ==> entry_key(s[i]) != entry_key(s[j])
}

spec fn table_map(s: Seq<LevelEntry>) -> Map<(u32, u32, u32, u32), i16>
    decreases s.len(),
{
    if s.len() == 0 {
        Map::<(u32, u32, u32, u32), i16>::empty()
    } else {
        table_map(s.drop_last()).insert(entry_key(s.last()), s.last().level)
    }
}

proof fn lemma_unique_drop_last(s: Seq<LevelEntry>)
    requires
        unique_keys(s),
        s.len() > 0,
    ensures
        unique_keys(s.drop_last()),
{
    assert forall|i: int, j: int|
        0 <= i < j < s.drop_last().len() implies entry_key(s.drop_last()[i]) != entry_key(
        s.drop_last()[j],
    ) by {
        assert(s.drop_last()[i] == s[i]);
        assert(s.drop_last()[j] == s[j]);
    }
}

proof fn lemma_map_found(s: Seq<LevelEntry>, j: int)
    requires
        unique_keys(s),
        0 <= j < s.len(),
    ensures
        table_map(s).contains_key(entry_key(s[j])),
        table_map(s)[entry_key(s[j])] == s[j].level,
    decreases s.len(),
{
    if j < s.len() - 1 {
        lemma_unique_drop_last(s);
        assert(s.drop_last()[j] == s[j]);
        lemma_map_found(s.drop_last(), j);
        assert(entry_key(s.last()) != entry_key(s[j]));
    }
}

proof fn lemma_map_absent(s: Seq<LevelEntry>, key: (u32, u32, u32, u32))
    requires
        forall|i: int| 0 <= i < s.len() ==> entry_key(s[i]) != key,
    ensures
        !table_map(s).contains_key(key),
    decreases s.len(),
{
    if s.len() > 0 {
        assert(forall|i: int|
            0 <= i < s.drop_last().len() ==> entry_key(s.drop_last()[i]) != key);
        lemma_map_absent(s.drop_last(), key);
        assert(entry_key(s.last()) != key);
    }
}

proof fn lemma_map_update(s: Seq<LevelEntry>, j: int, e: LevelEntry)
    requires
        unique_keys(s),
        0 <= j < s.len(),
        entry_key(e) == entry_key(s[j]),
    ensures
        table_map(s.update(j, e)) == table_map(s).insert(entry_key(e), e.level),
        unique_keys(s.update(j, e)),
    decreases s.len(),
{
    let k = entry_key(e);
    let t = s.update(j, e);
    assert forall|i: int, l: int|
        0 <= i < l < t.len() implies entry_key(t[i]) != entry_key(t[l]) by {
        assert(entry_key(t[i]) == entry_key(s[i]));
        assert(entry_key(t[l]) == entry_key(s[l]));
    }
    if j == s.len() - 1 {
        assert(t.drop_last() =~= s.drop_last());
        assert(t.last() == e);
        let base = table_map(s.drop_last());
        assert(base.insert(k, s.last().level).insert(k, e.level) =~= base.insert(k, e.level));
    } else {
        lemma_unique_drop_last(s);
        assert(s.drop_last()[j] == s[j]);
        lemma_map_update(s.drop_last(), j, e);
        assert(t.drop_last() =~= s.drop_last().update(j, e));
        assert(t.last() == s.last());
        let kl = entry_key(s.last());
        assert(entry_key(s[j]) != entry_key(s[s.len() - 1]));
        let base = table_map(s.drop_last());
        assert(base.insert(k, e.level).insert(kl, s.last().level) =~= base.insert(
            kl,
            s.last().level,
        ).insert(k, e.level));
    }
}

proof fn lemma_map_push(s: Seq<LevelEntry>, e: LevelEntry)
    requires
        unique_keys(s),
        forall|i: int| 0 <= i < s.len() ==> entry_key(s[i]) != entry_key(e),
    ensures
        table_map(s.push(e)) == table_map(s).insert(entry_key(e), e.level),
        unique_keys(s.push(e)),
{
    let t = s.push(e);
    assert(t.drop_last() =~= s);
    assert(t.last() == e);
    assert forall|i: int, l: int|
        0 <= i < l < t.len() implies entry_key(t[i]) != entry_key(t[l]) by {
        assert(t[i] == s[i]);
        if l < s.len() {
            assert(t[l] == s[l]);
        } else {
            assert(t[l] == e);
        }
    }
}

/// Table of current input levels, one entry per key ever set.
pub struct InputTable {
    entries: Vec<LevelEntry>,
}

impl View for InputTable {
    type V = Map<(u32, u32, u32, u32), i16>;

    closed spec fn view(&self) -> Map<(u32, u32, u32, u32), i16> {
        table_map(self.entries@)
    }
}

impl InputTable {
    /// Validity of the table's internal storage: one entry per key.
    /// Established by `new` and preserved by every method.
    pub closed spec fn wf(&self) -> bool {
        unique_keys(self.entries@)
    }

    /// An empty table: every key reads as 0.
    pub fn new() -> (table: InputTable)
        ensures
            table.wf(),
            table@ == Map::<(u32, u32, u32, u32), i16>::empty(),
    {
        InputTable { entries: Vec::new() }
    }

    /// Unconditional upsert of the level stored for one key.
    pub fn set(&mut self, port: u32, device: u32, index: u32, id: u32, level: i16)
        requires
            old(self).wf(),
        ensures
            final(self).wf(),
            final(self)@ == old(self)@.insert((port, device, index, id), level),
    {
        let n = self.entries.len();
        let mut j: usize = 0;
        while j < n
            invariant
                j <= n,
                self.entries@ == old(self).entries@,
                unique_keys(self.entries@),
                n == self.entries@.len(),
                forall|i: int|
                    0 <= i < j ==> entry_key(self.entries@[i]) != (port, device, index, id),
            decreases n - j,
        {
            let matches_key = {
                let e = &self.entries[j];
                e.port == port && e.device == device && e.index == index && e.id == id
            };
            if matches_key {
                let replacement = LevelEntry { port, device, index, id, level };
                proof {
                    lemma_map_update(self.entries@, j as int, replacement);
                }
                self.entries[j] = replacement;
                return;
            }
            j = j + 1;
        }
        let fresh = LevelEntry { port, device, index, id, level };
        proof {
            lemma_map_push(self.entries@, fresh);
        }
        self.entries.push(fresh);
    }

    /// The stored level for one key, or 0 if the key was never set.
    pub fn get(&self, port: u32, device: u32, index: u32, id: u32) -> (level: i16)
        requires
            self.wf(),
        ensures
            level == stored_level(self@, (port, device, index, id)),
    {
        let n = self.entries.len();
        let mut j: usize = 0;
        while j < n
            invariant
                j <= n,
                self.wf(),
                n == self.entries@.len(),
                forall|i: int|
                    0 <= i < j ==> entry_key(self.entries@[i]) != (port, device, index, id),
            decreases n - j,
        {
            let e = &self.entries[j];
            if e.port == port && e.device == device && e.index == index && e.id == id {
                proof {
                    lemma_map_found(self.entries@, j as int);
                }
                return e.level;
            }
            j = j + 1;
        }
        proof {
            lemma_map_absent(self.entries@, (port, device, index, id));
        }
        0
    }
}

/// Engine-facing input query: the level most recently set for (port, device
/// class, index, button id), or 0 for a combination never set. Never fails.
pub fn get_input_state(
    table: &InputTable,
    port: u32,
    device: u32,
    index: u32,
    id: u32,
) -> (level: i16)
    requires
        table.wf(),
    ensures
        level == stored_level(table@, (port, device, index, id)),
{
    table.get(port, device, index, id)
}

/// InputTable law: a never-set key reads 0; setting a key stores exactly that
/// level under that key; and setting one key never changes the level read for
/// any other key.
pub proof fn lemma_input_table_levels(
    levels: Map<(u32, u32, u32, u32), i16>,
    key: (u32, u32, u32, u32),
    other: (u32, u32, u32, u32),
    level: i16,
)
    requires
        key != other,
    ensures
        stored_level(Map::<(u32, u32, u32, u32), i16>::empty(), key) == 0,
        stored_level(levels.insert(key, level), key) == level,
        stored_level(levels.insert(key, level), other) == stored_level(levels, other),
{
}

} // verus!
