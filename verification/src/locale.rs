use vstd::prelude::*;

verus! {

/// One entry of a locale-keyed name mapping: a locale code (such as `"en"`
/// or `"de"`) paired with the display string stored under that locale.
pub struct NameEntry {
    pub locale: String,
    pub value: String,
}

/// A locale-keyed mapping from locale codes to localized display names.
///
/// Lookup matches the requested locale code exactly: no case folding and no
/// fallback to another locale. When several entries carry the same locale
/// code, the first one wins.
pub struct Names {
    pub entries: Vec<NameEntry>,
}

impl NameEntry {
    /// The entry as a pair of character sequences: locale code, then name.
    pub open spec fn pair(self) -> (Seq<char>, Seq<char>) {
        (self.locale@, self.value@)
    }
}

/// First-match lookup of `key` in a sequence of (locale, name) pairs.
pub open spec fn spec_lookup(entries: Seq<(Seq<char>, Seq<char>)>, key: Seq<char>) -> Option<
    Seq<char>,
>
    decreases entries.len(),
{
    if entries.len() == 0 {
        None
    } else if entries[0].0 == key {
        Some(entries[0].1)
    } else {
        spec_lookup(entries.drop_first(), key)
    }
}

/// Lookup is exact on the locale key: a name is found exactly when some
/// entry carries that very key, and the value found comes from an entry
/// under that key — entries stored under other locales never substitute.
pub proof fn lemma_lookup_key_exact(entries: Seq<(Seq<char>, Seq<char>)>, key: Seq<char>)
    ensures
        spec_lookup(entries, key) is Some <==> (exists|i: int|
            0 <= i < entries.len() && entries[i].0 == key),
        spec_lookup(entries, key) matches Some(v) ==> exists|i: int|
            0 <= i < entries.len() && entries[i].0 == key && entries[i].1 == v,
    decreases entries.len(),
{
    if entries.len() == 0 {
    } else if entries[0].0 == key {
        assert(0 <= 0 < entries.len() && entries[0].0 == key);
    } else {
        let rest = entries.drop_first();
        lemma_lookup_key_exact(rest, key);
        if spec_lookup(entries, key) is Some {
            let i = choose|i: int| 0 <= i < rest.len() && rest[i].0 == key;
            assert(entries[i + 1].0 == key);
            let v = spec_lookup(entries, key).unwrap();
            let j = choose|j: int| 0 <= j < rest.len() && rest[j].0 == key && rest[j].1 == v;
            assert(entries[j + 1].0 == key && entries[j + 1].1 == v);
        }
        if exists|i: int| 0 <= i < entries.len() && entries[i].0 == key {
            let i = choose|i: int| 0 <= i < entries.len() && entries[i].0 == key;
            assert(rest[i - 1].0 == key);
        }
    }
}

/// A name stored under a key is found under that key: when every entry
/// before position `i` misses the key and entry `i` carries it, lookup
/// returns exactly that entry's value.
pub proof fn lemma_lookup_finds_first(
    entries: Seq<(Seq<char>, Seq<char>)>,
    key: Seq<char>,
    i: int,
)
    requires
        0 <= i < entries.len(),
        entries[i].0 == key,
        forall|j: int| 0 <= j < i ==> entries[j].0 != key,
    ensures
        spec_lookup(entries, key) == Some(entries[i].1),
    decreases i,
{
    if i > 0 {
        let rest = entries.drop_first();
        assert(forall|j: int| 0 <= j < i - 1 ==> rest[j] == entries[j + 1]);
        lemma_lookup_finds_first(rest, key, i - 1);
    }
}

impl Names {
    /// The mapping as a sequence of (locale, name) character-sequence pairs.
    pub open spec fn pairs(self) -> Seq<(Seq<char>, Seq<char>)> {
        self.entries@.map_values(|e: NameEntry| e.pair())
    }

    /// The name stored under the exact key, if any.
    pub open spec fn spec_get(self, key: Seq<char>) -> Option<Seq<char>> {
        spec_lookup(self.pairs(), key)
    }

    /// Looks up the display name stored under exactly the locale code `key`
    /// and returns an owned copy of it, or `None` when no entry carries
    /// that key.
    pub fn get(&self, key: &str) -> (r: Option<String>)
        ensures
            r.deep_view() == self.spec_get(key@),
    {
        let key_owned: String = key.to_owned();
        let n: usize = self.entries.len();
        proof {
            assert(self.pairs().skip(0) =~= self.pairs());
        }
        for i in 0..n
            invariant
                n == self.entries.len(),
                key_owned@ == key@,
                spec_lookup(self.pairs().skip(i as int), key@) == self.spec_get(key@),
        {
            assert(self.pairs().skip(i as int)[0] == self.pairs()[i as int]);
            if self.entries[i].locale == key_owned {
                return Some(self.entries[i].value.clone());
            }
            proof {
                assert(self.pairs().skip(i as int).drop_first() =~= self.pairs().skip(
                    i as int + 1,
                ));
            }
        }
        None
    }
}

} // verus!
