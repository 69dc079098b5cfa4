use vstd::prelude::*;
use crate::errors::FdwError;
use crate::errors::FdwErrorV;
use crate::strutil::str_eq;

verus! {

/// The options map the host resolves for the adapter: string keys to
/// string values, looked up by exact key equality.
#[derive(Debug)]
pub struct Options {
    pub entries: Vec<(String, String)>,
}

/// The value stored under `key`: the first entry with that key, if any.
pub open spec fn opts_lookup(entries: Seq<(String, String)>, key: Seq<char>) -> Option<Seq<char>>
    decreases entries.len(),
{
    if entries.len() == 0 {
        None
    } else if entries[0].0@ == key {
        Some(entries[0].1@)
    } else {
        opts_lookup(entries.drop_first(), key)
    }
}

/// A lookup that found no match among the first `i` entries is decided by
/// the rest.
proof fn lemma_opts_lookup_skip(entries: Seq<(String, String)>, key: Seq<char>, i: int)
    requires
        0 <= i <= entries.len(),
        forall|j: int| 0 <= j < i ==> entries[j].0@ != key,
    ensures
        opts_lookup(entries, key) == opts_lookup(entries.skip(i), key),
    decreases i,
{
    if i == 0 {
        assert(entries.skip(0) =~= entries);
    } else {
        lemma_opts_lookup_skip(entries, key, i - 1);
        assert(entries.skip(i - 1)[0] == entries[i - 1]);
        assert(entries.skip(i - 1).drop_first() =~= entries.skip(i));
    }
}

impl Options {
    /// An empty options map.
    pub fn new() -> (r: Options)
        ensures
            r.entries@.len() == 0,
    {
        Options { entries: Vec::new() }
    }

    /// Appends one key-value entry. A key set earlier keeps priority: the
    /// lookup takes the first entry with the key.
    pub fn set(&mut self, key: String, value: String)
        ensures
            final(self).entries@ == old(self).entries@.push((key, value)),
    {
        self.entries.push((key, value));
    }

    /// Fetches the value stored under `key`, or reports the missing
    /// required option by name.
    pub fn require(&self, key: &str) -> (r: Result<String, FdwError>)
        ensures
            opts_lookup(self.entries@, key@) matches Some(v) ==> (r matches Ok(s) && s@ == v),
            opts_lookup(self.entries@, key@) is None ==> (r matches Err(e) && e@
                == FdwErrorV::MissingOption(key@)),
    {
        let mut i: usize = 0;
        while i < self.entries.len()
            invariant
                i <= self.entries@.len(),
                forall|j: int| 0 <= j < i ==> self.entries@[j].0@ != key@,
            decreases self.entries@.len() - i,
        {
            let entry = &self.entries[i];
            if str_eq(entry.0.as_str(), key) {
                proof {
                    lemma_opts_lookup_skip(self.entries@, key@, i as int);
                    assert(self.entries@.skip(i as int)[0] == self.entries@[i as int]);
                    assert(opts_lookup(self.entries@.skip(i as int), key@) == Some(
                        self.entries@[i as int].1@,
                    ));
                }
                return Ok(entry.1.clone());
            }
            i += 1;
        }
        proof {
            lemma_opts_lookup_skip(self.entries@, key@, self.entries@.len() as int);
            assert(self.entries@.skip(self.entries@.len() as int) =~= Seq::<(
                String,
                String,
            )>::empty());
        }
        Err(FdwError::MissingOption(key.to_owned()))
    }
}

} // verus!
