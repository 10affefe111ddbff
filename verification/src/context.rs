//! What a command gets to see: the configuration, whether a session is
//! open, a copy of the stored entries, and the strength policy in force.

use vstd::prelude::*;
use crate::config::KoflGlobalConfig;
use crate::policy::PasswordPolicy;

verus! {

/// What an entry holds, as plain values.
pub struct EntryView {
    pub id: u32,
    pub ent_name: Seq<char>,
    pub password_hash: Seq<char>,
    pub timestamp: Seq<char>,
}

/// One stored credential. `password_hash` holds the ciphertext as
/// hexadecimal text, never the secret itself; `id` is assigned by the store
/// and ignored on insertion.
#[derive(Debug)]
pub struct Entry {
    pub id: u32,
    pub ent_name: String,
    pub password_hash: String,
    pub timestamp: String,
}

impl View for Entry {
    type V = EntryView;

    open spec fn view(&self) -> EntryView {
        EntryView {
            id: self.id,
            ent_name: self.ent_name@,
            password_hash: self.password_hash@,
            timestamp: self.timestamp@,
        }
    }
}

/// Whether `i` is the place of the first of `entries` that is named `name`.
pub open spec fn is_first_named(entries: Seq<Entry>, name: Seq<char>, i: int) -> bool {
    &&& 0 <= i < entries.len()
    &&& entries[i].ent_name@ == name
    &&& forall|j: int| 0 <= j < i ==> (#[trigger] entries[j]).ent_name@ != name
}

/// Whether one of `entries` is named `name`.
pub open spec fn holds_name(entries: Seq<Entry>, name: Seq<char>) -> bool {
    exists|i: int| 0 <= i < entries.len() && (#[trigger] entries[i]).ent_name@ == name
}

/// The first of `entries` that is named `name`, if there is one.
pub open spec fn lookup(entries: Seq<Entry>, name: Seq<char>) -> Option<Entry> {
    if exists|i: int| is_first_named(entries, name, i) {
        Some(entries[choose|i: int| is_first_named(entries, name, i)])
    } else {
        None
    }
}

/// The state that commands are validated and executed against.
#[derive(Debug)]
pub struct Context {
    pub kgc: KoflGlobalConfig,
    pub session_active: bool,
    pub entries: Vec<Entry>,
    pub password_policy: PasswordPolicy,
}

impl Context {
    pub fn new(
        kgc: KoflGlobalConfig,
        session_active: bool,
        entries: Vec<Entry>,
        password_policy: PasswordPolicy,
    ) -> (context: Context)
        ensures
            context.kgc == kgc,
            context.session_active == session_active,
            context.entries == entries,
            context.password_policy == password_policy,
    {
        Context { kgc, session_active, entries, password_policy }
    }

    /// Looks an entry up by its name. Names are unique in a vault; should a
    /// copy hold one twice, the first is found.
    pub fn find_entry(&self, name: &String) -> (found: Option<&Entry>)
        ensures
            match found {
                Some(entry) => lookup(self.entries@, name@) == Some(*entry),
                None => lookup(self.entries@, name@) is None,
            },
            found is Some <==> holds_name(self.entries@, name@),
    {
        let mut i: usize = 0;
        while i < self.entries.len()
            invariant
                i <= self.entries.len(),
                forall|j: int| 0 <= j < i ==> (#[trigger] self.entries@[j]).ent_name@ != name@,
            decreases self.entries.len() - i,
        {
            if self.entries[i].ent_name == *name {
                proof {
                    lemma_first_named_is_found(self.entries@, name@, i as int);
                }
                return Some(&self.entries[i]);
            }
            i += 1;
        }
        None
    }

    /// Whether the vault holds an entry of this name.
    pub fn has_entry(&self, name: &String) -> (present: bool)
        ensures
            present == holds_name(self.entries@, name@),
    {
        self.find_entry(name).is_some()
    }
}

/// The first entry of a name is the one that a lookup gives.
pub proof fn lemma_first_named_is_found(entries: Seq<Entry>, name: Seq<char>, i: int)
    requires
        is_first_named(entries, name, i),
    ensures
        lookup(entries, name) == Some(entries[i]),
        holds_name(entries, name),
{
    let k = choose|k: int| is_first_named(entries, name, k);
    if k < i {
        assert(entries[k].ent_name@ != name);
    }
    if i < k {
        assert(entries[i].ent_name@ != name);
    }
}

} // verus!
