//! The entries of a blacklist, which of them are already in the blacklist file, and the
//! blacklist built from them.

use vstd::prelude::*;
use indexmap::IndexSet;
use vstd::rwlock::RwLock;
use crate::blacklist::{
    Blacklist, BlacklistError, BlacklistType, ManageableBlacklist, ManagedBlacklist,
    ManagedBlacklistSender, create_managed_blacklist, views_of,
};

verus! {

#[verifier::external_type_specification]
#[verifier::external_body]
#[verifier::reject_recursive_types(T)]
#[verifier::reject_recursive_types(S)]
pub struct ExIndexSet<T, S>(indexmap::IndexSet<T, S>);

#[verifier::external_type_specification]
#[verifier::external_body]
pub struct ExIoError(std::io::Error);

/// The strings in an `IndexSet`, in insertion order.
pub uninterp spec fn entry_set_contents(set: IndexSet<String>) -> Seq<Seq<char>>;

/// `IndexSet::new`: an empty set.
#[verifier::external_body]
fn entry_set_new() -> (r: IndexSet<String>)
    ensures entry_set_contents(r) == Seq::<Seq<char>>::empty(),
{
    IndexSet::new()
}

/// `IndexSet::insert`: appends `value` unless an equal string is in the set already, and says
/// whether it did.
#[verifier::external_body]
fn entry_set_insert(set: &mut IndexSet<String>, value: String) -> (inserted: bool)
    ensures
        inserted == !entry_set_contents(*old(set)).contains(value@),
        entry_set_contents(*final(set)) == if inserted {
            entry_set_contents(*old(set)).push(value@)
        } else {
            entry_set_contents(*old(set))
        },
{
    set.insert(value)
}

/// `IndexSet::len`: the number of strings in the set.
#[verifier::external_body]
fn entry_set_len(set: &IndexSet<String>) -> (r: usize)
    ensures r == entry_set_contents(*set).len(),
{
    set.len()
}

/// `IndexSet::get_index`: the string at the position `index` of the insertion order.
#[verifier::external_body]
fn entry_set_get(set: &IndexSet<String>, index: usize) -> (r: &String)
    requires index < entry_set_contents(*set).len(),
    ensures r@ == entry_set_contents(*set)[index as int],
{
    set.get_index(index).unwrap()
}

/// No string occurs twice.
pub open spec fn no_duplicates(s: Seq<Seq<char>>) -> bool {
    forall|i: int, j: int| 0 <= i < j < s.len() ==> s[i] != s[j]
}

/// `s` with `v` appended unless it holds `v` already.
pub open spec fn with_inserted(s: Seq<Seq<char>>, v: Seq<char>) -> Seq<Seq<char>> {
    if s.contains(v) { s } else { s.push(v) }
}

/// `s` after every string of `patch` was inserted, in order.
pub open spec fn with_all_inserted(s: Seq<Seq<char>>, patch: Seq<Seq<char>>) -> Seq<Seq<char>>
    decreases patch.len(),
{
    if patch.len() == 0 {
        s
    } else {
        with_inserted(with_all_inserted(s, patch.drop_last()), patch.last())
    }
}

/// The entries whose flag is not set, in order.
pub open spec fn unflagged(entries: Seq<Seq<char>>, flags: Seq<bool>) -> Seq<Seq<char>>
    decreases entries.len(),
{
    if entries.len() == 0 || flags.len() == 0 {
        Seq::empty()
    } else if flags.last() {
        unflagged(entries.drop_last(), flags.drop_last())
    } else {
        unflagged(entries.drop_last(), flags.drop_last()).push(entries.last())
    }
}

/// The answer to adding `value` to the entries `s`.
pub open spec fn add_result(s: Seq<Seq<char>>, value: Seq<char>) -> Result<bool, BlacklistError> {
    if value.len() == 0 {
        Err(BlacklistError::EmptyStringsNotAllowed)
    } else if value.contains('\n') {
        Err(BlacklistError::NewLinesNotAllowed)
    } else {
        Ok(!s.contains(value))
    }
}

proof fn lemma_insert_keeps_no_duplicates(s: Seq<Seq<char>>, v: Seq<char>)
    requires no_duplicates(s),
    ensures no_duplicates(with_inserted(s, v)),
{
}

proof fn lemma_unflagged_all_set(entries: Seq<Seq<char>>, flags: Seq<bool>)
    requires
        entries.len() == flags.len(),
        forall|i: int| 0 <= i < flags.len() ==> flags[i],
    ensures unflagged(entries, flags) == Seq::<Seq<char>>::empty(),
    decreases entries.len(),
{
    if entries.len() > 0 {
        lemma_unflagged_all_set(entries.drop_last(), flags.drop_last());
    }
}

/// True iff `value` holds the character `c`.
fn contains_char(value: &str, c: char) -> (r: bool)
    ensures r == value@.contains(c),
{
    let n = value.unicode_len();
    let mut i: usize = 0;
    while i < n
        invariant
            n == value@.len(),
            i <= n,
            forall|j: int| 0 <= j < i ==> value@[j] != c,
        decreases n - i,
    {
        if value.get_char(i) == c {
            return true;
        }
        i = i + 1;
    }
    false
}

/// The entry of a blacklist and whether it is already written to the blacklist file.
#[derive(Debug)]
pub struct BlacklistEntry {
    pub value: String,
    pub on_file: bool,
}

impl BlacklistEntry {
    /// An entry that is not yet in the file.
    pub fn new(value: String) -> (r: Self)
        ensures r.value == value, !r.on_file,
    {
        Self { value, on_file: false }
    }

    /// An entry read from the file.
    pub fn new_from_file(value: String) -> (r: Self)
        ensures r.value == value, r.on_file,
    {
        Self { value, on_file: true }
    }

    /// Marks the entry as written to the file.
    pub fn set_on_file_flag(&mut self)
        ensures final(self).value == old(self).value, final(self).on_file,
    {
        self.on_file = true;
    }
}

/// The text a new blacklist file starts with.
pub fn blacklist_file_header() -> (r: &'static str)
    ensures
        r@ == "# A list of Regex-Expressions and/or URLs to be filtered by this blacklist.\n# Comments can be written by starting with a #.\n# To ignore the # at the beginning write \\#.\n"@,
{
    "# A list of Regex-Expressions and/or URLs to be filtered by this blacklist.\n# Comments can be written by starting with a #.\n# To ignore the # at the beginning write \\#.\n"
}

/// What a line of a blacklist file holds: nothing for an empty line or a comment, the line
/// without its backslash where it starts with `\#`, else the line.
pub open spec fn line_entry(line: Seq<char>) -> Option<Seq<char>> {
    if line.len() == 0 {
        None
    } else if line.len() >= 2 && line[0] == '\\' && line[1] == '#' {
        Some(line.drop_first())
    } else if line[0] == '#' {
        None
    } else {
        Some(line)
    }
}

/// Reads one line of a blacklist file.
pub fn interpret_line(line: &str) -> (r: Option<String>)
    ensures
        match r {
            Some(s) => line_entry(line@) == Some(s@),
            None => line_entry(line@) is None,
        },
{
    let n = line.unicode_len();
    if n == 0 {
        return None;
    }
    let first = line.get_char(0);
    if n >= 2 && first == '\\' && line.get_char(1) == '#' {
        let rest = line.substring_char(1, n);
        assert(rest@ =~= line@.drop_first());
        return Some(rest.to_owned());
    }
    if first == '#' {
        return None;
    }
    Some(line.to_owned())
}

/// The entries of a blacklist, in the order they were added, and which of them are in the
/// blacklist file.
#[derive(Debug)]
pub struct InnerBlacklistManager {
    entries: IndexSet<String>,
    on_file: Vec<bool>,
    version_on_hdd: Option<u64>,
}

impl InnerBlacklistManager {
    /// The entries, in the order they were added.
    pub closed spec fn entries(&self) -> Seq<Seq<char>> {
        entry_set_contents(self.entries)
    }

    /// For every entry, whether it is in the blacklist file.
    pub closed spec fn flags(&self) -> Seq<bool> {
        self.on_file@
    }

    /// The number of entries the file held when the entries were first changed after the last
    /// write; `None` while nothing is to be written.
    pub closed spec fn version_on_hdd(&self) -> Option<u64> {
        self.version_on_hdd
    }

    /// The entries are unique, there is a flag for each, and the entries up to the version on
    /// disk (all of them while none is recorded) are in the file.
    pub open spec fn wf(&self) -> bool {
        &&& no_duplicates(self.entries())
        &&& self.flags().len() == self.entries().len()
        &&& self.entries().len() < u64::MAX
        &&& match self.version_on_hdd() {
            None => forall|i: int| 0 <= i < self.flags().len() ==> self.flags()[i],
            Some(v) => v <= self.entries().len()
                && forall|i: int| 0 <= i < v ==> self.flags()[i],
        }
    }

    /// A manager without entries.
    pub fn new_empty() -> (r: Self)
        ensures
            r.wf(),
            r.entries() == Seq::<Seq<char>>::empty(),
            r.version_on_hdd() is None,
    {
        Self { entries: entry_set_new(), on_file: Vec::new(), version_on_hdd: None }
    }

    /// A manager that holds the non-empty lines read from the blacklist file, each once, in
    /// the order of the file.
    pub fn from_file_lines(lines: Vec<String>) -> (r: Self)
        requires lines@.len() < u64::MAX,
        ensures
            r.wf(),
            r.entries() == with_all_inserted(Seq::empty(), views_of(lines@).filter(|l: Seq<char>| l.len() > 0)),
            r.version_on_hdd() is None,
    {
        let mut m = Self::new_empty();
        let mut i: usize = 0;
        let ghost p = |l: Seq<char>| l.len() > 0;
        while i < lines.len()
            invariant
                i <= lines.len(),
                lines@.len() < u64::MAX,
                p == (|l: Seq<char>| l.len() > 0),
                m.wf(),
                m.entries().len() <= i,
                m.version_on_hdd() is None,
                m.entries() == with_all_inserted(Seq::empty(), views_of(lines@.take(i as int)).filter(p)),
            decreases lines.len() - i,
        {
            let line = &lines[i];
            let ghost before = views_of(lines@.take(i as int));
            let ghost after = views_of(lines@.take(i + 1));
            proof {
                assert(after =~= before.push(line@));
                assert(after.drop_last() =~= before);
                before.lemma_filter_push(line@, p);
            }
            if line.as_str().is_empty() == false {
                let ghost fb = before.filter(p);
                proof {
                    assert(p(line@));
                    assert(after == before.push(line@));
                    assert(after.filter(p) == fb.push(line@));
                    assert(fb.push(line@).drop_last() =~= fb);
                    lemma_insert_keeps_no_duplicates(m.entries(), line@);
                }
                let inserted = entry_set_insert(&mut m.entries, line.clone());
                if inserted {
                    m.on_file.push(true);
                }
            } else {
                proof {
                    assert(!p(line@));
                    assert(after == before.push(line@));
                    assert(after.filter(p) == before.filter(p));
                }
            }
            i = i + 1;
        }
        assert(lines@.take(lines.len() as int) =~= lines@);
        m
    }

    /// The version of the blacklist: the number of entries.
    pub fn current_version(&self) -> (r: u64)
        requires self.wf(),
        ensures r == self.entries().len(),
    {
        entry_set_len(&self.entries) as u64
    }

    /// Adds `value`; says whether the entries changed. An empty value or one with a newline is
    /// refused.
    pub fn add(&mut self, value: String) -> (r: Result<bool, BlacklistError>)
        requires old(self).wf(), old(self).entries().len() + 1 < u64::MAX,
        ensures
            final(self).wf(),
            r == add_result(old(self).entries(), value@),
            final(self).entries() == match r {
                Ok(true) => old(self).entries().push(value@),
                _ => old(self).entries(),
            },
            final(self).flags() == match r {
                Ok(true) => old(self).flags().push(false),
                _ => old(self).flags(),
            },
            final(self).version_on_hdd() == match r {
                Ok(_) => match old(self).version_on_hdd() {
                    None => Some(old(self).entries().len() as u64),
                    Some(v) => Some(v),
                },
                Err(_) => old(self).version_on_hdd(),
            },
    {
        if value.as_str().is_empty() {
            return Err(BlacklistError::EmptyStringsNotAllowed);
        }
        if contains_char(value.as_str(), '\n') {
            return Err(BlacklistError::NewLinesNotAllowed);
        }
        if self.version_on_hdd.is_none() {
            self.version_on_hdd = Some(entry_set_len(&self.entries) as u64);
        }
        let ghost v = value@;
        let inserted = entry_set_insert(&mut self.entries, value);
        if inserted {
            self.on_file.push(false);
        }
        proof {
            lemma_insert_keeps_no_duplicates(old(self).entries(), v);
        }
        Ok(inserted)
    }

    /// Adds all strings of `patch`, in order; says whether the entries changed. The strings are
    /// not checked.
    pub fn apply_patch(&mut self, patch: Vec<String>) -> (r: bool)
        requires
            old(self).wf(),
            old(self).entries().len() + patch@.len() + 1 < u64::MAX,
        ensures
            final(self).wf(),
            final(self).entries() == with_all_inserted(old(self).entries(), views_of(patch@)),
            r == (final(self).entries().len() != old(self).entries().len()),
    {
        if self.version_on_hdd.is_none() {
            self.version_on_hdd = Some(entry_set_len(&self.entries) as u64);
        }
        let old_len = entry_set_len(&self.entries);
        let ghost start = self.entries();
        let mut i: usize = 0;
        while i < patch.len()
            invariant
                i <= patch.len(),
                self.wf(),
                self.version_on_hdd() is Some,
                start.len() <= self.entries().len() <= start.len() + i,
                start.len() + patch@.len() + 1 < u64::MAX,
                self.entries() == with_all_inserted(start, views_of(patch@.take(i as int))),
            decreases patch.len() - i,
        {
            let ghost before = views_of(patch@.take(i as int));
            proof {
                assert(views_of(patch@.take(i + 1)).drop_last() =~= before);
                assert(views_of(patch@.take(i + 1)).last() == patch@[i as int]@);
            }
            let inserted = entry_set_insert(&mut self.entries, patch[i].clone());
            if inserted {
                self.on_file.push(false);
            }
            proof {
                lemma_insert_keeps_no_duplicates(with_all_inserted(start, before), patch@[i as int]@);
            }
            i = i + 1;
        }
        assert(patch@.take(patch.len() as int) =~= patch@);
        old_len != entry_set_len(&self.entries)
    }

    /// The entries added after the first `since_version` ones; `None` if there are none.
    pub fn get_patch(&self, since_version: u64) -> (r: Option<Vec<String>>)
        requires self.wf(),
        ensures
            match r {
                None => self.entries().len() <= since_version,
                Some(v) => self.entries().len() > since_version
                    && views_of(v@) == self.entries().skip(since_version as int),
            },
    {
        let len = entry_set_len(&self.entries);
        if (len as u64) <= since_version {
            return None;
        }
        let start = since_version as usize;
        let mut out: Vec<String> = Vec::new();
        let mut i: usize = start;
        while i < len
            invariant
                start <= i <= len,
                len == self.entries().len(),
                views_of(out@) == self.entries().subrange(start as int, i as int),
            decreases len - i,
        {
            let e = entry_set_get(&self.entries, i);
            let ghost prev = out@;
            out.push(e.clone());
            proof {
                assert(views_of(out@) =~= views_of(prev).push(e@));
                assert(views_of(out@) =~= self.entries().subrange(start as int, i + 1));
            }
            i = i + 1;
        }
        assert(self.entries().subrange(start as int, len as int) =~= self.entries().skip(since_version as int));
        Some(out)
    }

    /// True iff there are no entries.
    pub fn is_empty(&self) -> (r: bool)
        ensures r == (self.entries().len() == 0),
    {
        entry_set_len(&self.entries) == 0
    }

    /// All entries, in order.
    pub fn get_string_vec(&self) -> (r: Vec<String>)
        ensures views_of(r@) == self.entries(),
    {
        let len = entry_set_len(&self.entries);
        let mut out: Vec<String> = Vec::new();
        let mut i: usize = 0;
        while i < len
            invariant
                i <= len,
                len == self.entries().len(),
                views_of(out@) == self.entries().take(i as int),
            decreases len - i,
        {
            let e = entry_set_get(&self.entries, i);
            let ghost prev = out@;
            out.push(e.clone());
            proof {
                assert(views_of(out@) =~= views_of(prev).push(e@));
                assert(views_of(out@) =~= self.entries().take(i + 1));
            }
            i = i + 1;
        }
        assert(self.entries().take(len as int) =~= self.entries());
        out
    }

    /// The entry at `index` with its flag.
    pub fn get_entry(&self, index: usize) -> (r: BlacklistEntry)
        requires self.wf(), index < self.entries().len(),
        ensures r.value@ == self.entries()[index as int], r.on_file == self.flags()[index as int],
    {
        BlacklistEntry { value: entry_set_get(&self.entries, index).clone(), on_file: self.on_file[index] }
    }

    /// The blacklist of the current entries, with the current version.
    pub fn create_current_blacklist<T: BlacklistType>(&self) -> (r: Result<T, T::Error>)
        requires self.wf(),
        ensures
            r is Ok <==> T::accepts(self.entries()),
            r matches Ok(b) ==> b.version_of() == self.entries().len(),
            r matches Ok(b) ==> forall|u: Seq<char>| #[trigger] b.matches(u) == T::entries_match(self.entries(), u),
    {
        let entries = self.get_string_vec();
        T::new(self.current_version(), &entries)
    }

    /// The entries that still have to be written to the blacklist file, in order; they count
    /// as written afterwards. Nothing is to be written while no change was recorded.
    pub fn take_unwritten(&mut self) -> (r: Vec<String>)
        requires old(self).wf(),
        ensures
            final(self).wf(),
            final(self).entries() == old(self).entries(),
            views_of(r@) == unflagged(old(self).entries(), old(self).flags()),
            forall|i: int| 0 <= i < final(self).flags().len() ==> final(self).flags()[i],
            match old(self).version_on_hdd() {
                None => final(self).version_on_hdd() is None,
                Some(v) => if old(self).entries().len() <= v {
                    final(self).version_on_hdd() == old(self).version_on_hdd()
                } else {
                    final(self).version_on_hdd() is None
                },
            },
    {
        match self.version_on_hdd {
            None => {
                proof {
                    lemma_unflagged_all_set(self.entries(), self.flags());
                }
                return Vec::new();
            }
            Some(size) => {
                if entry_set_len(&self.entries) as u64 <= size {
                    proof {
                        lemma_unflagged_all_set(self.entries(), self.flags());
                    }
                    return Vec::new();
                }
            }
        }
        let len = entry_set_len(&self.entries);
        let ghost old_flags = self.flags();
        let mut out: Vec<String> = Vec::new();
        let mut i: usize = 0;
        while i < len
            invariant
                i <= len,
                len == self.entries().len(),
                self.entries() == old(self).entries(),
                self.on_file@.len() == len,
                no_duplicates(self.entries()),
                old_flags.len() == len,
                forall|j: int| 0 <= j < i ==> self.on_file@[j],
                forall|j: int| i <= j < len ==> self.on_file@[j] == old_flags[j],
                views_of(out@) == unflagged(self.entries().take(i as int), old_flags.take(i as int)),
            decreases len - i,
        {
            proof {
                assert(self.entries().take(i + 1).drop_last() =~= self.entries().take(i as int));
                assert(old_flags.take(i + 1).drop_last() =~= old_flags.take(i as int));
            }
            if !self.on_file[i] {
                let e = entry_set_get(&self.entries, i);
                out.push(e.clone());
                proof {
                    assert(views_of(out@) =~= views_of(out@.drop_last()).push(self.entries()[i as int]));
                }
                self.on_file.set(i, true);
            }
            i = i + 1;
        }
        proof {
            assert(self.entries().take(len as int) =~= self.entries());
            assert(old_flags.take(len as int) =~= old_flags);
        }
        self.version_on_hdd = None;
        out
    }
}

/// The entries of a blacklist together with the shared blacklist built from them.
#[verifier::reject_recursive_types(T)]
pub struct InMemoryBlacklistManager<T: ManageableBlacklist> {
    inner: InnerBlacklistManager,
    version: u64,
    sender: ManagedBlacklistSender<T>,
    managed: ManagedBlacklist<T>,
}

/// Why a blacklist manager could not be opened.
#[derive(Debug)]
pub enum InMemoryBlacklistManagerInitialisationError<E> {
    IO(std::io::Error),
    InitError(E),
}

impl<T: ManageableBlacklist> InMemoryBlacklistManager<T> {
    /// The entries.
    pub closed spec fn entries(&self) -> Seq<Seq<char>> {
        self.inner.entries()
    }

    /// The version of the blacklist that is shared now.
    pub closed spec fn shared_version(&self) -> u64 {
        self.version
    }

    /// For every entry, whether it is in the blacklist file.
    pub closed spec fn flags(&self) -> Seq<bool> {
        self.inner.flags()
    }

    /// The lock that the manager shares the blacklist through; while the manager is well
    /// formed, it is the one the manager writes into.
    pub closed spec fn shared_lock(&self) -> RwLock<T, spec_fn(T) -> bool> {
        self.managed.shared_lock()
    }

    /// The entries are well formed, the shared blacklist is not newer than they are, and the
    /// manager reads the shared blacklist from the lock it writes it into.
    pub closed spec fn wf(&self) -> bool {
        &&& self.inner.wf()
        &&& self.version <= self.inner.entries().len()
        &&& self.managed.shared_lock() == self.sender.shared_lock()
    }

    /// A manager over `inner` that shares the blacklist built from its entries; fails where the
    /// blacklist cannot be built.
    pub fn open(inner: InnerBlacklistManager) -> (r: Result<Self, InMemoryBlacklistManagerInitialisationError<T::Error>>)
        requires inner.wf(),
        ensures
            r is Ok <==> T::accepts(inner.entries()),
            r matches Ok(m) ==> m.wf() && m.entries() == inner.entries()
                && m.shared_version() == inner.entries().len(),
    {
        match inner.create_current_blacklist::<T>() {
            Ok(blacklist) => {
                let version = inner.current_version();
                let (managed, sender) = create_managed_blacklist(blacklist);
                Ok(Self { inner, version, sender, managed })
            }
            Err(e) => Err(InMemoryBlacklistManagerInitialisationError::InitError(e)),
        }
    }

    /// Rebuilds and shares the blacklist if the entries are newer than the shared one; says
    /// whether it did.
    pub fn patch(&mut self) -> (r: bool)
        requires old(self).wf(),
        ensures
            final(self).wf(),
            final(self).entries() == old(self).entries(),
            final(self).flags() == old(self).flags(),
            r ==> final(self).shared_version() == old(self).entries().len(),
            !r ==> final(self).shared_version() == old(self).shared_version(),
            r <==> (old(self).shared_version() < old(self).entries().len()
                && T::accepts(old(self).entries())),
    {
        let current = self.inner.current_version();
        if self.version < current {
            match self.inner.create_current_blacklist::<T>() {
                Ok(value) => {
                    self.sender.update(value);
                    self.version = current;
                    true
                }
                Err(_) => false,
            }
        } else {
            false
        }
    }

    /// The version of the entries.
    pub fn current_version(&self) -> (r: u64)
        requires self.wf(),
        ensures r == self.entries().len(),
    {
        self.inner.current_version()
    }

    /// Adds `value` and shares the new blacklist if the entries changed.
    pub fn add(&mut self, value: String) -> (r: Result<bool, BlacklistError>)
        requires old(self).wf(), old(self).entries().len() + 1 < u64::MAX,
        ensures
            final(self).wf(),
            r == add_result(old(self).entries(), value@),
            final(self).entries() == match r {
                Ok(true) => old(self).entries().push(value@),
                _ => old(self).entries(),
            },
            final(self).flags() == match r {
                Ok(true) => old(self).flags().push(false),
                _ => old(self).flags(),
            },
            r == Ok::<bool, BlacklistError>(true) ==> (final(self).shared_version() == final(self).entries().len()
                <==> T::accepts(final(self).entries())),
            r != Ok::<bool, BlacklistError>(true) ==> final(self).shared_version() == old(self).shared_version(),
    {
        let result = self.inner.add(value);
        match result {
            Ok(true) => {
                self.patch();
            }
            _ => {}
        }
        result
    }

    /// Adds all strings of `patch` and shares the new blacklist if the entries changed.
    pub fn apply_patch(&mut self, patch: Vec<String>)
        requires
            old(self).wf(),
            old(self).entries().len() + patch@.len() + 1 < u64::MAX,
        ensures
            final(self).wf(),
            final(self).entries() == with_all_inserted(old(self).entries(), views_of(patch@)),
            final(self).entries().len() != old(self).entries().len() ==> (
                final(self).shared_version() == final(self).entries().len()
                    <==> T::accepts(final(self).entries())),
            final(self).entries().len() == old(self).entries().len()
                ==> final(self).shared_version() == old(self).shared_version(),
    {
        let ghost before = self.inner.entries();
        let ghost added = views_of(patch@);
        let changed = self.inner.apply_patch(patch);
        proof {
            law_insert_all_keeps_entries(before, added);
        }
        if changed {
            self.patch();
        }
    }

    /// The entries added after the first `since_version` ones; `None` if there are none.
    pub fn get_patch(&self, since_version: u64) -> (r: Option<Vec<String>>)
        requires self.wf(),
        ensures
            match r {
                None => self.entries().len() <= since_version,
                Some(v) => self.entries().len() > since_version
                    && views_of(v@) == self.entries().skip(since_version as int),
            },
    {
        self.inner.get_patch(since_version)
    }

    /// True iff there are no entries.
    pub fn is_empty(&self) -> (r: bool)
        ensures r == (self.entries().len() == 0),
    {
        self.inner.is_empty()
    }

    /// A handle to the shared blacklist: it reads from the lock the manager shares it through.
    pub fn get_blacklist(&self) -> (r: ManagedBlacklist<T>)
        ensures r.shared_lock() == self.shared_lock(),
    {
        self.managed.duplicate()
    }

    /// The entries that still have to be written to the blacklist file, in order; they count
    /// as written afterwards.
    pub fn take_unwritten(&mut self) -> (r: Vec<String>)
        requires old(self).wf(),
        ensures
            final(self).wf(),
            final(self).entries() == old(self).entries(),
            views_of(r@) == unflagged(old(self).entries(), old(self).flags()),
            forall|i: int| 0 <= i < final(self).flags().len() ==> final(self).flags()[i],
    {
        self.inner.take_unwritten()
    }
}

/// An entry that is added is to be written, after the ones that were to be written before.
pub proof fn law_added_entry_is_unwritten(entries: Seq<Seq<char>>, flags: Seq<bool>, value: Seq<char>)
    requires entries.len() == flags.len(),
    ensures unflagged(entries.push(value), flags.push(false)) == unflagged(entries, flags).push(value),
{
    assert(entries.push(value).drop_last() =~= entries);
    assert(flags.push(false).drop_last() =~= flags);
}

/// Where no entry is written yet, all entries are to be written, in order.
pub proof fn law_nothing_written_all_unwritten(entries: Seq<Seq<char>>, flags: Seq<bool>)
    requires
        entries.len() == flags.len(),
        forall|i: int| 0 <= i < flags.len() ==> !#[trigger] flags[i],
    ensures unflagged(entries, flags) == entries,
    decreases entries.len(),
{
    if entries.len() > 0 {
        law_nothing_written_all_unwritten(entries.drop_last(), flags.drop_last());
        assert(entries.drop_last().push(entries.last()) =~= entries);
    }
}

/// Adding an entry that is already there changes nothing and reports that.
pub proof fn law_add_is_idempotent(s: Seq<Seq<char>>, value: Seq<char>)
    requires s.contains(value), value.len() > 0, !value.contains('\n'),
    ensures add_result(s, value) == Ok::<bool, BlacklistError>(false),
{
}

/// Inserting keeps the entries unique and never loses one.
pub proof fn law_insert_all_keeps_entries(s: Seq<Seq<char>>, patch: Seq<Seq<char>>)
    requires no_duplicates(s),
    ensures
        no_duplicates(with_all_inserted(s, patch)),
        s.len() <= with_all_inserted(s, patch).len(),
        forall|i: int| 0 <= i < s.len() ==> with_all_inserted(s, patch)[i] == s[i],
        forall|i: int| 0 <= i < patch.len() ==> with_all_inserted(s, patch).contains(#[trigger] patch[i]),
    decreases patch.len(),
{
    if patch.len() > 0 {
        law_insert_all_keeps_entries(s, patch.drop_last());
        let t = with_all_inserted(s, patch.drop_last());
        assert forall|i: int| 0 <= i < patch.len() implies with_all_inserted(s, patch).contains(#[trigger] patch[i]) by {
            if i < patch.len() - 1 {
                assert(patch.drop_last()[i] == patch[i]);
                assert(t.contains(patch[i]));
                if !t.contains(patch.last()) {
                    let k = choose|k: int| 0 <= k < t.len() && t[k] == patch[i];
                    assert(t.push(patch.last())[k] == patch[i]);
                }
            } else {
                if !t.contains(patch.last()) {
                    assert(t.push(patch.last())[t.len() as int] == patch.last());
                }
            }
        }
    }
}

/// A patch taken since a version and applied to the entries up to that version restores
/// the entries.
pub proof fn law_patch_round_trip(s: Seq<Seq<char>>, since: int)
    requires no_duplicates(s), 0 <= since <= s.len(),
    ensures with_all_inserted(s.take(since), s.skip(since)) == s,
    decreases s.len() - since,
{
    if since < s.len() {
        law_patch_round_trip(s, since + 1);
        lemma_insert_all_step(s, since);
    } else {
        assert(s.take(since) =~= s);
        assert(s.skip(since) =~= Seq::<Seq<char>>::empty());
    }
}

proof fn lemma_insert_all_step(s: Seq<Seq<char>>, since: int)
    requires
        no_duplicates(s),
        0 <= since < s.len(),
        with_all_inserted(s.take(since + 1), s.skip(since + 1)) == s,
    ensures with_all_inserted(s.take(since), s.skip(since)) == s,
{
    lemma_prepend_fresh(s.take(since), s[since], s.skip(since + 1));
    assert(s.skip(since) =~= seq![s[since]] + s.skip(since + 1));
    assert(s.take(since).push(s[since]) =~= s.take(since + 1));
    assert(!s.take(since).contains(s[since])) by {
        if s.take(since).contains(s[since]) {
            let k = choose|k: int| 0 <= k < since && s.take(since)[k] == s[since];
            assert(s[k] == s[since]);
        }
    }
}

proof fn lemma_prepend_fresh(a: Seq<Seq<char>>, v: Seq<char>, rest: Seq<Seq<char>>)
    requires !a.contains(v),
    ensures with_all_inserted(a, seq![v] + rest) == with_all_inserted(a.push(v), rest),
    decreases rest.len(),
{
    if rest.len() == 0 {
        assert((seq![v] + rest).drop_last() =~= Seq::<Seq<char>>::empty());
        assert(with_all_inserted(a, Seq::<Seq<char>>::empty()) == a);
    } else {
        lemma_prepend_fresh(a, v, rest.drop_last());
        assert((seq![v] + rest).drop_last() =~= seq![v] + rest.drop_last());
        assert((seq![v] + rest).last() == rest.last());
    }
}

} // verus!
