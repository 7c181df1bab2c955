//! Blacklists: urls that match one of their entries are not crawled.

use vstd::prelude::*;
use vstd::rwlock::{RwLock, RwLockPredicate};
use std::sync::Arc;
use regex::RegexSet;

verus! {

#[verifier::external_type_specification]
#[verifier::external_body]
pub struct ExRegexSet(regex::RegexSet);

#[verifier::external_type_specification]
#[verifier::external_body]
pub struct ExRegexError(regex::Error);

/// True iff every text in `patterns` is a regular expression that `regex::RegexSet::new` accepts.
pub uninterp spec fn regex_set_accepts(patterns: Seq<Seq<char>>) -> bool;

/// The views of a sequence of strings.
pub open spec fn views_of(strings: Seq<String>) -> Seq<Seq<char>> {
    strings.map_values(|s: String| s@)
}

/// The patterns a `regex::RegexSet` was compiled from, in order, as `RegexSet::patterns` gives them.
pub uninterp spec fn regex_set_patterns(set: RegexSet) -> Seq<Seq<char>>;

/// What `regex::RegexSet::is_match` gives for a set compiled from `patterns` and the text `text`:
/// whether one of the patterns matches somewhere in the text.
pub uninterp spec fn regex_set_matches(patterns: Seq<Seq<char>>, text: Seq<char>) -> bool;

/// `regex::RegexSet::new`: compiles the patterns into one set, which keeps them in order; it
/// fails exactly when `regex_set_accepts` says so.
#[verifier::external_body]
fn compile_regex_set(patterns: &Vec<String>) -> (r: Result<RegexSet, regex::Error>)
    ensures
        r is Ok <==> regex_set_accepts(views_of(patterns@)),
        r matches Ok(set) ==> regex_set_patterns(set) == views_of(patterns@),
{
    RegexSet::new(patterns.iter())
}

/// `regex::RegexSet::empty`: a set that holds no pattern and so matches no text.
#[verifier::external_body]
fn empty_regex_set() -> (r: RegexSet)
    ensures
        regex_set_patterns(r) == Seq::<Seq<char>>::empty(),
        forall|t: Seq<char>| !#[trigger] regex_set_matches(regex_set_patterns(r), t),
{
    RegexSet::empty()
}

/// `regex::RegexSet::is_match`: whether one of the patterns of the set matches somewhere in `text`.
#[verifier::external_body]
fn regex_set_is_match(set: &RegexSet, text: &str) -> (r: bool)
    ensures r == regex_set_matches(regex_set_patterns(*set), text@),
{
    set.is_match(text)
}

/// Something that decides for urls whether they are blacklisted.
pub trait Blacklist {
    /// The version of the blacklist.
    spec fn version_of(&self) -> u64;

    /// True iff the blacklist matches the url `url`.
    spec fn matches(&self, url: Seq<char>) -> bool;

    /// The current version of the blacklist.
    fn version(&self) -> (r: u64)
        ensures r == self.version_of();

    /// Checks the [url] and returns true if this blacklist has a match for it.
    fn has_match_for(&self, url: &str) -> (r: bool)
        ensures r == self.matches(url@);
}

/// A blacklist that can be built from a list of entries.
pub trait BlacklistType: Blacklist + Sized {
    type Error;

    /// True iff a blacklist of this type can be built from `entries`.
    spec fn accepts(entries: Seq<Seq<char>>) -> bool;

    /// True iff a blacklist of this type built from `entries` matches the url `url`.
    spec fn entries_match(entries: Seq<Seq<char>>, url: Seq<char>) -> bool;

    /// Creates a new blacklist from the entries.
    fn new(version: u64, src: &Vec<String>) -> (r: Result<Self, Self::Error>)
        ensures
            r is Ok <==> Self::accepts(views_of(src@)),
            r matches Ok(b) ==> b.version_of() == version,
            r matches Ok(b) ==> forall|u: Seq<char>| #[trigger] b.matches(u) == Self::entries_match(views_of(src@), u);
}

/// A blacklist that a manager can hold.
pub trait ManageableBlacklist: Blacklist + BlacklistType {}

/// A blacklist without entries.
#[derive(Debug, Clone, Copy)]
pub struct EmptyBlackList(pub u64);

impl Default for EmptyBlackList {
    fn default() -> (r: Self)
        ensures r.0 == 0,
    {
        EmptyBlackList(0)
    }
}

impl Blacklist for EmptyBlackList {
    open spec fn version_of(&self) -> u64 { self.0 }

    open spec fn matches(&self, url: Seq<char>) -> bool { false }

    fn version(&self) -> (r: u64) {
        self.0
    }

    fn has_match_for(&self, url: &str) -> (r: bool) {
        false
    }
}

impl BlacklistType for EmptyBlackList {
    type Error = BlacklistError;

    open spec fn accepts(entries: Seq<Seq<char>>) -> bool { true }

    open spec fn entries_match(entries: Seq<Seq<char>>, url: Seq<char>) -> bool { false }

    fn new(version: u64, src: &Vec<String>) -> (r: Result<Self, Self::Error>)
        ensures r == Ok::<EmptyBlackList, BlacklistError>(EmptyBlackList(version)),
    {
        Ok(EmptyBlackList(version))
    }
}

impl ManageableBlacklist for EmptyBlackList {}

/// A blacklist of regular expressions: an url is blacklisted if one of them matches it.
#[derive(Debug)]
pub struct RegexBlackList {
    version: u64,
    inner: RegexSet,
}

impl RegexBlackList {
    /// The expressions of the blacklist, in order.
    pub closed spec fn patterns(&self) -> Seq<Seq<char>> {
        regex_set_patterns(self.inner)
    }

    /// A blacklist of the single expression `s`, with the version 0.
    pub fn from_str(s: &str) -> (r: Result<Self, regex::Error>)
        ensures
            r is Ok <==> regex_set_accepts(seq![s@]),
            r matches Ok(b) ==> b.version_of() == 0 && b.patterns() == seq![s@],
    {
        let mut patterns: Vec<String> = Vec::new();
        patterns.push(s.to_owned());
        proof {
            assert(views_of(patterns@) =~= seq![s@]);
        }
        match compile_regex_set(&patterns) {
            Ok(inner) => Ok(Self { version: 0, inner }),
            Err(e) => Err(e),
        }
    }
}

impl Default for RegexBlackList {
    fn default() -> (r: Self)
        ensures
            r.version_of() == 0,
            r.patterns() == Seq::<Seq<char>>::empty(),
            forall|u: Seq<char>| !#[trigger] r.matches(u),
    {
        Self { version: 0, inner: empty_regex_set() }
    }
}

impl Blacklist for RegexBlackList {
    closed spec fn version_of(&self) -> u64 { self.version }

    open spec fn matches(&self, url: Seq<char>) -> bool {
        regex_set_matches(self.patterns(), url)
    }

    fn version(&self) -> (r: u64) {
        self.version
    }

    fn has_match_for(&self, url: &str) -> (r: bool) {
        regex_set_is_match(&self.inner, url)
    }
}

impl BlacklistType for RegexBlackList {
    type Error = regex::Error;

    open spec fn accepts(entries: Seq<Seq<char>>) -> bool { regex_set_accepts(entries) }

    open spec fn entries_match(entries: Seq<Seq<char>>, url: Seq<char>) -> bool {
        regex_set_matches(entries, url)
    }

    fn new(version: u64, src: &Vec<String>) -> (r: Result<Self, Self::Error>)
        ensures r matches Ok(b) ==> b.patterns() == views_of(src@),
    {
        match compile_regex_set(src) {
            Ok(inner) => Ok(Self { version, inner }),
            Err(e) => Err(e),
        }
    }
}

impl ManageableBlacklist for RegexBlackList {}

/// Either a regex blacklist or an empty one.
#[derive(Debug)]
pub enum PolyBlackList {
    Regex(RegexBlackList),
    Empty(EmptyBlackList),
}

/// The error of building a [`PolyBlackList`].
#[derive(Debug)]
pub enum PolyBlackListError {
    Regex(regex::Error),
}

impl Default for PolyBlackList {
    fn default() -> (r: Self)
        ensures r == PolyBlackList::Empty(EmptyBlackList(0)),
    {
        Self::Empty(EmptyBlackList::default())
    }
}

impl Blacklist for PolyBlackList {
    open spec fn version_of(&self) -> u64 {
        match self {
            PolyBlackList::Regex(a) => a.version_of(),
            PolyBlackList::Empty(a) => a.version_of(),
        }
    }

    open spec fn matches(&self, url: Seq<char>) -> bool {
        match self {
            PolyBlackList::Regex(a) => a.matches(url),
            PolyBlackList::Empty(a) => a.matches(url),
        }
    }

    fn version(&self) -> (r: u64) {
        match self {
            PolyBlackList::Regex(a) => a.version(),
            PolyBlackList::Empty(a) => a.version(),
        }
    }

    fn has_match_for(&self, url: &str) -> (r: bool) {
        match self {
            PolyBlackList::Regex(a) => a.has_match_for(url),
            PolyBlackList::Empty(a) => a.has_match_for(url),
        }
    }
}

impl From<RegexBlackList> for PolyBlackList {
    fn from(value: RegexBlackList) -> (r: Self) {
        Self::Regex(value)
    }
}

impl vstd::std_specs::convert::FromSpecImpl<RegexBlackList> for PolyBlackList {
    open spec fn obeys_from_spec() -> bool { true }

    open spec fn from_spec(v: RegexBlackList) -> Self { PolyBlackList::Regex(v) }
}

impl From<EmptyBlackList> for PolyBlackList {
    fn from(value: EmptyBlackList) -> (r: Self) {
        Self::Empty(value)
    }
}

impl vstd::std_specs::convert::FromSpecImpl<EmptyBlackList> for PolyBlackList {
    open spec fn obeys_from_spec() -> bool { true }

    open spec fn from_spec(v: EmptyBlackList) -> Self { PolyBlackList::Empty(v) }
}

impl BlacklistType for PolyBlackList {
    type Error = PolyBlackListError;

    open spec fn accepts(entries: Seq<Seq<char>>) -> bool {
        entries.len() == 0 || regex_set_accepts(entries)
    }

    open spec fn entries_match(entries: Seq<Seq<char>>, url: Seq<char>) -> bool {
        entries.len() > 0 && regex_set_matches(entries, url)
    }

    /// No entries give an empty blacklist, otherwise a regex blacklist of all entries.
    fn new(version: u64, src: &Vec<String>) -> (r: Result<Self, Self::Error>)
        ensures
            src@.len() == 0 ==> (r matches Ok(PolyBlackList::Empty(e)) && e.0 == version),
            src@.len() > 0 ==> (r is Ok <==> r matches Ok(PolyBlackList::Regex(_))),
    {
        if src.len() == 0 {
            Ok(Self::Empty(EmptyBlackList(version)))
        } else {
            match RegexBlackList::new(version, src) {
                Ok(b) => Ok(Self::Regex(b)),
                Err(e) => Err(PolyBlackListError::Regex(e)),
            }
        }
    }
}

impl ManageableBlacklist for PolyBlackList {}

/// The predicate of the shared blacklist: any blacklist may be stored.
pub open spec fn any_blacklist<T>() -> spec_fn(T) -> bool {
    |v: T| true
}

/// A blacklist shared between the crawl workers; it always reads the latest update.
#[verifier::reject_recursive_types(T)]
pub struct ManagedBlacklist<T: ManageableBlacklist> {
    inner: Arc<RwLock<T, spec_fn(T) -> bool>>,
}

/// The handle that replaces the shared blacklist.
#[verifier::reject_recursive_types(T)]
pub struct ManagedBlacklistSender<T: ManageableBlacklist> {
    sender: Arc<RwLock<T, spec_fn(T) -> bool>>,
}

/// Creates a shared blacklist and the handle that updates it: both share one new lock, made
/// with `blacklist`, that may hold any blacklist.
pub fn create_managed_blacklist<T: ManageableBlacklist>(blacklist: T) -> (r: (ManagedBlacklist<T>, ManagedBlacklistSender<T>))
    ensures
        r.0.shared_lock() == r.1.shared_lock(),
        r.0.shared_lock().pred() == any_blacklist::<T>(),
{
    let lock = RwLock::new(blacklist, Ghost(any_blacklist::<T>()));
    let blacklist = Arc::new(lock);
    let managed = ManagedBlacklist::new(blacklist.clone());
    (managed, ManagedBlacklistSender::new(blacklist))
}

impl<T: ManageableBlacklist> ManagedBlacklistSender<T> {
    /// The lock that this handle writes the shared blacklist into.
    pub closed spec fn shared_lock(&self) -> RwLock<T, spec_fn(T) -> bool> {
        *self.sender
    }

    #[verifier::type_invariant]
    spec fn stores_any(self) -> bool {
        (*self.sender).pred() == any_blacklist::<T>()
    }

    /// The handle that replaces the blacklist in `sender`.
    fn new(sender: Arc<RwLock<T, spec_fn(T) -> bool>>) -> (r: Self)
        requires (*sender).pred() == any_blacklist::<T>(),
        ensures r.shared_lock() == *sender,
    {
        Self { sender }
    }

    /// Replaces the shared blacklist by `new`; every [`ManagedBlacklist`] of it reads `new` from now on.
    pub fn update(&self, new: T) {
        proof {
            use_type_invariant(self);
        }
        let (_old, handle) = self.sender.acquire_write();
        handle.release_write(new);
    }

    /// Another handle to the same blacklist.
    pub fn duplicate(&self) -> (r: Self)
        ensures r.shared_lock() == self.shared_lock(),
    {
        proof {
            use_type_invariant(self);
        }
        Self { sender: self.sender.clone() }
    }
}

impl<T: ManageableBlacklist> ManagedBlacklist<T> {
    /// The lock that this handle reads the shared blacklist from.
    pub closed spec fn shared_lock(&self) -> RwLock<T, spec_fn(T) -> bool> {
        *self.inner
    }

    #[verifier::type_invariant]
    spec fn stores_any(self) -> bool {
        (*self.inner).pred() == any_blacklist::<T>()
    }

    /// A reader of the blacklist in `inner`.
    fn new(inner: Arc<RwLock<T, spec_fn(T) -> bool>>) -> (r: Self)
        requires (*inner).pred() == any_blacklist::<T>(),
        ensures r.shared_lock() == *inner,
    {
        Self { inner }
    }

    /// The version of the blacklist that is shared now: of a blacklist that the shared lock
    /// holds when it is read. Which one that is depends on the updates other handles made
    /// before, which the lock does not track.
    pub fn version(&self) -> (r: u64)
        ensures exists|b: T| self.shared_lock().inv(b) && #[trigger] b.version_of() == r,
    {
        let handle = self.inner.acquire_read();
        let v = handle.borrow().version();
        let ghost read = handle.view();
        handle.release_read();
        assert(self.shared_lock().inv(read) && read.version_of() == v);
        v
    }

    /// True iff the blacklist that is shared now has a match for `url`: whether a blacklist
    /// that the shared lock holds when it is read matches `url`. Which one that is depends on
    /// the updates other handles made before, which the lock does not track.
    pub fn has_match_for(&self, url: &str) -> (r: bool)
        ensures exists|b: T| self.shared_lock().inv(b) && #[trigger] b.matches(url@) == r,
    {
        let handle = self.inner.acquire_read();
        let v = handle.borrow().has_match_for(url);
        let ghost read = handle.view();
        handle.release_read();
        assert(self.shared_lock().inv(read) && read.matches(url@) == v);
        v
    }

    /// Another handle to the same blacklist.
    pub fn duplicate(&self) -> (r: Self)
        ensures r.shared_lock() == self.shared_lock(),
    {
        proof {
            use_type_invariant(self);
        }
        Self { inner: self.inner.clone() }
    }
}

/// Why an entry cannot be added to a blacklist.
#[derive(Debug, Clone, Copy, PartialEq, Eq, Structural)]
pub enum BlacklistError {
    /// A blacklist entry can not contain a newline.
    NewLinesNotAllowed,
    /// A blacklist entry can not not be empty.
    EmptyStringsNotAllowed,
}

impl BlacklistError {
    /// The message of the error.
    pub fn message(&self) -> (r: &'static str)
        ensures
            r@ == match self {
                BlacklistError::NewLinesNotAllowed => "Tried to add something with a new line separator to the queue."@,
                BlacklistError::EmptyStringsNotAllowed => "Tried to add an empty string to the queue"@,
            },
    {
        match self {
            BlacklistError::NewLinesNotAllowed => "Tried to add something with a new line separator to the queue.",
            BlacklistError::EmptyStringsNotAllowed => "Tried to add an empty string to the queue",
        }
    }
}

} // verus!
