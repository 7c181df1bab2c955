//! Cookies to send, per domain and by default.

use vstd::prelude::*;
use crate::domain_map::{DomainMappingManager, last_value_for};

verus! {

/// The cookies of a crawl as configured: a default and the cookies of single hosts.
#[derive(Debug, Clone)]
pub struct CookieSettings {
    pub default: Option<String>,
    pub per_host: Option<Vec<(String, String)>>,
}

/// The cookie that `settings` gives the host `host`.
pub open spec fn cookie_for_host(settings: Option<&CookieSettings>, host: Seq<char>) -> Option<String> {
    match settings {
        None => None,
        Some(s) => match s.per_host {
            Some(pairs) => match last_value_for(pairs@, host) {
                Some(v) => Some(v),
                None => s.default,
            },
            None => s.default,
        },
    }
}

/// Keeps the cookie of every domain, over a default cookie.
pub trait CookieManager {
    /// The cookie that holds for `domain`.
    spec fn cookie_of(&self, domain: Seq<char>) -> Option<String>;

    /// The default cookie.
    spec fn default_cookie(&self) -> Option<String>;

    fn get_default_cookie(&self) -> (r: &Option<String>)
        ensures *r == self.default_cookie();

    fn get_cookies_for(&self, domain: &str) -> (r: &Option<String>)
        ensures *r == self.cookie_of(domain@);

    fn set_cookie(&mut self, key: String, value: Option<String>)
        ensures
            final(self).default_cookie() == old(self).default_cookie(),
            forall|d: Seq<char>| #[trigger] final(self).cookie_of(d)
                == if d == key@ { value } else { old(self).cookie_of(d) };

    fn set_default_cookie(&mut self, value: Option<String>)
        ensures final(self).default_cookie() == value;
}

/// Keeps the cookies in memory.
#[derive(Debug)]
pub struct InMemoryCookieManager {
    inner: DomainMappingManager<Option<String>>,
}

impl InMemoryCookieManager {
    pub closed spec fn inner(&self) -> DomainMappingManager<Option<String>> {
        self.inner
    }

    pub fn new(inner: DomainMappingManager<Option<String>>) -> (r: Self)
        ensures r.inner() == inner,
    {
        Self { inner }
    }

    /// A manager that holds what `settings` says; without settings there are no cookies.
    pub fn create(settings: Option<&CookieSettings>) -> (r: Self)
        ensures
            r.default_cookie() == match settings {
                None => None,
                Some(s) => s.default,
            },
            forall|h: Seq<char>| #[trigger] r.cookie_of(h) == cookie_for_host(settings, h),
    {
        match settings {
            None => Self::new(DomainMappingManager::new(None)),
            Some(value) => {
                let default = match &value.default {
                    Some(s) => Some(s.clone()),
                    None => None,
                };
                let mut new = Self::new(DomainMappingManager::new(default));
                if let Some(pairs) = value.per_host.as_ref() {
                    let mut i: usize = 0;
                    while i < pairs.len()
                        invariant
                            i <= pairs.len(),
                            new.default_cookie() == value.default,
                            forall|h: Seq<char>| #[trigger] new.cookie_of(h)
                                == match last_value_for(pairs@.take(i as int), h) {
                                    Some(v) => Some(v),
                                    None => value.default,
                                },
                        decreases pairs.len() - i,
                    {
                        let k = pairs[i].0.clone();
                        let v = pairs[i].1.clone();
                        new.set_cookie(k, Some(v));
                        proof {
                            assert(pairs@.take(i + 1).drop_last() =~= pairs@.take(i as int));
                        }
                        i = i + 1;
                    }
                    assert(pairs@.take(pairs.len() as int) =~= pairs@);
                }
                new
            }
        }
    }
}

impl CookieManager for InMemoryCookieManager {
    open spec fn cookie_of(&self, domain: Seq<char>) -> Option<String> {
        self.inner().lookup(domain)
    }

    open spec fn default_cookie(&self) -> Option<String> {
        self.inner().default_value()
    }

    fn get_default_cookie(&self) -> (r: &Option<String>) {
        self.inner.get_default()
    }

    fn get_cookies_for(&self, domain: &str) -> (r: &Option<String>) {
        self.inner.get_for(domain)
    }

    fn set_cookie(&mut self, key: String, value: Option<String>) {
        self.inner.set(key, value)
    }

    fn set_default_cookie(&mut self, value: Option<String>) {
        self.inner.set_default(value)
    }
}

} // verus!
