//! Transport configuration.
use vstd::prelude::*;
use std::time::Duration;
use crate::text::str_eq;

verus! {

/// Value of `key` among header entries: the latest entry with that name.
pub open spec fn lookup(entries: Seq<(String, String)>, key: Seq<char>) -> Option<Seq<char>>
    decreases entries.len(),
{
    if entries.len() == 0 {
        None
    } else if entries.last().0@ == key {
        Some(entries.last().1@)
    } else {
        lookup(entries.drop_last(), key)
    }
}

/// Entries without those named `key`.
pub open spec fn without(entries: Seq<(String, String)>, key: Seq<char>) -> Seq<(String, String)>
    decreases entries.len(),
{
    if entries.len() == 0 {
        Seq::empty()
    } else if entries.last().0@ == key {
        without(entries.drop_last(), key)
    } else {
        without(entries.drop_last(), key).push(entries.last())
    }
}

proof fn lemma_without_lookup(entries: Seq<(String, String)>, key: Seq<char>, other: Seq<char>)
    requires
        other != key,
    ensures
        lookup(without(entries, key), other) == lookup(entries, other),
    decreases entries.len(),
{
    if entries.len() > 0 {
        lemma_without_lookup(entries.drop_last(), key, other);
        if entries.last().0@ != key {
            assert(without(entries, key).drop_last() =~= without(entries.drop_last(), key));
        }
    }
}

/// Extra HTTP headers; setting a name again replaces its value.
#[derive(Clone, Debug)]
pub struct Headers {
    entries: Vec<(String, String)>,
}

impl Headers {
    pub closed spec fn spec_get(&self, key: Seq<char>) -> Option<Seq<char>> {
        lookup(self.entries@, key)
    }

    /// No headers.
    pub fn new() -> (r: Headers)
        ensures
            forall|k: Seq<char>| r.spec_get(k) is None,
    {
        Headers { entries: Vec::new() }
    }

    /// Sets `key` to `value`.
    pub fn insert(&mut self, key: String, value: String)
        ensures
            final(self).spec_get(key@) == Some(value@),
            forall|k: Seq<char>| k != key@ ==> final(self).spec_get(k) == old(self).spec_get(k),
    {
        let ghost old_entries = self.entries@;
        let mut kept: Vec<(String, String)> = Vec::new();
        let mut i: usize = 0;
        while i < self.entries.len()
            invariant
                i <= self.entries@.len(),
                self.entries@ == old_entries,
                kept@ == without(old_entries.take(i as int), key@),
            decreases self.entries@.len() - i,
        {
            proof {
                assert(old_entries.take(i + 1).drop_last() =~= old_entries.take(i as int));
            }
            let e = &self.entries[i];
            if !str_eq(e.0.as_str(), key.as_str()) {
                kept.push((e.0.clone(), e.1.clone()));
            }
            i = i + 1;
        }
        assert(old_entries.take(old_entries.len() as int) =~= old_entries);
        let ghost filtered = kept@;
        kept.push((key, value));
        self.entries = kept;
        proof {
            assert(self.entries@.drop_last() =~= filtered);
            assert forall|k: Seq<char>| k != key@ implies self.spec_get(k) == lookup(
                old_entries,
                k,
            ) by {
                lemma_without_lookup(old_entries, key@, k);
            }
        }
    }

    /// The value set for `key`, if any.
    pub fn get(&self, key: &str) -> (r: Option<&String>)
        ensures
            (match r {
                Some(v) => Some(v@),
                None => None,
            }) == self.spec_get(key@),
    {
        let mut i: usize = self.entries.len();
        assert(self.entries@.take(i as int) =~= self.entries@);
        while i > 0
            invariant
                i <= self.entries@.len(),
                lookup(self.entries@, key@) == lookup(self.entries@.take(i as int), key@),
            decreases i,
        {
            proof {
                assert(self.entries@.take(i as int).drop_last() =~= self.entries@.take(i - 1));
            }
            if str_eq(self.entries[i - 1].0.as_str(), key) {
                return Some(&self.entries[i - 1].1);
            }
            i = i - 1;
        }
        None
    }

    pub closed spec fn spec_entries(&self) -> Seq<(String, String)> {
        self.entries@
    }

    /// The entries, one per header name, in the order they were last set.
    pub fn entries(&self) -> (r: &Vec<(String, String)>)
        ensures
            r@ == self.spec_entries(),
            forall|k: Seq<char>| self.spec_get(k) == lookup(r@, k),
    {
        &self.entries
    }
}

/// Transport configuration: how requests are sent over the network.
#[derive(Clone, Debug)]
pub enum TransportOptions {
    /// HTTP transport configuration.
    Http {
        /// Request timeout; the client's default when absent.
        timeout: Option<Duration>,
        /// HTTP proxy URL.
        proxy: Option<String>,
        /// Additional headers sent with every request.
        headers: Option<Headers>,
    },
}

impl TransportOptions {
    pub open spec fn spec_timeout(&self) -> Option<Duration> {
        match self {
            TransportOptions::Http { timeout, .. } => *timeout,
        }
    }

    pub open spec fn spec_proxy(&self) -> Option<String> {
        match self {
            TransportOptions::Http { proxy, .. } => *proxy,
        }
    }

    pub open spec fn spec_headers(&self) -> Option<Headers> {
        match self {
            TransportOptions::Http { headers, .. } => *headers,
        }
    }

    /// Default HTTP transport options: no timeout, proxy or headers.
    pub fn new() -> (r: TransportOptions)
        ensures
            r.spec_timeout() is None,
            r.spec_proxy() is None,
            r.spec_headers() is None,
    {
        TransportOptions::Http { timeout: None, proxy: None, headers: None }
    }

    /// Sets the timeout.
    pub fn with_timeout(self, duration: Duration) -> (r: TransportOptions)
        ensures
            r.spec_timeout() == Some(duration),
            r.spec_proxy() == self.spec_proxy(),
            r.spec_headers() == self.spec_headers(),
    {
        match self {
            TransportOptions::Http { proxy, headers, .. } => TransportOptions::Http {
                timeout: Some(duration),
                proxy,
                headers,
            },
        }
    }

    /// Sets the proxy.
    pub fn with_proxy(self, proxy_url: String) -> (r: TransportOptions)
        ensures
            r.spec_timeout() == self.spec_timeout(),
            r.spec_proxy() == Some(proxy_url),
            r.spec_headers() == self.spec_headers(),
    {
        match self {
            TransportOptions::Http { timeout, headers, .. } => TransportOptions::Http {
                timeout,
                proxy: Some(proxy_url),
                headers,
            },
        }
    }

    /// Adds a header, replacing an earlier value of the same name.
    pub fn with_header(self, key: String, value: String) -> (r: TransportOptions)
        ensures
            r.spec_timeout() == self.spec_timeout(),
            r.spec_proxy() == self.spec_proxy(),
            r.spec_headers() matches Some(h) && h.spec_get(key@) == Some(value@),
            forall|k: Seq<char>|
                k != key@ ==> (#[trigger] r.spec_headers()->0.spec_get(k)) == match self.spec_headers() {
                    Some(old) => old.spec_get(k),
                    None => None,
                },
    {
        match self {
            TransportOptions::Http { timeout, proxy, headers } => {
                let mut h = match headers {
                    Some(h) => h,
                    None => Headers::new(),
                };
                h.insert(key, value);
                TransportOptions::Http { timeout, proxy, headers: Some(h) }
            },
        }
    }
}

impl Default for TransportOptions {
    fn default() -> (r: TransportOptions)
        ensures
            r.spec_timeout() is None,
            r.spec_proxy() is None,
            r.spec_headers() is None,
    {
        TransportOptions::new()
    }
}

} // verus!
