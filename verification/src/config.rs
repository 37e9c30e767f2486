//! Download settings as the C caller edits them.
//!
//! Every scalar setting is an override: `None` keeps the downloader's own
//! default, which the binding layer takes from `fast_down_ffi::Config` when it
//! builds the configuration for a task. Headers and local addresses start
//! empty, as they do in the downloader's default configuration.
use vstd::prelude::*;
use crate::text::text_eq;

verus! {

/// Which proxy the downloader uses.
pub enum Proxy {
    /// No proxy.
    No,
    /// The system's proxy settings.
    System,
    /// The given proxy URL.
    Custom(String),
}

/// A `Proxy` taken by its view.
pub enum ProxyView {
    No,
    System,
    Custom(Seq<char>),
}

impl View for Proxy {
    type V = ProxyView;

    open spec fn view(&self) -> ProxyView {
        match self {
            Proxy::No => ProxyView::No,
            Proxy::System => ProxyView::System,
            Proxy::Custom(s) => ProxyView::Custom(s@),
        }
    }
}

/// How a downloaded file is written.
#[derive(Debug, Clone, Copy, PartialEq, Eq, Structural)]
pub enum WriteMethod {
    /// Through a memory map.
    Mmap,
    /// Through ordinary buffered writes.
    Std,
}

/// An IP address: IPv4 as its 32-bit number, IPv6 as its 128-bit number.
#[derive(Debug, Clone, Copy, PartialEq, Eq, Structural)]
pub enum IpAddress {
    V4(u32),
    V6(u128),
}

/// The proxy setting that the text `s` selects: "no", "system", or any other
/// text as the proxy's URL.
pub open spec fn proxy_of(s: Seq<char>) -> ProxyView {
    if s == "no"@ {
        ProxyView::No
    } else if s == "system"@ {
        ProxyView::System
    } else {
        ProxyView::Custom(s)
    }
}

/// The write method that the text `s` selects: "std", anything else memory map.
pub open spec fn write_method_of(s: Seq<char>) -> WriteMethod {
    if s == "std"@ {
        WriteMethod::Std
    } else {
        WriteMethod::Mmap
    }
}

/// Parses a proxy setting.
pub fn parse_proxy(s: &str) -> (r: Proxy)
    ensures
        r@ == proxy_of(s@),
{
    if text_eq(s, "no") {
        Proxy::No
    } else if text_eq(s, "system") {
        Proxy::System
    } else {
        Proxy::Custom(s.to_owned())
    }
}

/// Parses a write method.
pub fn parse_write_method(s: &str) -> (r: WriteMethod)
    ensures
        r == write_method_of(s@),
{
    if text_eq(s, "std") {
        WriteMethod::Std
    } else {
        WriteMethod::Mmap
    }
}

/// The header map that a list of (name, value) entries stands for: a later
/// entry for a name replaces an earlier one.
pub open spec fn header_map(s: Seq<(String, String)>) -> Map<Seq<char>, Seq<char>>
    decreases s.len(),
{
    if s.len() == 0 {
        Map::empty()
    } else {
        header_map(s.drop_last()).insert(s.last().0@, s.last().1@)
    }
}

/// The entries of `s` whose name is not `name`, in their order.
pub open spec fn without_header(s: Seq<(String, String)>, name: Seq<char>) -> Seq<(String, String)>
    decreases s.len(),
{
    if s.len() == 0 {
        s
    } else {
        let rest = without_header(s.drop_last(), name);
        if s.last().0@ == name {
            rest
        } else {
            rest.push(s.last())
        }
    }
}

/// The addresses of `s` that differ from `a`, in their order.
pub open spec fn without_address(s: Seq<IpAddress>, a: IpAddress) -> Seq<IpAddress>
    decreases s.len(),
{
    if s.len() == 0 {
        s
    } else {
        let rest = without_address(s.drop_last(), a);
        if s.last() == a {
            rest
        } else {
            rest.push(s.last())
        }
    }
}

/// Dropping the entries named `name` removes `name` from the header map, and
/// shortens the list exactly when the map held `name`.
pub proof fn lemma_without_header(s: Seq<(String, String)>, name: Seq<char>)
    ensures
        header_map(without_header(s, name)) == header_map(s).remove(name),
        without_header(s, name).len() <= s.len(),
        without_header(s, name).len() < s.len() <==> header_map(s).dom().contains(name),
    decreases s.len(),
{
    if s.len() > 0 {
        let t = s.drop_last();
        lemma_without_header(t, name);
        if s.last().0@ == name {
            assert(header_map(s).remove(name) =~= header_map(t).remove(name));
        } else {
            let r = without_header(t, name);
            assert(r.push(s.last()).drop_last() == r);
            assert(header_map(r.push(s.last())) =~= header_map(s).remove(name));
        }
    }
}

/// No address left after dropping `a` equals `a`; the others keep their order.
pub proof fn lemma_without_address(s: Seq<IpAddress>, a: IpAddress)
    ensures
        !without_address(s, a).contains(a),
        forall|b: IpAddress| b != a ==> (without_address(s, a).contains(b) <==> s.contains(b)),
    decreases s.len(),
{
    if s.len() > 0 {
        let t = s.drop_last();
        lemma_without_address(t, a);
        assert(s == t.push(s.last()));
        let r = without_address(t, a);
        assert forall|b: IpAddress| b != a implies (without_address(s, a).contains(b)
            <==> s.contains(b)) by {
            if s.contains(b) {
                let j = choose|j: int| 0 <= j < s.len() && s[j] == b;
                if j < t.len() {
                    assert(t[j] == b);
                    assert(t.contains(b));
                }
            }
            if s.last() != a {
                assert(r.push(s.last()).last() == s.last());
                if without_address(s, a).contains(b) && !r.contains(b) {
                    let j = choose|j: int|
                        0 <= j < without_address(s, a).len() && without_address(s, a)[j] == b;
                    assert(j == r.len());
                    assert(s[s.len() - 1] == b);
                }
                if r.contains(b) {
                    let j = choose|j: int| 0 <= j < r.len() && r[j] == b;
                    assert(r.push(s.last())[j] == b);
                }
            }
            if t.contains(b) {
                let j = choose|j: int| 0 <= j < t.len() && t[j] == b;
                assert(s[j] == b);
            }
        }
        if s.last() != a {
            let r2 = r.push(s.last());
            if r2.contains(a) {
                let j = choose|j: int| 0 <= j < r2.len() && r2[j] == a;
                if j < r.len() {
                    assert(r[j] == a);
                }
            }
        }
    }
}

/// Law: a header that was just set holds the value it was set to, and
/// removing it again leaves the headers as they were without it.
pub proof fn law_header_set_then_remove(
    headers: Map<Seq<char>, Seq<char>>,
    name: Seq<char>,
    value: Seq<char>,
)
    ensures
        headers.insert(name, value).dom().contains(name),
        headers.insert(name, value)[name] == value,
        headers.insert(name, value).remove(name) == headers.remove(name),
{
    assert(headers.insert(name, value).remove(name) =~= headers.remove(name));
}

/// The settings of a download task.
pub struct Config {
    pub threads: Option<usize>,
    pub proxy: Option<Proxy>,
    /// Request headers as (name, value) entries; a later entry for a name
    /// replaces an earlier one, and the view reads them as a map (`header_map`). They
    /// are kept in a `Vec` rather than a `HashMap<String, String>` because
    /// vstd's specification of `HashMap` lets nothing be proved of `String`
    /// keys; the binding layer builds the downloader's map from the entries.
    pub headers: Vec<(String, String)>,
    pub min_chunk_size: Option<u64>,
    pub write_buffer_size: Option<usize>,
    pub write_queue_cap: Option<usize>,
    pub retry_gap_ms: Option<u64>,
    pub pull_timeout_ms: Option<u64>,
    pub accept_invalid_certs: Option<bool>,
    pub accept_invalid_hostnames: Option<bool>,
    pub write_method: Option<WriteMethod>,
    pub retry_times: Option<usize>,
    pub local_address: Vec<IpAddress>,
    pub max_speculative: Option<usize>,
    pub chunk_window: Option<u64>,
}

/// A `Config` taken by its view.
pub struct ConfigView {
    pub threads: Option<usize>,
    pub proxy: Option<ProxyView>,
    pub headers: Map<Seq<char>, Seq<char>>,
    pub min_chunk_size: Option<u64>,
    pub write_buffer_size: Option<usize>,
    pub write_queue_cap: Option<usize>,
    pub retry_gap_ms: Option<u64>,
    pub pull_timeout_ms: Option<u64>,
    pub accept_invalid_certs: Option<bool>,
    pub accept_invalid_hostnames: Option<bool>,
    pub write_method: Option<WriteMethod>,
    pub retry_times: Option<usize>,
    pub local_address: Seq<IpAddress>,
    pub max_speculative: Option<usize>,
    pub chunk_window: Option<u64>,
}

impl View for Config {
    type V = ConfigView;

    open spec fn view(&self) -> ConfigView {
        ConfigView {
            threads: self.threads,
            proxy: match self.proxy {
                Some(p) => Some(p@),
                None => None,
            },
            headers: header_map(self.headers@),
            min_chunk_size: self.min_chunk_size,
            write_buffer_size: self.write_buffer_size,
            write_queue_cap: self.write_queue_cap,
            retry_gap_ms: self.retry_gap_ms,
            pull_timeout_ms: self.pull_timeout_ms,
            accept_invalid_certs: self.accept_invalid_certs,
            accept_invalid_hostnames: self.accept_invalid_hostnames,
            write_method: self.write_method,
            retry_times: self.retry_times,
            local_address: self.local_address@,
            max_speculative: self.max_speculative,
            chunk_window: self.chunk_window,
        }
    }
}

/// The view of a configuration in which nothing was set.
pub open spec fn unset_config() -> ConfigView {
    ConfigView {
        threads: None,
        proxy: None,
        headers: Map::empty(),
        min_chunk_size: None,
        write_buffer_size: None,
        write_queue_cap: None,
        retry_gap_ms: None,
        pull_timeout_ms: None,
        accept_invalid_certs: None,
        accept_invalid_hostnames: None,
        write_method: None,
        retry_times: None,
        local_address: Seq::empty(),
        max_speculative: None,
        chunk_window: None,
    }
}

impl Default for Config {
    fn default() -> (r: Self)
        ensures
            r@ == unset_config(),
    {
        Config::new()
    }
}

/// Drops the entries named `name` from `headers`.
fn drop_header(headers: &mut Vec<(String, String)>, name: &str)
    ensures
        final(headers)@ == without_header(old(headers)@, name@),
{
    let mut old_entries: Vec<(String, String)> = Vec::new();
    std::mem::swap(&mut old_entries, headers);
    let mut kept: Vec<(String, String)> = Vec::new();
    let n = old_entries.len();
    let mut i: usize = 0;
    while i < n
        invariant
            n == old_entries@.len(),
            old_entries@ == old(headers)@,
            i <= n,
            kept@ == without_header(old_entries@.take(i as int), name@),
        decreases n - i,
    {
        let entry = &old_entries[i];
        assert(old_entries@.take(i + 1 as int).drop_last() == old_entries@.take(i as int));
        if !text_eq(entry.0.as_str(), name) {
            kept.push((entry.0.clone(), entry.1.clone()));
        }
        i = i + 1;
    }
    assert(old_entries@.take(n as int) == old_entries@);
    *headers = kept;
}

impl Config {
    /// A configuration in which nothing was set yet.
    pub fn new() -> (r: Config)
        ensures
            r@ == unset_config(),
    {
        let r = Config {
            threads: None,
            proxy: None,
            headers: Vec::new(),
            min_chunk_size: None,
            write_buffer_size: None,
            write_queue_cap: None,
            retry_gap_ms: None,
            pull_timeout_ms: None,
            accept_invalid_certs: None,
            accept_invalid_hostnames: None,
            write_method: None,
            retry_times: None,
            local_address: Vec::new(),
            max_speculative: None,
            chunk_window: None,
        };
        assert(r@.headers =~= Map::empty());
        r
    }

    /// Sets the number of download threads.
    pub fn set_threads(&mut self, threads: usize)
        ensures
            final(self)@ == (ConfigView { threads: Some(threads), ..old(self)@ }),
    {
        self.threads = Some(threads);
    }

    /// Sets the proxy from its text: "no", "system", or a proxy URL.
    pub fn set_proxy(&mut self, proxy: &str)
        ensures
            final(self)@ == (ConfigView { proxy: Some(proxy_of(proxy@)), ..old(self)@ }),
    {
        self.proxy = Some(parse_proxy(proxy));
    }

    /// Sets the header `name` to `value`, replacing an earlier value.
    pub fn insert_header(&mut self, name: String, value: String)
        ensures
            final(self)@ == (ConfigView {
                headers: old(self)@.headers.insert(name@, value@),
                ..old(self)@
            }),
    {
        proof {
            lemma_without_header(self.headers@, name@);
        }
        drop_header(&mut self.headers, name.as_str());
        let ghost kept = self.headers@;
        self.headers.push((name, value));
        proof {
            assert(self.headers@.drop_last() == kept);
            assert(header_map(self.headers@) =~= header_map(old(self).headers@).insert(
                name@,
                value@,
            ));
        }
    }

    /// Removes the header `name`; tells whether it was set.
    pub fn remove_header(&mut self, name: &str) -> (r: bool)
        ensures
            r == old(self)@.headers.dom().contains(name@),
            final(self)@ == (ConfigView { headers: old(self)@.headers.remove(name@), ..old(self)@ }),
    {
        proof {
            lemma_without_header(self.headers@, name@);
        }
        let before = self.headers.len();
        drop_header(&mut self.headers, name);
        self.headers.len() < before
    }

    /// Removes every header.
    pub fn clear_headers(&mut self)
        ensures
            final(self)@ == (ConfigView { headers: Map::empty(), ..old(self)@ }),
    {
        self.headers.clear();
        assert(header_map(self.headers@) =~= Map::empty());
    }

    /// Sets the smallest chunk, in bytes, that a download is split into.
    pub fn set_min_chunk_size(&mut self, size: u64)
        ensures
            final(self)@ == (ConfigView { min_chunk_size: Some(size), ..old(self)@ }),
    {
        self.min_chunk_size = Some(size);
    }

    /// Sets the write buffer size in bytes.
    pub fn set_write_buffer_size(&mut self, size: usize)
        ensures
            final(self)@ == (ConfigView { write_buffer_size: Some(size), ..old(self)@ }),
    {
        self.write_buffer_size = Some(size);
    }

    /// Sets the capacity of the write queue.
    pub fn set_write_queue_cap(&mut self, cap: usize)
        ensures
            final(self)@ == (ConfigView { write_queue_cap: Some(cap), ..old(self)@ }),
    {
        self.write_queue_cap = Some(cap);
    }

    /// Sets the pause between retries, in milliseconds.
    pub fn set_retry_gap_ms(&mut self, ms: u64)
        ensures
            final(self)@ == (ConfigView { retry_gap_ms: Some(ms), ..old(self)@ }),
    {
        self.retry_gap_ms = Some(ms);
    }

    /// Sets how long a pull may wait for data, in milliseconds.
    pub fn set_pull_timeout_ms(&mut self, ms: u64)
        ensures
            final(self)@ == (ConfigView { pull_timeout_ms: Some(ms), ..old(self)@ }),
    {
        self.pull_timeout_ms = Some(ms);
    }

    /// Sets whether invalid TLS certificates are accepted.
    pub fn set_accept_invalid_certs(&mut self, accept: bool)
        ensures
            final(self)@ == (ConfigView { accept_invalid_certs: Some(accept), ..old(self)@ }),
    {
        self.accept_invalid_certs = Some(accept);
    }

    /// Sets whether invalid TLS host names are accepted.
    pub fn set_accept_invalid_hostnames(&mut self, accept: bool)
        ensures
            final(self)@ == (ConfigView { accept_invalid_hostnames: Some(accept), ..old(self)@ }),
    {
        self.accept_invalid_hostnames = Some(accept);
    }

    /// Sets the write method from its text: "std", anything else memory map.
    pub fn set_write_method(&mut self, method: &str)
        ensures
            final(self)@ == (ConfigView {
                write_method: Some(write_method_of(method@)),
                ..old(self)@
            }),
    {
        self.write_method = Some(parse_write_method(method));
    }

    /// Sets how often fetching the file's metadata is retried.
    pub fn set_retry_times(&mut self, times: usize)
        ensures
            final(self)@ == (ConfigView { retry_times: Some(times), ..old(self)@ }),
    {
        self.retry_times = Some(times);
    }

    /// Adds a local address to bind to, given as the result of parsing its
    /// text (`None`: the text was no IP address). Tells whether one was added.
    pub fn add_local_address(&mut self, addr: Option<IpAddress>) -> (r: bool)
        ensures
            r == addr is Some,
            final(self)@ == (match addr {
                Some(a) => ConfigView { local_address: old(self)@.local_address.push(a), ..old(self)@ },
                None => old(self)@,
            }),
    {
        match addr {
            Some(a) => {
                self.local_address.push(a);
                true
            },
            None => false,
        }
    }

    /// Removes every occurrence of a local address, given as the result of
    /// parsing its text. Tells whether the text was an IP address, whether or
    /// not it was in the list.
    pub fn remove_local_address(&mut self, addr: Option<IpAddress>) -> (r: bool)
        ensures
            r == addr is Some,
            final(self)@ == (match addr {
                Some(a) => ConfigView {
                    local_address: without_address(old(self)@.local_address, a),
                    ..old(self)@
                },
                None => old(self)@,
            }),
    {
        match addr {
            Some(a) => {
                let mut old_list: Vec<IpAddress> = Vec::new();
                std::mem::swap(&mut old_list, &mut self.local_address);
                let mut kept: Vec<IpAddress> = Vec::new();
                let n = old_list.len();
                let mut i: usize = 0;
                while i < n
                    invariant
                        n == old_list@.len(),
                        old_list@ == old(self).local_address@,
                        i <= n,
                        kept@ == without_address(old_list@.take(i as int), a),
                    decreases n - i,
                {
                    assert(old_list@.take(i + 1 as int).drop_last() == old_list@.take(i as int));
                    let b = old_list[i];
                    if b != a {
                        kept.push(b);
                    }
                    i = i + 1;
                }
                assert(old_list@.take(n as int) == old_list@);
                self.local_address = kept;
                true
            },
            None => false,
        }
    }

    /// Removes every local address.
    pub fn clear_local_addresses(&mut self)
        ensures
            final(self)@ == (ConfigView { local_address: Seq::empty(), ..old(self)@ }),
    {
        self.local_address.clear();
    }

    /// Sets how many workers may race on the last chunk.
    pub fn set_max_speculative(&mut self, max: usize)
        ensures
            final(self)@ == (ConfigView { max_speculative: Some(max), ..old(self)@ }),
    {
        self.max_speculative = Some(max);
    }

    /// Sets the gap, in bytes, below which holes between downloaded chunks are
    /// downloaded again rather than skipped.
    pub fn set_chunk_window(&mut self, window: u64)
        ensures
            final(self)@ == (ConfigView { chunk_window: Some(window), ..old(self)@ }),
    {
        self.chunk_window = Some(window);
    }
}

/// Law: the text "no" turns the proxy off and "system" selects the system's
/// proxy; every other text, whatever it starts with, is taken as the proxy's
/// URL as it stands.
pub proof fn law_proxy_texts(s: Seq<char>)
    ensures
        proxy_of("no"@) == ProxyView::No,
        proxy_of("system"@) == ProxyView::System,
        s != "no"@ && s != "system"@ ==> proxy_of(s) == ProxyView::Custom(s),
{
    reveal_strlit("no");
    reveal_strlit("system");
    assert("no"@.len() != "system"@.len());
}

/// Law: the text "std" selects ordinary writes; every other text selects the
/// memory map.
pub proof fn law_write_method_texts(s: Seq<char>)
    ensures
        write_method_of("std"@) == WriteMethod::Std,
        s != "std"@ ==> write_method_of(s) == WriteMethod::Mmap,
{
}

/// Law: removing an address from a list keeps exactly the other addresses,
/// in their order, so every copy of it goes and nothing else.
pub proof fn law_remove_address(s: Seq<IpAddress>, a: IpAddress)
    ensures
        without_address(s, a) == s.filter(|b: IpAddress| b != a),
    decreases s.len(),
{
    if s.len() > 0 {
        law_remove_address(s.drop_last(), a);
        s.drop_last().lemma_filter_push(s.last(), |b: IpAddress| b != a);
        assert(s.drop_last().push(s.last()) == s);
    } else {
        assert(s.filter(|b: IpAddress| b != a) =~= s);
    }
}

/// Law: a new configuration sets nothing: every scalar setting is left to the
/// downloader's default, and there are no headers and no local addresses.
pub proof fn law_unset_config()
    ensures
        unset_config().threads is None,
        unset_config().proxy is None,
        unset_config().headers.dom().len() == 0,
        unset_config().min_chunk_size is None,
        unset_config().write_buffer_size is None,
        unset_config().write_queue_cap is None,
        unset_config().retry_gap_ms is None,
        unset_config().pull_timeout_ms is None,
        unset_config().accept_invalid_certs is None,
        unset_config().accept_invalid_hostnames is None,
        unset_config().write_method is None,
        unset_config().retry_times is None,
        unset_config().local_address.len() == 0,
        unset_config().max_speculative is None,
        unset_config().chunk_window is None,
{
}

} // verus!
