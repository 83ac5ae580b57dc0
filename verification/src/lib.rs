//! Core of a multi-provider token price quoting service.
//!
//! The library answers "what does each configured market-data provider quote
//! for token X?" without tying itself to any concrete provider. Providers are
//! reached through the [`PriceAPI`] and [`NamedAPI`] traits; a time-to-live
//! cache ([`cache::SymbolMapCacheStrategy`]) amortizes the cost of a
//! provider's full symbol catalog, and an aggregator
//! ([`strategy::MultiAPIQuoteStrategy`]) fans one query out to every
//! configured provider and merges the per-provider outcomes so that no
//! provider's failure disturbs another's result.

use vstd::prelude::*;

pub mod cache;
pub mod strategy;
pub mod symbol_map;

verus! {

use crate::symbol_map::SymbolMap;

/// A failure reported by a price source: the provider could not deliver the
/// requested data (network failure, unparsable response, and the like).
#[derive(Debug, Clone, PartialEq, Eq)]
pub struct ApiError {
    pub message: String,
}

/// One resolved token price as reported by one source.
///
/// `value_bits` carries the provider's quoted price as the raw bits of an
/// IEEE 754 binary64 value. The core never interprets the number; it is
/// resolved and carried through untouched, and the presentation layer turns
/// it back into a floating-point value for display.
#[derive(Debug, Clone, PartialEq, Eq)]
pub struct TokenQuote {
    pub name: String,
    pub value_bits: u64,
}

/// Why one source contributed no prices to a quote report.
#[derive(Debug, Clone, PartialEq, Eq)]
pub enum QuoteError {
    /// The requested symbol is absent from this source's symbol map. A
    /// legitimate per-source outcome, not a system failure.
    SymbolNotFound,
    /// Refreshing the source's symbol map failed.
    SourceFetchError(ApiError),
    /// The price query failed or its response could not be parsed.
    PriceFetchError(ApiError),
}

/// One entry of a quote report: the outcome of a single source's pipeline.
#[derive(Debug, PartialEq, Eq)]
pub struct SymbolPriceQuote {
    pub source_name: String,
    pub matches: Result<Vec<TokenQuote>, QuoteError>,
}

/// A source of symbol catalogs and prices. Implemented by each concrete
/// provider (outside this library) and by the symbol-map cache that wraps one.
///
/// `now_ms` is the caller's reading of a monotonic clock in milliseconds;
/// implementations that cache use it to judge staleness, all others are free
/// to ignore it.
pub trait PriceAPI: Sized {
    fn get_symbol_map(&mut self, now_ms: u64) -> Result<SymbolMap, ApiError>;

    fn get_price(&mut self, id_list: &Vec<String>, in_currency: &str) -> Result<
        Vec<(String, u64)>,
        ApiError,
    >;
}

/// A source with a human-readable display name, constant for its lifetime.
pub trait NamedAPI: Sized {
    spec fn spec_name(&self) -> Seq<char>;

    fn get_name(&self) -> (r: String)
        ensures
            r@ == self.spec_name(),
    ;
}

/// A price source together with the human-readable name it is reported
/// under. The name is constant for the source's lifetime and serves report
/// labeling only, never deduplication. Wrapping keeps concrete providers
/// free of any obligation beyond [`PriceAPI`] itself.
pub struct NamedSource<T> {
    name: String,
    api: T,
}

impl<T> NamedSource<T> {
    /// The wrapped source.
    pub closed spec fn wrapped(&self) -> T {
        self.api
    }

    pub fn new(name: String, api: T) -> (r: Self)
        ensures
            r.spec_name() == name@,
            r.wrapped() == api,
    {
        NamedSource { name, api }
    }
}

impl<T> NamedAPI for NamedSource<T> {
    closed spec fn spec_name(&self) -> Seq<char> {
        self.name@
    }

    fn get_name(&self) -> (r: String) {
        self.name.clone()
    }
}

impl<T: PriceAPI> PriceAPI for NamedSource<T> {
    /// Pass-through; the label adds no behaviour.
    fn get_symbol_map(&mut self, now_ms: u64) -> (r: Result<SymbolMap, ApiError>)
        ensures
            final(self).spec_name() == old(self).spec_name(),
    {
        self.api.get_symbol_map(now_ms)
    }

    /// Pass-through; the label adds no behaviour.
    fn get_price(&mut self, id_list: &Vec<String>, in_currency: &str) -> (r: Result<
        Vec<(String, u64)>,
        ApiError,
    >)
        ensures
            final(self).spec_name() == old(self).spec_name(),
    {
        self.api.get_price(id_list, in_currency)
    }
}

/// A placeholder source that supports nothing: every call fails.
pub struct UnsupportedAPI {}

impl PriceAPI for UnsupportedAPI {
    fn get_symbol_map(&mut self, now_ms: u64) -> (r: Result<SymbolMap, ApiError>)
        ensures
            r is Err,
    {
        Err(ApiError { message: "Unsupported API".to_owned() })
    }

    fn get_price(&mut self, id_list: &Vec<String>, in_currency: &str) -> (r: Result<
        Vec<(String, u64)>,
        ApiError,
    >)
        ensures
            r is Err,
    {
        Err(ApiError { message: "Unsupported API".to_owned() })
    }
}

/// A strategy that turns one symbol/currency query into a per-source report.
pub trait PriceQuotingStrategy: Sized {
    /// The display names of the configured sources, in configuration order.
    spec fn source_names(&self) -> Seq<Seq<char>>;

    /// Produce one report entry per configured source, in configuration
    /// order, regardless of how many sources fail. The call itself never
    /// fails: per-source failures are recorded inside the report.
    fn get_quote(&mut self, symbol: &str, in_currency: &str, now_ms: u64) -> (report: Vec<
        SymbolPriceQuote,
    >)
        ensures
            report@.len() == old(self).source_names().len(),
            forall|i: int|
                0 <= i < report@.len() ==> #[trigger] report@[i].source_name@
                    == old(self).source_names()[i],
    ;
}

/// Keep a provider's price response only if it answered every requested id.
///
/// `parsed` holds one entry per requested id, in request order: `Some` if the
/// provider's response carried a usable price for that id, `None` otherwise.
/// A single missing id invalidates the whole response (per-call all-or-nothing).
pub fn complete_price_list(parsed: Vec<Option<(String, u64)>>) -> (r: Option<
    Vec<(String, u64)>,
>)
    ensures
        match r {
            Some(v) => v@.len() == parsed@.len() && forall|i: int|
                0 <= i < v@.len() ==> parsed@[i] == Some(v@[i]),
            None => exists|i: int| 0 <= i < parsed@.len() && parsed@[i] is None,
        },
{
    let n = parsed.len();
    let mut out: Vec<(String, u64)> = Vec::new();
    let mut i: usize = 0;
    while i < n
        invariant
            i <= n,
            n == parsed@.len(),
            out@.len() == i,
            forall|j: int| 0 <= j < i ==> parsed@[j] == Some(out@[j]),
        decreases n - i,
    {
        match &parsed[i] {
            Some(p) => {
                let q = (p.0.clone(), p.1);
                proof {
                    assert(q == *p);
                }
                out.push(q);
            },
            None => {
                return None;
            },
        }
        i += 1;
    }
    Some(out)
}

} // verus!
