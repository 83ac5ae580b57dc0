//! The multi-source quote aggregator.

use vstd::prelude::*;

verus! {

use crate::symbol_map::SymbolMap;
use crate::{
    ApiError, NamedAPI, PriceAPI, PriceQuotingStrategy, QuoteError, SymbolPriceQuote, TokenQuote,
};

/// A price source that also carries a display name: what the aggregator
/// holds, one per configured provider.
pub trait NamedPriceAPI: NamedAPI + PriceAPI {

}

impl<T: NamedAPI + PriceAPI> NamedPriceAPI for T {

}

/// Fans a single quote request out to every configured source and merges the
/// per-source outcomes into one report, one entry per source, in
/// configuration order.
pub struct MultiAPIQuoteStrategy<T: NamedPriceAPI> {
    apis: Vec<T>,
}

impl<T: NamedPriceAPI> MultiAPIQuoteStrategy<T> {
    /// The configured sources, in order.
    pub closed spec fn spec_apis(&self) -> Seq<T> {
        self.apis@
    }

    pub fn new(apis: Vec<T>) -> (r: Self)
        ensures
            r.spec_apis() == apis@,
    {
        MultiAPIQuoteStrategy { apis }
    }
}

/// What one source's pipeline does after its symbol map arrived: either the
/// entry is already decided (map fetch failed, or the symbol is not in the
/// map — the network is not contacted then), or these identifiers are to be
/// queried for prices.
pub enum PriceQueryPlan {
    Fail(QuoteError),
    Query(Vec<String>),
}

/// Decide one source's pipeline from its symbol-map fetch outcome: a fetch
/// failure becomes `SourceFetchError`, an absent symbol becomes
/// `SymbolNotFound`, and a present symbol yields exactly its identifier list
/// for the price query.
pub fn plan_price_query(map_result: Result<SymbolMap, ApiError>, symbol: &str) -> (r:
    PriceQueryPlan)
    ensures
        match map_result {
            Ok(map) => {
                if map@.contains_key(symbol@) {
                    r matches PriceQueryPlan::Query(ids) && ids.deep_view() == map@[symbol@]
                } else {
                    r == PriceQueryPlan::Fail(QuoteError::SymbolNotFound)
                }
            },
            Err(e) => r == PriceQueryPlan::Fail(QuoteError::SourceFetchError(e)),
        },
{
    match map_result {
        Ok(map) => {
            match map.get(symbol) {
                Some(ids) => {
                    let ids = crate::symbol_map::clone_id_list(ids);
                    proof {
                        assert(ids.deep_view() =~= map@[symbol@]);
                    }
                    PriceQueryPlan::Query(ids)
                },
                None => PriceQueryPlan::Fail(QuoteError::SymbolNotFound),
            }
        },
        Err(e) => PriceQueryPlan::Fail(QuoteError::SourceFetchError(e)),
    }
}

/// Turn one source's price-query outcome into its report entry: a returned
/// pair list is kept, pair by pair and in order; a failure becomes
/// `PriceFetchError`.
pub fn price_matches(price_result: Result<Vec<(String, u64)>, ApiError>) -> (r: Result<
    Vec<TokenQuote>,
    QuoteError,
>)
    ensures
        match price_result {
            Ok(pairs) => {
                &&& r matches Ok(q)
                &&& q@.len() == pairs@.len()
                &&& forall|i: int|
                    0 <= i < q@.len() ==> (#[trigger] q@[i]).name == pairs@[i].0
                        && q@[i].value_bits == pairs@[i].1
            },
            Err(e) => r == Err::<Vec<TokenQuote>, QuoteError>(QuoteError::PriceFetchError(e)),
        },
{
    match price_result {
        Ok(pairs) => {
            let n = pairs.len();
            let mut quotes: Vec<TokenQuote> = Vec::new();
            let mut i: usize = 0;
            while i < n
                invariant
                    i <= n,
                    n == pairs@.len(),
                    quotes@.len() == i,
                    forall|j: int|
                        0 <= j < i ==> (#[trigger] quotes@[j]).name == pairs@[j].0
                            && quotes@[j].value_bits == pairs@[j].1,
                decreases n - i,
            {
                let p = &pairs[i];
                let quote = TokenQuote { name: p.0.clone(), value_bits: p.1 };
                proof {
                    assert(quote.name == pairs@[i as int].0);
                }
                quotes.push(quote);
                i += 1;
            }
            Ok(quotes)
        },
        Err(e) => Err(QuoteError::PriceFetchError(e)),
    }
}

impl<T: NamedPriceAPI> PriceQuotingStrategy for MultiAPIQuoteStrategy<T> {
    open spec fn source_names(&self) -> Seq<Seq<char>> {
        Seq::new(self.spec_apis().len(), |i: int| self.spec_apis()[i].spec_name())
    }

    /// Run every source's pipeline — resolve the symbol against the source's
    /// map, then query prices for the resolved identifiers — and record each
    /// outcome in its own entry. One source's failure never suppresses or
    /// reorders a sibling's entry, and the report is complete: exactly one
    /// entry per source, in configuration order.
    fn get_quote(&mut self, symbol: &str, in_currency: &str, now_ms: u64) -> (report: Vec<
        SymbolPriceQuote,
    >) {
        let ghost configured = self.apis@;
        let n = self.apis.len();
        let mut report: Vec<SymbolPriceQuote> = Vec::new();
        let mut i: usize = 0;
        while i < n
            invariant
                i <= n,
                n == self.apis@.len(),
                configured.len() == n,
                forall|j: int| i <= j < n ==> self.apis@[j] == configured[j],
                report@.len() == i,
                forall|j: int|
                    0 <= j < i ==> #[trigger] report@[j].source_name@ == configured[j].spec_name(),
            decreases n - i,
        {
            let source_name = self.apis[i].get_name();
            let map_result = self.apis[i].get_symbol_map(now_ms);
            let matches = match plan_price_query(map_result, symbol) {
                PriceQueryPlan::Fail(e) => Err(e),
                PriceQueryPlan::Query(ids) => price_matches(
                    self.apis[i].get_price(&ids, in_currency),
                ),
            };
            report.push(SymbolPriceQuote { source_name, matches });
            i += 1;
        }
        proof {
            assert(forall|j: int|
                0 <= j < n ==> #[trigger] old(self).source_names()[j] == configured[j].spec_name());
        }
        report
    }
}

} // verus!
