use std::cell::RefCell;
use std::rc::Rc;

use virulenbot::cache::SymbolMapCacheStrategy;
use virulenbot::strategy::MultiAPIQuoteStrategy;
use virulenbot::symbol_map::SymbolMap;
use virulenbot::{
    ApiError, NamedSource, PriceAPI, PriceQuotingStrategy, QuoteError, SymbolPriceQuote, TokenQuote,
};

/// A scripted price source: each fetch consumes the next prepared outcome.
/// Shared counters record how often the source itself was consulted.
struct ScriptedAPI {
    map_script: Vec<Result<Vec<(String, String)>, String>>,
    price_script: Vec<Result<Vec<(String, f64)>, String>>,
    map_fetches: Rc<RefCell<usize>>,
    queried_ids: Rc<RefCell<Vec<Vec<String>>>>,
    queried_currencies: Rc<RefCell<Vec<String>>>,
}

impl ScriptedAPI {
    fn new() -> Self {
        ScriptedAPI {
            map_script: Vec::new(),
            price_script: Vec::new(),
            map_fetches: Rc::new(RefCell::new(0)),
            queried_ids: Rc::new(RefCell::new(Vec::new())),
            queried_currencies: Rc::new(RefCell::new(Vec::new())),
        }
    }
}

fn entries(rows: &[(&str, &str)]) -> Result<Vec<(String, String)>, String> {
    Ok(rows
        .iter()
        .map(|(s, i)| (s.to_string(), i.to_string()))
        .collect())
}

impl PriceAPI for ScriptedAPI {
    fn get_symbol_map(&mut self, _now_ms: u64) -> Result<SymbolMap, ApiError> {
        *self.map_fetches.borrow_mut() += 1;
        match self.map_script.remove(0) {
            Ok(rows) => {
                let mut map = SymbolMap::new();
                for (symbol, id) in rows {
                    map.insert_id(symbol, id);
                }
                Ok(map)
            }
            Err(message) => Err(ApiError { message }),
        }
    }

    fn get_price(
        &mut self,
        id_list: &Vec<String>,
        in_currency: &str,
    ) -> Result<Vec<(String, u64)>, ApiError> {
        self.queried_ids.borrow_mut().push(id_list.clone());
        self.queried_currencies.borrow_mut().push(in_currency.to_owned());
        match self.price_script.remove(0) {
            Ok(pairs) => Ok(pairs
                .into_iter()
                .map(|(name, price)| (name, price.to_bits()))
                .collect()),
            Err(message) => Err(ApiError { message }),
        }
    }
}

fn ids_of(map: &SymbolMap, symbol: &str) -> Option<Vec<String>> {
    map.get(symbol).cloned()
}

#[test]
fn cache_serves_fresh_reads_without_refetching() {
    let mut api = ScriptedAPI::new();
    api.map_script = vec![entries(&[("BTC", "id-one")]), entries(&[("BTC", "id-two")])];
    let fetches = Rc::clone(&api.map_fetches);
    let mut cache = SymbolMapCacheStrategy::with_max_age(NamedSource::new("Alpha".to_owned(), api), 1000);

    let first = cache.get_symbol_map(0).expect("first read fills the cache");
    assert_eq!(ids_of(&first, "BTC"), Some(vec!["id-one".to_owned()]));
    assert_eq!(*fetches.borrow(), 1);

    let second = cache.get_symbol_map(500).expect("fresh read is served from the cache");
    assert_eq!(ids_of(&second, "BTC"), Some(vec!["id-one".to_owned()]));
    assert_eq!(*fetches.borrow(), 1);
}

#[test]
fn cache_ttl_timeline_refreshes_once_expired() {
    let mut api = ScriptedAPI::new();
    api.map_script = vec![entries(&[("BTC", "m1")]), entries(&[("BTC", "m2")])];
    let fetches = Rc::clone(&api.map_fetches);
    let mut cache = SymbolMapCacheStrategy::with_max_age(NamedSource::new("Alpha".to_owned(), api), 1000);

    let m1 = cache.get_symbol_map(0).expect("first fetch");
    assert_eq!(ids_of(&m1, "BTC"), Some(vec!["m1".to_owned()]));

    let still_m1 = cache.get_symbol_map(500).expect("within max_age");
    assert_eq!(ids_of(&still_m1, "BTC"), Some(vec!["m1".to_owned()]));
    assert_eq!(*fetches.borrow(), 1);

    let m2 = cache.get_symbol_map(1500).expect("expired read refreshes");
    assert_eq!(ids_of(&m2, "BTC"), Some(vec!["m2".to_owned()]));
    assert_eq!(*fetches.borrow(), 2);
}

#[test]
fn cache_failed_refresh_surfaces_and_resurrects_nothing() {
    let mut api = ScriptedAPI::new();
    api.map_script = vec![
        entries(&[("BTC", "old")]),
        Err("refresh failed".to_owned()),
        entries(&[("BTC", "new")]),
    ];
    let fetches = Rc::clone(&api.map_fetches);
    let mut cache = SymbolMapCacheStrategy::with_max_age(NamedSource::new("Alpha".to_owned(), api), 10);

    let old = cache.get_symbol_map(0).expect("first fetch");
    assert_eq!(ids_of(&old, "BTC"), Some(vec!["old".to_owned()]));

    let err = cache.get_symbol_map(20).expect_err("expired refresh fails");
    assert_eq!(err.message, "refresh failed");
    assert_eq!(*fetches.borrow(), 2);

    // The failure did not stamp the expired data fresh: the next read goes to
    // the source again instead of serving "old".
    let renewed = cache.get_symbol_map(21).expect("retry fetches again");
    assert_eq!(ids_of(&renewed, "BTC"), Some(vec!["new".to_owned()]));
    assert_eq!(*fetches.borrow(), 3);
}

#[test]
fn cache_passes_prices_straight_through() {
    let mut api = ScriptedAPI::new();
    api.price_script = vec![Ok(vec![("Bitcoin".to_owned(), 123.5f64)])];
    let queried = Rc::clone(&api.queried_ids);
    let mut cache = SymbolMapCacheStrategy::new(NamedSource::new("Gamma".to_owned(), api));

    let prices = cache
        .get_price(&vec!["btc-id".to_owned()], "usd")
        .expect("pass-through succeeds");
    assert_eq!(prices, vec![("Bitcoin".to_owned(), 123.5f64.to_bits())]);
    assert_eq!(*queried.borrow(), vec![vec!["btc-id".to_owned()]]);
}

#[test]
fn two_sources_one_match_one_miss() {
    let mut alpha = ScriptedAPI::new();
    alpha.map_script = vec![entries(&[("BTC", "btc-id")])];
    alpha.price_script = vec![Ok(vec![("Bitcoin".to_owned(), 50000.0f64)])];
    let alpha_ids = Rc::clone(&alpha.queried_ids);
    let alpha_currencies = Rc::clone(&alpha.queried_currencies);

    let mut beta = ScriptedAPI::new();
    beta.map_script = vec![entries(&[])];
    let beta_ids = Rc::clone(&beta.queried_ids);

    let mut strategy = MultiAPIQuoteStrategy::new(vec![
        SymbolMapCacheStrategy::new(NamedSource::new("Alpha".to_owned(), alpha)),
        SymbolMapCacheStrategy::new(NamedSource::new("Beta".to_owned(), beta)),
    ]);
    let report = strategy.get_quote("BTC", "usd", 0);

    assert_eq!(
        report,
        vec![
            SymbolPriceQuote {
                source_name: "Alpha".to_owned(),
                matches: Ok(vec![TokenQuote {
                    name: "Bitcoin".to_owned(),
                    value_bits: 50000.0f64.to_bits(),
                }]),
            },
            SymbolPriceQuote {
                source_name: "Beta".to_owned(),
                matches: Err(QuoteError::SymbolNotFound),
            },
        ]
    );
    // Alpha was queried with exactly the resolved ids and the given currency;
    // Beta never reached the network.
    assert_eq!(*alpha_ids.borrow(), vec![vec!["btc-id".to_owned()]]);
    assert_eq!(*alpha_currencies.borrow(), vec!["usd".to_owned()]);
    assert!(beta_ids.borrow().is_empty());
}

#[test]
fn price_fetch_failure_stays_inside_the_report() {
    let mut api = ScriptedAPI::new();
    api.map_script = vec![entries(&[("BTC", "btc-id")])];
    api.price_script = vec![Err("network error".to_owned())];

    let mut strategy =
        MultiAPIQuoteStrategy::new(vec![SymbolMapCacheStrategy::new(NamedSource::new("Gamma".to_owned(), api))]);
    let report = strategy.get_quote("BTC", "usd", 0);

    assert_eq!(report.len(), 1);
    assert_eq!(report[0].source_name, "Gamma");
    assert_eq!(
        report[0].matches,
        Err(QuoteError::PriceFetchError(ApiError {
            message: "network error".to_owned(),
        }))
    );
}

#[test]
fn every_source_answers_in_configuration_order() {
    let mut broken = ScriptedAPI::new();
    broken.map_script = vec![Err("catalog down".to_owned())];

    let mut empty = ScriptedAPI::new();
    empty.map_script = vec![entries(&[])];

    let mut sound = ScriptedAPI::new();
    sound.map_script = vec![entries(&[("BTC", "btc-id")])];
    sound.price_script = vec![Ok(vec![("Bitcoin".to_owned(), 9.25f64)])];

    let mut strategy = MultiAPIQuoteStrategy::new(vec![
        SymbolMapCacheStrategy::new(NamedSource::new("Broken".to_owned(), broken)),
        SymbolMapCacheStrategy::new(NamedSource::new("Empty".to_owned(), empty)),
        SymbolMapCacheStrategy::new(NamedSource::new("Sound".to_owned(), sound)),
    ]);
    let report = strategy.get_quote("BTC", "usd", 0);

    let names: Vec<&str> = report.iter().map(|e| e.source_name.as_str()).collect();
    assert_eq!(names, vec!["Broken", "Empty", "Sound"]);
    assert_eq!(
        report[0].matches,
        Err(QuoteError::SourceFetchError(ApiError {
            message: "catalog down".to_owned(),
        }))
    );
    assert_eq!(report[1].matches, Err(QuoteError::SymbolNotFound));
    assert_eq!(
        report[2].matches,
        Ok(vec![TokenQuote {
            name: "Bitcoin".to_owned(),
            value_bits: 9.25f64.to_bits(),
        }])
    );
}

#[test]
fn unsupported_api_always_fails() {
    let mut api = virulenbot::UnsupportedAPI {};
    assert!(api.get_symbol_map(0).is_err());
    assert!(api.get_price(&vec!["x".to_owned()], "usd").is_err());
}
