//! Names of the environment variables the services read.

use vstd::prelude::*;

verus! {

/// An environment variable the services read.
#[derive(Debug, Clone, Copy, PartialEq, Eq, Structural)]
pub enum Env {
    MarketDatabaseUrl,
    PortfolioDatabaseUrl,
    AccessTokenKey,
    CoingeckoApiKey,
    PortfolioServicePort,
    MarketServicePort,
    MarketServiceUrl,
}

/// The name of each variable in the process environment.
pub open spec fn env_key(e: Env) -> Seq<char> {
    match e {
        Env::MarketDatabaseUrl => "MARKET_DATABASE_URL"@,
        Env::PortfolioDatabaseUrl => "PORTFOLIO_DATABASE_URL"@,
        Env::AccessTokenKey => "ACCESS_TOKEN_KEY"@,
        Env::CoingeckoApiKey => "COINGECKO_API_KEY"@,
        Env::PortfolioServicePort => "PORTFOLIO_SERVICE_PORT"@,
        Env::MarketServicePort => "MARKET_SERVICE_PORT"@,
        Env::MarketServiceUrl => "MARKET_SERVICE_URL"@,
    }
}

/// Loads variables from a `.env` file. The containers inject the environment
/// themselves, so there is nothing to load.
pub fn load() {
}

impl Env {
    /// The name of the variable in the process environment.
    pub fn key(&self) -> (k: &'static str)
        ensures
            k@ == env_key(*self),
    {
        match self {
            Env::MarketDatabaseUrl => "MARKET_DATABASE_URL",
            Env::PortfolioDatabaseUrl => "PORTFOLIO_DATABASE_URL",
            Env::AccessTokenKey => "ACCESS_TOKEN_KEY",
            Env::CoingeckoApiKey => "COINGECKO_API_KEY",
            Env::PortfolioServicePort => "PORTFOLIO_SERVICE_PORT",
            Env::MarketServicePort => "MARKET_SERVICE_PORT",
            Env::MarketServiceUrl => "MARKET_SERVICE_URL",
        }
    }
}

/// Distinct variables are read under distinct names.
pub proof fn lemma_env_keys_distinct(a: Env, b: Env)
    requires
        a != b,
    ensures
        env_key(a) != env_key(b),
{
    reveal_strlit("MARKET_DATABASE_URL");
    reveal_strlit("PORTFOLIO_DATABASE_URL");
    reveal_strlit("ACCESS_TOKEN_KEY");
    reveal_strlit("COINGECKO_API_KEY");
    reveal_strlit("PORTFOLIO_SERVICE_PORT");
    reveal_strlit("MARKET_SERVICE_PORT");
    reveal_strlit("MARKET_SERVICE_URL");
    let ka = env_key(a);
    let kb = env_key(b);
    if ka.len() == kb.len() {
        // keys of equal length differ in an early character
        assert(ka[0] != kb[0] || ka[1] != kb[1] || ka[7] != kb[7] || ka[8] != kb[8] || ka[10] != kb[10] || ka[12] != kb[12] || ka[15] != kb[15]);
    }
}

/// Each service reads its own database address (there is no shared
/// `DATABASE_URL`), the token key, the CoinGecko key, its port and the market
/// service's address, under these names.
pub proof fn law_env_names()
    ensures
        env_key(Env::MarketDatabaseUrl) == "MARKET_DATABASE_URL"@,
        env_key(Env::PortfolioDatabaseUrl) == "PORTFOLIO_DATABASE_URL"@,
        env_key(Env::AccessTokenKey) == "ACCESS_TOKEN_KEY"@,
        env_key(Env::CoingeckoApiKey) == "COINGECKO_API_KEY"@,
        env_key(Env::PortfolioServicePort) == "PORTFOLIO_SERVICE_PORT"@,
        env_key(Env::MarketServicePort) == "MARKET_SERVICE_PORT"@,
        env_key(Env::MarketServiceUrl) == "MARKET_SERVICE_URL"@,
{
}

} // verus!
