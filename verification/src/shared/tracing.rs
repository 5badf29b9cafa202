//! The crates whose log output the services enable.

use vstd::prelude::*;

verus! {

/// A crate whose logs are enabled by default.
#[derive(Debug, Clone, Copy, PartialEq, Eq, Structural)]
pub enum Crate {
    HttpServer,
    EvmLib,
    EvmScanner,
    EvmStream,
    SolLib,
    SolanaScanner,
    SolanaStream,
}

/// The snake_case name under which each crate logs.
pub open spec fn crate_target(c: Crate) -> Seq<char> {
    match c {
        Crate::HttpServer => "http_server"@,
        Crate::EvmLib => "evm_lib"@,
        Crate::EvmScanner => "evm_scanner"@,
        Crate::EvmStream => "evm_stream"@,
        Crate::SolLib => "sol_lib"@,
        Crate::SolanaScanner => "solana_scanner"@,
        Crate::SolanaStream => "solana_stream"@,
    }
}

/// Every crate, in declaration order.
pub open spec fn all_crates() -> Seq<Crate> {
    seq![
        Crate::HttpServer,
        Crate::EvmLib,
        Crate::EvmScanner,
        Crate::EvmStream,
        Crate::SolLib,
        Crate::SolanaScanner,
        Crate::SolanaStream,
    ]
}

impl Crate {
    /// The snake_case name of the crate, used as a log filter directive.
    pub fn name(&self) -> (r: &'static str)
        ensures
            r@ == crate_target(*self),
    {
        match self {
            Crate::HttpServer => "http_server",
            Crate::EvmLib => "evm_lib",
            Crate::EvmScanner => "evm_scanner",
            Crate::EvmStream => "evm_stream",
            Crate::SolLib => "sol_lib",
            Crate::SolanaScanner => "solana_scanner",
            Crate::SolanaStream => "solana_stream",
        }
    }

    /// Every crate, in declaration order.
    pub fn all() -> (r: Vec<Crate>)
        ensures
            r@ == all_crates(),
    {
        let r = vec![
            Crate::HttpServer,
            Crate::EvmLib,
            Crate::EvmScanner,
            Crate::EvmStream,
            Crate::SolLib,
            Crate::SolanaScanner,
            Crate::SolanaStream,
        ];
        assert(r@ =~= all_crates());
        r
    }
}

/// Each crate logs under its name in snake_case.
pub proof fn law_crate_targets()
    ensures
        crate_target(Crate::HttpServer) == "http_server"@,
        crate_target(Crate::EvmLib) == "evm_lib"@,
        crate_target(Crate::EvmScanner) == "evm_scanner"@,
        crate_target(Crate::EvmStream) == "evm_stream"@,
        crate_target(Crate::SolLib) == "sol_lib"@,
        crate_target(Crate::SolanaScanner) == "solana_scanner"@,
        crate_target(Crate::SolanaStream) == "solana_stream"@,
{
}

} // verus!
