//! A lending and deposit bank: markets, banks, user deposits and a lending
//! reserve with health-factor checks, stated and proved with Verus.

pub mod key;
pub mod error;
pub mod lending;
pub mod lending_laws;
pub mod state;
pub mod chain;
pub mod bank;
pub mod program;
pub mod bank_laws;
