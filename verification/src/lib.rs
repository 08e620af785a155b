//! Configuration of the Metaquity Network runtime: its units of time and
//! currency, the deposits it charges, and the parameters it hands to the
//! pallets it is composed of, each with a contract that pins it down.
pub mod deposit;
pub mod dispatch;
pub mod fees;
pub mod fractionalization;
pub mod hold;
pub mod params;
pub mod units;
pub mod version;
pub mod weights;
