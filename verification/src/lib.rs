//! Verified core of a DAO funding library for the Algorand chain: share and
//! dividend arithmetic, the transaction groups of the DAO flows, TEAL template
//! rendering and the note format under which projects are stored.
pub mod error;
pub mod amounts;
pub mod decimal;
pub mod shares;
pub mod dividend;
pub mod flows;
pub mod tx;
pub mod chain;
pub mod text;
pub mod teal;
pub mod txgroup;
pub mod capi;
pub mod encoding;
pub mod ids;
