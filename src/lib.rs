//! A parser for Solidity function declarations (`function f(uint256 a) external returns (bool);`)
//! over a stream of token trees, with the derived queries that signature computation needs.

pub mod token;
pub mod error;
pub mod grammar;
pub mod function;
pub mod lemmas;
