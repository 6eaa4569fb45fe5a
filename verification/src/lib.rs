//! Decisions of a small HTTP facade over a relational store of products,
//! customers and orders: which statement each endpoint issues and which
//! response each outcome of the store gets.
//!
//! The library performs no input or output. A handler is split around its one
//! round trip to the store: [`handlers`] give the [`statement`] to issue and,
//! for whatever the store returned, the response. [`router`] holds the table
//! from method and path to endpoint, [`records`] the rows and the layout of
//! their tables, [`startup`] what the process is started with.

mod clock;
pub mod handlers;
pub mod records;
pub mod router;
pub mod startup;
pub mod statement;
pub mod text;
