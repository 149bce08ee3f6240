//! Core of a newsletter-subscription service: the rules that decide what each
//! endpoint answers and what is written to the subscriber store.
//!
//! The library opens no socket and writes no row. A server shell hands it
//! request bodies and the outcome of the one store write it asks for, and sends
//! out the responses it returns. Of the world the library reads only the clock
//! and the random source, for the time and the identifier of a new row.

pub mod form;
pub mod http;
pub mod routes;
pub mod startup;
pub mod store;
pub mod subscriber;
