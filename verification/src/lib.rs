//! Marker types that answer one fixed yes-or-no question.
//!
//! A marker carries no data. Its type alone decides what it answers, so the
//! answer can be stated once per type and holds of every value of it.
#![allow(non_camel_case_types)]

pub mod index;
