//! Code generation behind the `config`, `controller` and `service`
//! attributes. Items are read as the plain values of [`model`]; generated
//! code is produced as Rust source text.

pub mod model;
pub mod tokens;
pub mod syn_utils;
pub mod reading;
pub mod struct_new;
pub mod struct_text;
pub mod expansion;
pub mod service;
pub mod controller;
pub mod config;
