//! A marshalling and lifecycle boundary around an external Lightning node
//! engine ([`ldk_node`]).
//!
//! The engine owns wallets, channels, routing and persistence; this crate
//! owns everything that crosses the call boundary: conversion between
//! engine-native values and boundary-safe representations, the staged
//! configuration builder, the node lifecycle state machine, the event
//! bridge, and the error taxonomy. All of that logic is verified; the
//! engine itself is reached only through a small set of trusted wrappers.

pub mod amounts;
pub mod builder;
pub mod engine;
pub mod errors;
pub mod events;
pub mod node;
pub mod records;
pub mod values;
