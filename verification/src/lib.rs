//! The core of a network-facing build executor.
//!
//! Clients submit a bundle of source files over a persistent connection; the
//! server stages the files into a working directory, lints and bundles them
//! with an external toolchain that runs under a less privileged identity,
//! packs the artifacts and sends the result back, for many clients and many
//! builds at once, under an admission budget.
//!
//! This library holds the rules of that server, each with a contract that
//! Verus proves: the wire protocol ([`codec`], [`document`], [`wire`],
//! [`packet`], [`tagged`], [`encoding`]), admission control ([`admission`]),
//! the decisions of a session ([`session`]) and the build pipeline
//! ([`pipeline`], [`build_context`], [`paths`], [`builder`], [`sandbox`],
//! [`distribution`], [`build_status`]). It performs no I/O. The program
//! around it reads sockets, keeps timers, writes files and starts processes,
//! and asks the library after each such event what to do next.

pub mod admission;
pub mod build_context;
pub mod build_status;
pub mod builder;
pub mod codec;
pub mod distribution;
pub mod document;
pub mod encoding;
pub mod error;
pub mod packet;
pub mod paths;
pub mod pipeline;
pub mod sandbox;
pub mod session;
pub mod tagged;
pub mod text;
pub mod wire;
