//! On-device execution service for eBPF programs.
//!
//! The crate covers the verified core of the service: the request codec, the
//! relocation resolver that patches LDDW immediates in a raw ELF image, the
//! pre-flight helper-access verifier, the JIT-slot arena, the virtual-machine
//! back-ends and their pipeline, and the execution manager's worker
//! bookkeeping.  Host plumbing (threads, IPC channels, CoAP transport, native
//! code invocation) lives outside the library and drives it through plain
//! values.

pub mod config;
pub mod requests;
pub mod relocation;
pub mod jit_storage;
pub mod helpers;
pub mod preflight;
pub mod textfmt;
pub mod vm;
pub mod manager;
pub mod shell;
pub mod fletcher;
