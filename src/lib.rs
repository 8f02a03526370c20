//! Local trust broker between a remote gateway and a supervised worker
//! process: device identity and signing, the gateway session state machine,
//! the authenticated exec host with its approval broker, the command runner's
//! decisions and the worker supervisor.

pub mod text;
pub mod primitives;
pub mod approvals;
pub mod runner;
pub mod exec_host;
pub mod identity;
pub mod session;
pub mod supervisor;
pub mod config;
