//! Decision logic of a privileged background service that supervises a proxy core.
//!
//! Everything that reads the outside world (files, sockets, processes, clocks of the
//! runtime) lives with the caller: it reports what happened as a plain value and is told,
//! as a plain value, what to do next.

pub mod causes;
pub mod clock;
pub mod config;
pub mod desired;
pub mod desired_laws;
pub mod driver;
pub mod ipc_dir;
pub mod ipc_dir_laws;
pub mod paths;
pub mod reply;
pub mod router;
pub mod router_laws;
pub mod server;
pub mod server_laws;
pub mod supervisor;
pub mod supervisor_laws;
pub mod text;
