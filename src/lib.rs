//! A TLS-terminating forward proxy that only opens `CONNECT` tunnels to an
//! allow-listed set of destinations: the request parsing, the policy, the
//! status lines and the per-connection state machine.
pub mod request;
pub mod policy;
pub mod status;
pub mod handler;
pub mod flow;
pub mod pem;
