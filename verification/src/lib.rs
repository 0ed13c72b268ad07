pub mod policy;
pub mod tls_packet;

pub use policy::{decide, State, Verdict};
pub use tls_packet::{extract_sni, get_sni};
