//! Compression whose level follows the state of the network.
pub mod adaptive;
