pub mod clock;
pub mod models;
pub mod text;
pub mod net;
pub mod i18n;
pub mod error;
pub mod digest;
pub mod clipboard;
pub mod transfers;
pub mod seqs;
pub mod mobile_bridge;
pub mod transport;
pub mod runtime;
pub mod ids;
pub mod store;
pub mod discovery;
pub mod tray;
