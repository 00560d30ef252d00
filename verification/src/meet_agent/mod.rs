//! The meeting agent: what it hears, how it answers, and the providers that
//! transcribe, reply and speak for it.

pub mod brain;
pub mod providers;
pub mod turn;
pub mod types;
