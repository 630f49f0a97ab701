//! Normalisation of exchange ticker messages into canonical market events.
pub mod decimal;
pub mod event;
pub mod instant;
pub mod streams;
pub mod subscription;
pub mod tiker;
