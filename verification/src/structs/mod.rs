//! The value types exchanged with the REST and streaming interfaces.
pub mod order;
pub mod private;
pub mod wsfeed;

pub use order::{Order, OrderSide};
pub use wsfeed::{MarketDataMessage, OrderMessage, OrderStatus};
