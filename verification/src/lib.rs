pub mod coinbase;
pub mod errors;
pub mod exchange_info;
pub mod model;
pub mod strutil;
pub mod transport;
