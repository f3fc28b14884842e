//! An on-chain collection of `.btc` domain names: the image and the JSON
//! attributes of a domain, the price of a name and the payment that buys it,
//! and the records that say who owns each domain.

pub mod domains;
pub mod json;
pub mod records;
pub mod svg_generator;
