//! Weather polling, one cycle at a time: what a payload of the weather
//! service holds, the flat record that is logged for it, and the schedule on
//! which the service is asked again.

pub mod address;
pub mod api;
pub mod clock;
pub mod cycle;
pub mod decode;
pub mod extract;
pub mod json;
pub mod numeral;
pub mod poll;
pub mod setup;
pub mod tsv;
