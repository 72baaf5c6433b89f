//! Low-level screen capture over a desktop-duplication backend.
//!
//! The library enumerates the physical displays attached to the machine's
//! graphics adapters and streams successive full frames of a chosen display.
//! Every call into the native graphics backend is modelled as an event handed
//! to a verified state machine together with a list of [`backend::Action`]
//! values the embedding program must perform; the decisions themselves — which
//! acquisition strategy to use, which handles to release and in what order,
//! how a status code maps onto the error taxonomy — are verified here.

pub mod backend;
pub mod capture;
pub mod display;
pub mod enumerate;
pub mod status;
