//! Clock-synchronisation control core for a synchronous mesh of nodes.
//!
//! Every node exchanges one fixed-size word with each neighbour per tick and
//! steers its own oscillator so that the elastic buffers between neighbours
//! stay centred.
//!
//! - `message`, `error`: the wire word and the result code of a tick.
//! - `fifo`: the elastic buffer of one link.
//! - `links`: the link transport as the controller sees it, the bursts it
//!   delivers and the liveness of each link.
//! - `channel`: the channel controller and its tick; `tick_laws`: what holds
//!   of the buffers over any row of ticks.
//! - `fixed_point`, `pid`: fixed-point numbers and the PID primitive.
//! - `controller`, `si5351`, `fbdiv`: the frequency controllers.
//! - `debugging`, `pitopi`: what a display and the link setup compute.
//! - `state_machine`, `pitopi_data`, `bitsurf`: composable state machines,
//!   the data word they exchange, and components of computation.
//! - `tide`: the message type of the first controller generation.

pub mod message;
pub mod error;
pub mod fifo;
pub mod links;
pub mod fixed_point;
pub mod pid;
pub mod controller;
pub mod channel;
pub mod tick_laws;
pub mod si5351;
pub mod fbdiv;
pub mod debugging;
pub mod pitopi;
pub mod state_machine;
pub mod pitopi_data;
pub mod bitsurf;
pub mod tide;
