//! Ports, plugs and cables for an immediate-mode GUI: the cross-frame state
//! tracking and interaction model that lets stateless, redrawn-every-frame
//! widgets behave as if they had persistent, draggable, connectable identity.
//!
//! The crate holds the core of the widget set: the type-erased identity
//! scheme, the generational key-value store that survives across frames, the
//! hover/drag/connect/disconnect event derivation, and the bezier-curve
//! proximity test that makes a curve hoverable without an explicit hit shape.
//! The host toolkit itself (layout, input polling, painting) is an external
//! collaborator: widget code hands plain values in and takes plain values out.

pub mod cable;
pub mod cable_control;
pub mod cable_params;
pub mod default_cable;
pub mod default_plug;
pub mod default_port;
pub mod event;
pub mod geom;
pub mod id;
pub mod kv;
pub mod plug;
pub mod plug_params;
pub mod port;
pub mod port_id;
pub mod port_params;
pub mod prelude;
pub mod response;
pub mod state;
pub mod utils;
