//! Live markdown preview core: a verified rendering pipeline from a
//! position-tagged markdown event stream to annotated HTML, pure path
//! algebra for link and image resolution, the intake and fan-out logic of
//! the live-sync hub, and the per-viewer session state machine.

pub mod dataurl;
pub mod escape;
pub mod events;
pub mod hub;
pub mod inbound;
pub mod intake;
pub mod lines;
pub mod numfmt;
pub mod parse;
pub mod paths;
pub mod render;
pub mod resolve;
pub mod session;
