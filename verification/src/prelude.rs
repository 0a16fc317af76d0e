pub use crate::cable::Cable;
pub use crate::cable_params::CableParams;
pub use crate::default_cable::DefaultControl;
pub use crate::default_plug::DefaultPlug;
pub use crate::default_port::DefaultPort;
pub use crate::event::Event;
pub use crate::plug::Plug;
pub use crate::plug_params::PlugParams;
pub use crate::port::Port;
pub use crate::port::PortId;
pub use crate::port_params::PortParams;
