pub mod controller;
pub mod hid;
pub mod protocol;
pub mod rules;
pub mod text;
pub mod window;

pub use controller::TickOutcome;
pub use controller::confirm;
pub use controller::goto_profile;
pub use controller::should_switch;
pub use controller::switch_profile;
pub use protocol::ProtocolError;
pub use rules::Config;
pub use rules::Rules;
pub use rules::next_profile;
pub use window::ActiveWindow;
pub use window::WindowContext;
