pub mod audio;
pub mod clock;
pub mod control;
pub mod display;
pub mod queue;
pub mod ring;
pub mod stage;

pub use control::ControlCommand;
