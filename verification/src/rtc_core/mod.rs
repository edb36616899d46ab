pub mod ramscore;
pub mod rtc;
pub mod state_machine;

pub use ramscore::RAMSCore;
