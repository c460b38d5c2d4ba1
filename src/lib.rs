//! Frame pacing for a game client: the frame start clock, the rolling FPS
//! meter, the cap-mode controller and the sleep/spin frame governor, plus the
//! command types of the embedded scripting thread.

pub mod cap;
pub mod clock;
pub mod governor;
pub mod js;
pub mod meter;
pub mod settings;
