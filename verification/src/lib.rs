//! A countdown timer for the terminal: the duration codec, the timer's state
//! machine, the render loop's schedule and the layout of a frame.

pub mod banner;
pub mod codec;
pub mod layout;
pub mod render_loop;
pub mod state;
pub mod std_specs;
