//! The verified core of a small desktop media player: seek coordination, the
//! master clock, thread state machines, frame buffers, command line and window
//! rules. Windows, devices, codecs and floating point stay with the program
//! around this library.

pub mod seek;
pub mod video;
pub mod course;
pub mod ring;
pub mod audio;
pub mod clock;
pub mod text;
pub mod cli;
pub mod frame;
pub mod screenshot;
pub mod demux;
pub mod window;
pub mod render;
pub mod ui;
pub mod output;
pub mod source;
