//! The logic of a camera viewer: the device list and the user's selection, the life of the
//! camera stream, and the frames on display. The library decides; its caller talks to the
//! camera and to the screen, carries out the commands it is given and reports what came of
//! them.

pub mod app;
pub mod camera_feed;
pub mod command;
pub mod decode;
pub mod device;
pub mod error;
pub mod frame;
pub mod guarantees;
pub mod stream;
