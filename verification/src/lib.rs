//! The core of a keyboard-driven fly camera: which key means what, which
//! actions are held, what each tick does to the camera, and how the camera
//! is laid out for the shader.

pub mod action;
pub mod camera;
pub mod keys;
pub mod motion;
pub mod surface;
pub mod uniform;

pub use camera::CameraController;
pub use uniform::Camera;
