//! Verified core of a drag-and-drop 3D model viewer: which filters upscale the
//! internal render target, where it lands in the window, and where the HUD text
//! goes. Window, GPU and input handling live in the application around it.

pub mod filter;
pub mod hud;
pub mod layout;
