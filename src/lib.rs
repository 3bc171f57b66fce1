pub mod buffer;
pub mod command;
pub mod device;
pub mod error;
pub mod frame;
pub mod game;
pub mod memory;
pub mod renderer;
pub mod setup;
pub mod swapchain;
pub mod timestep;
pub mod transfer;
pub mod world;
