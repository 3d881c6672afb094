//! The core of a terminal system monitor: a layout engine that tiles
//! monitoring widgets over the terminal, the widgets that render resource
//! readings into rows of text, and the controller that keeps them laid out
//! across resizes.
pub mod text;
pub mod ui;
pub mod file_config;
pub mod app_config;
pub mod frame;
pub mod cpu_info;
pub mod cpu_device;
pub mod device_model;
pub mod gpu_info;
pub mod gpu_device;
pub mod dashboard;
