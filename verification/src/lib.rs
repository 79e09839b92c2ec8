//! Verified core of a fireworks simulator: particle budgets, shell choice,
//! capture scheduling, input handling and terrain index buffers.
pub mod budget;
pub mod rng;
pub mod shells;
pub mod text;
pub mod capture;
pub mod config;
pub mod scene;
pub mod controls;
pub mod view;
pub mod terrain;
