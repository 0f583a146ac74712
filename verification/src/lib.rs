//! A/B boot-slot control for a Pixel (Tensor) running Linux.
pub mod bootlun;
pub mod command;
pub mod devinfo;
pub mod error;
pub mod hexutil;
pub mod slot;
pub mod text;
pub mod trusty;
pub mod ufsbsg;
