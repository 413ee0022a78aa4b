//! Denoising and sharpening of astrophotography frames: the decisions that
//! choose filters, their strength tables, output naming and the integer
//! median filter, each stated by a contract and proved.

pub mod cli;
pub mod rank;
pub mod median;
pub mod params;
pub mod img_io;
pub mod paths;
pub mod pipelines;
pub mod run;
