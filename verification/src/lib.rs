//! The rules of an image-enlarging engine that runs outside this crate:
//! how a handle on it is created, shared and released, what it is asked to
//! do with an image or a batch of images, and how its compute kernels are
//! named and written out. The engine itself is never called from here: every
//! operation that needs it hands the caller the call to make, and goes on
//! with what came back.

pub mod batch;
pub mod creation;
pub mod error;
pub mod images;
pub mod kernels;
pub mod models;
pub mod options;
pub mod realesrgan;

pub use error::Error;
pub use image::DynamicImage as Image;
pub use models::Model;
pub use models::ModelStore;
pub use options::Options;
pub use options::OptionsModel;
pub use options::OptionsScaleFactor;
pub use realesrgan::RealEsrgan;
