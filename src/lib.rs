//! A validated label type (non-empty, alphanumeric text), its codec to and
//! from a text column, and an example record that stores labels.
pub mod codec;
pub mod label;
pub mod models;

pub use label::Label;
pub use label::LabelError;
pub use models::ExampleModel;
