//! Ingestion, error taxonomy and training schedule of a single-unit
//! perceptron trained with the batch Perceptron Learning Algorithm.
pub mod activator;
pub mod assets;
pub mod preprocessing;
pub mod training;
