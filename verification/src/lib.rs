pub mod batch;
pub mod cli;
pub mod converter;
pub mod finder;
pub mod paths;
