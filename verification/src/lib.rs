//! Neuroevolution over fixed-point numbers.
//!
//! A population of fixed-length genomes is evolved from one generation to the
//! next by fitness-proportionate selection, uniform crossover and a random
//! perturbation of single genes. A feed-forward network with rectified-linear
//! units evaluates inputs against whatever weights it holds.
//!
//! Every real number of the library is a fixed-point value with sixteen
//! fractional bits: a signed one is an `i32`, a non-negative one a `u32`, and
//! the raw value `65536` stands for one.
pub mod fixed;
pub mod random;
pub mod chromosome;
pub mod algorithm;
pub mod crossover;
pub mod individual;
pub mod mutation;
pub mod network;
pub mod selection;

pub use algorithm::GeneticAlgorithm;
pub use chromosome::Chromosome;
pub use crossover::CrossoverMethod;
pub use crossover::UniformCrossover;
pub use individual::Individual;
pub use mutation::GeneDraw;
pub use mutation::GuassianMutation;
pub use mutation::MutationMethod;
pub use network::Layer;
pub use network::Network;
pub use network::Neuron;
pub use selection::PropSelection;
pub use selection::SelectionError;
pub use selection::SelectionMethod;
