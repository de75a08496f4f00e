//! Dimension rules of a dense feedforward network.
//!
//! A network is described by a list of layer sizes: the number of values
//! that enter it, the width of each hidden layer, and the number of values
//! that leave it. Every two neighbouring sizes make one layer. This crate
//! decides which lists describe a network, which inputs a layer or a loss
//! function accepts, and builds the layers of a network one by one from a
//! constructor that the caller supplies. The arithmetic on weights is not
//! part of it.

pub mod losses;
pub mod network;
