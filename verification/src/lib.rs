//! A graph-state stabilizer simulator for Clifford circuits.
//!
//! An n-qubit pure stabilizer state is tracked as a simple undirected graph
//! whose vertices each carry a vertex operator drawn from the 24-element
//! local Clifford group. Clifford gates and Pauli measurements act by
//! rewriting the graph and the labels in place.

pub mod cphase;
pub mod graph;
pub mod measure;
pub mod vop;
pub mod vop_aux;
pub mod vop_mul;

pub use graph::GraphSim;
pub use graph::Node;
pub use graph::NodeV;
pub use vop::Axis;
pub use vop::MeasurementResult;
pub use vop::Outcome;
pub use vop::Vop;
