//! Circuit nodes and the tube instances placed between them.
use vstd::prelude::*;

verus! {

/// A circuit node. `NodeId(0)` is ground; other nodes are numbered from 1.
#[derive(Debug, Clone, Copy, PartialEq, Eq, Hash, Structural)]
pub struct NodeId(pub usize);

/// A triode placed in a circuit.
#[derive(Debug, Clone, Copy, PartialEq, Eq, Structural)]
pub struct TriodeInstance {
    /// Plate node.
    pub plate: NodeId,
    /// Grid node.
    pub grid: NodeId,
    /// Cathode node.
    pub cathode: NodeId,
    /// Index into the triode parameter table.
    pub params_idx: usize,
}

/// A diode placed in a circuit.
#[derive(Debug, Clone, Copy, PartialEq, Eq, Structural)]
pub struct DiodeInstance {
    /// Anode node.
    pub anode: NodeId,
    /// Cathode node.
    pub cathode: NodeId,
    /// Index into the diode parameter table.
    pub params_idx: usize,
}

/// A pentode placed in a circuit.
#[derive(Debug, Clone, Copy, PartialEq, Eq, Structural)]
pub struct PentodeInstance {
    /// Plate node.
    pub plate: NodeId,
    /// Control grid node.
    pub grid: NodeId,
    /// Cathode node.
    pub cathode: NodeId,
    /// Screen grid node.
    pub screen: NodeId,
    /// Index into the pentode parameter table.
    pub params_idx: usize,
}

} // verus!
