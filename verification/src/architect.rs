use vstd::prelude::*;

verus! {

/// The blocks that a bundle of transactions is made for.
#[derive(Clone, Copy, Debug, PartialEq, Eq, Structural)]
pub struct BundleBlocks {
    /// The block in which the bundle is to be included.
    pub block: u64,
    /// The block on whose state the bundle is simulated.
    pub simulation_block: u64,
}

/// The blocks for a bundle that is made when the chain is at `block_number`: it is simulated
/// on that block and aimed at the next one.
pub fn bundle_blocks(block_number: u64) -> (blocks: BundleBlocks)
    requires
        block_number < u64::MAX,
    ensures
        blocks.block == block_number + 1,
        blocks.simulation_block == block_number,
{
    BundleBlocks { block: block_number + 1, simulation_block: block_number }
}

} // verus!
