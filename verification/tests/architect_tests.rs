use arbiter::architect::{bundle_blocks, BundleBlocks};

#[test]
fn a_bundle_aims_at_the_next_block() {
    assert_eq!(bundle_blocks(0), BundleBlocks { block: 1, simulation_block: 0 });
    assert_eq!(
        bundle_blocks(17_000_000),
        BundleBlocks { block: 17_000_001, simulation_block: 17_000_000 }
    );
    assert_eq!(
        bundle_blocks(u64::MAX - 1),
        BundleBlocks { block: u64::MAX, simulation_block: u64::MAX - 1 }
    );
}
