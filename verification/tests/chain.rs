use ink_abi::chain_spec::{ChainError, ChainSpec};

#[test]
fn uninitialized_cells_report_errors() {
    let spec = ChainSpec::uninitialized();
    assert_eq!(spec.gas_price(), Err(ChainError::Uninitialized));
    assert_eq!(spec.minimum_balance(), Err(ChainError::Uninitialized));
    assert_eq!(spec.tombstone_deposit(), Err(ChainError::Uninitialized));
    assert_eq!(spec.block_time(), Err(ChainError::Uninitialized));
}

#[test]
fn default_initialization_sets_every_cell() {
    let mut spec = ChainSpec::uninitialized();
    assert_eq!(spec.initialize_as_default(), Ok(()));
    assert_eq!(spec.gas_price(), Ok(100));
    assert_eq!(spec.minimum_balance(), Ok(42));
    assert_eq!(spec.tombstone_deposit(), Ok(16));
    assert_eq!(spec.block_time(), Ok(5));
}

#[test]
fn double_initialization_fails_and_keeps_values() {
    let mut spec = ChainSpec::uninitialized();
    assert_eq!(spec.initialize_as_default(), Ok(()));
    assert_eq!(spec.initialize_as_default(), Err(ChainError::AlreadyInitialized));
    assert_eq!(spec.gas_price(), Ok(100));
}
