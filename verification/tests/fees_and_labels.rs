use zeek::fees::FeeEstimate;
use zeek::fees::pubdata_cost_wei;
use zeek::hexutil::ParseNumError;
use zeek::visualizer::merkle_path_labels;

fn estimate(
    gas_limit: &str,
    max_fee: &str,
    max_priority: &str,
    gas_per_pubdata: &str,
) -> FeeEstimate {
    FeeEstimate {
        gas_limit: gas_limit.to_string(),
        max_fee_per_gas: max_fee.to_string(),
        max_priority_fee_per_gas: max_priority.to_string(),
        gas_per_pubdata_limit: gas_per_pubdata.to_string(),
    }
}

#[test]
fn fee_estimate_parses_each_field() {
    let fe = estimate("0x5208", "0xee6b280", "0x0", "0xc350");
    assert_eq!(fe.parse_gas_limit(), Ok(21000));
    assert_eq!(fe.parse_max_fee_per_gas(), Ok(250_000_000));
    assert_eq!(fe.parse_max_priority_fee_per_gas(), Ok(0));
    assert_eq!(fe.parse_gas_per_pubdata_limit(), Ok(50000));
}

#[test]
fn fee_estimate_reports_malformed_fields() {
    let fe = estimate("0x", "nothex", "0x10000000000000000", "5");
    assert_eq!(fe.parse_gas_limit(), Err(ParseNumError::Invalid));
    assert_eq!(fe.parse_max_fee_per_gas(), Err(ParseNumError::Invalid));
    assert_eq!(
        fe.parse_max_priority_fee_per_gas(),
        Err(ParseNumError::Overflow)
    );
    assert_eq!(fe.parse_gas_per_pubdata_limit(), Ok(5));
}

#[test]
fn pubdata_cost_multiplies_exactly() {
    assert_eq!(pubdata_cost_wei(0, 123), 0);
    assert_eq!(pubdata_cost_wei(50000, 1_000_000_000), 50_000_000_000_000);
    assert_eq!(
        pubdata_cost_wei(u64::MAX, u64::MAX),
        (u64::MAX as u128) * (u64::MAX as u128)
    );
}

#[test]
fn path_labels_come_from_the_shifting_low_bit() {
    // index 5 = 0b101: leaf-to-root labels are [1, 0, 1]; the result is
    // reversed into root-to-leaf order.
    assert_eq!(merkle_path_labels(5, 3), vec![true, false, true]);
    assert_eq!(merkle_path_labels(0, 2), vec![false, false]);
    assert_eq!(merkle_path_labels(1, 1), vec![true]);
    assert_eq!(merkle_path_labels(6, 3), vec![true, true, false]);
    assert_eq!(merkle_path_labels(7, 0), Vec::<bool>::new());
    // depth beyond the set bits keeps labelling with zero bits
    assert_eq!(
        merkle_path_labels(1, 4),
        vec![false, false, false, true]
    );
}
