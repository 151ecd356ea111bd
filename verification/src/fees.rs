//! Fee-estimation data shapes and the arithmetic on them. The RPC calls
//! that fill these records live outside this library.

use crate::hexutil::ParseNumError;
use crate::hexutil::hex_num_digits;
use crate::hexutil::hex_num_value;
use crate::hexutil::hex_num_wellformed;
use crate::hexutil::parse_hex_quantity;
use crate::hexutil::strip_hex_prefix;
use vstd::prelude::*;

verus! {

/// The call whose fee is estimated, every field a `0x`-prefixed hex string.
pub struct CallRequest {
    pub from: Option<String>,
    pub to: Option<String>,
    pub gas: Option<String>,
    pub gas_price: Option<String>,
    pub value: Option<String>,
    pub data: Option<String>,
}

/// A fee estimate as the node reports it: each quantity a hex string.
pub struct FeeEstimate {
    pub gas_limit: String,
    pub max_fee_per_gas: String,
    pub max_priority_fee_per_gas: String,
    pub gas_per_pubdata_limit: String,
}

/// Does a reported quantity parse as a 64-bit number once its `0x` prefix
/// is stripped?
pub open spec fn quantity_ok(s: Seq<char>) -> bool {
    &&& hex_num_wellformed(strip_hex_prefix(s))
    &&& hex_num_value(hex_num_digits(strip_hex_prefix(s))) <= u64::MAX
}

/// The number a reported quantity denotes.
pub open spec fn quantity_value(s: Seq<char>) -> nat {
    hex_num_value(hex_num_digits(strip_hex_prefix(s)))
}

/// Why a reported quantity fails to parse: malformed text, or a value
/// above 64 bits.
pub open spec fn quantity_error(s: Seq<char>) -> ParseNumError {
    if !hex_num_wellformed(strip_hex_prefix(s)) {
        ParseNumError::Invalid
    } else {
        ParseNumError::Overflow
    }
}

impl FeeEstimate {
    /// Parse the reported gas limit.
    pub fn parse_gas_limit(&self) -> (r: Result<u64, ParseNumError>)
        ensures
            r is Ok <==> quantity_ok(self.gas_limit@),
            r is Ok ==> r->Ok_0 == quantity_value(self.gas_limit@),
            r is Err ==> r == Err::<u64, ParseNumError>(quantity_error(self.gas_limit@)),
    {
        parse_hex_quantity(self.gas_limit.as_str())
    }

    /// Parse the reported maximum fee per gas.
    pub fn parse_max_fee_per_gas(&self) -> (r: Result<u64, ParseNumError>)
        ensures
            r is Ok <==> quantity_ok(self.max_fee_per_gas@),
            r is Ok ==> r->Ok_0 == quantity_value(self.max_fee_per_gas@),
            r is Err ==> r == Err::<u64, ParseNumError>(quantity_error(self.max_fee_per_gas@)),
    {
        parse_hex_quantity(self.max_fee_per_gas.as_str())
    }

    /// Parse the reported maximum priority fee per gas.
    pub fn parse_max_priority_fee_per_gas(&self) -> (r: Result<u64, ParseNumError>)
        ensures
            r is Ok <==> quantity_ok(self.max_priority_fee_per_gas@),
            r is Ok ==> r->Ok_0 == quantity_value(self.max_priority_fee_per_gas@),
            r is Err ==> r == Err::<u64, ParseNumError>(quantity_error(self.max_priority_fee_per_gas@)),
    {
        parse_hex_quantity(self.max_priority_fee_per_gas.as_str())
    }

    /// Parse the reported gas-per-pubdata limit.
    pub fn parse_gas_per_pubdata_limit(&self) -> (r: Result<u64, ParseNumError>)
        ensures
            r is Ok <==> quantity_ok(self.gas_per_pubdata_limit@),
            r is Ok ==> r->Ok_0 == quantity_value(self.gas_per_pubdata_limit@),
            r is Err ==> r == Err::<u64, ParseNumError>(quantity_error(self.gas_per_pubdata_limit@)),
    {
        parse_hex_quantity(self.gas_per_pubdata_limit.as_str())
    }
}

/// The pubdata cost in wei: the gas-per-pubdata limit times the L1 pubdata
/// price. Two 64-bit factors always fit a 128-bit product.
pub fn pubdata_cost_wei(gas_per_pubdata_limit: u64, l1_pubdata_price: u64) -> (r: u128)
    ensures
        r == gas_per_pubdata_limit * l1_pubdata_price,
{
    proof {
        assert(gas_per_pubdata_limit * l1_pubdata_price <= u64::MAX * u64::MAX)
            by (nonlinear_arith);
    }
    (gas_per_pubdata_limit as u128) * (l1_pubdata_price as u128)
}

} // verus!
