//! Fixed-layout argument structs of the stable-swap program: each one decodes
//! from a byte array of exactly its wire size, consuming its fields in
//! declared order as little-endian integers. A whole-array decode never
//! fails; the option in each signature reports composite decodes that could
//! reject malformed sub-fields.

use crate::codec::le64;
use crate::codec::read_u64;
use crate::codec::read_u8;
use vstd::prelude::*;

verus! {

/// Arguments of a deposit instruction: 24 bytes.
#[derive(Clone, Debug, PartialEq)]
pub struct DepositData {
    pub token_a_amount: u64,
    pub token_b_amount: u64,
    pub min_mint_amount: u64,
}

impl DepositData {
    pub fn unpack(input: &[u8; 24]) -> (r: Option<DepositData>)
        ensures
            r matches Some(d) && d.token_a_amount == le64(input@.subrange(0, 8))
                && d.token_b_amount == le64(input@.subrange(8, 16)) && d.min_mint_amount == le64(
                input@.subrange(16, 24),
            ),
    {
        let data = input.as_slice();
        let (token_a_amount, _) = read_u64(data, 0).unwrap();
        let (token_b_amount, _) = read_u64(data, 8).unwrap();
        let (min_mint_amount, _) = read_u64(data, 16).unwrap();
        Some(DepositData { token_a_amount, token_b_amount, min_mint_amount })
    }
}

/// The fee schedule carried by an initialize instruction: 64 bytes.
#[derive(Clone, Debug, PartialEq)]
pub struct Fees {
    pub admin_trade_fee_numerator: u64,
    pub admin_trade_fee_denominator: u64,
    pub admin_withdraw_fee_numerator: u64,
    pub admin_withdraw_fee_denominator: u64,
    pub trade_fee_numerator: u64,
    pub trade_fee_denominator: u64,
    pub withdraw_fee_numerator: u64,
    pub withdraw_fee_denominator: u64,
}

impl Fees {
    /// Whether the eight fee fields hold the little-endian values of the
    /// eight consecutive 8-byte chunks starting at `pos`.
    pub open spec fn decodes_from(self, bytes: Seq<u8>, pos: int) -> bool {
        &&& self.admin_trade_fee_numerator == le64(bytes.subrange(pos, pos + 8))
        &&& self.admin_trade_fee_denominator == le64(bytes.subrange(pos + 8, pos + 16))
        &&& self.admin_withdraw_fee_numerator == le64(bytes.subrange(pos + 16, pos + 24))
        &&& self.admin_withdraw_fee_denominator == le64(bytes.subrange(pos + 24, pos + 32))
        &&& self.trade_fee_numerator == le64(bytes.subrange(pos + 32, pos + 40))
        &&& self.trade_fee_denominator == le64(bytes.subrange(pos + 40, pos + 48))
        &&& self.withdraw_fee_numerator == le64(bytes.subrange(pos + 48, pos + 56))
        &&& self.withdraw_fee_denominator == le64(bytes.subrange(pos + 56, pos + 64))
    }

    fn unpack_from(data: &[u8], pos: usize) -> (r: Fees)
        requires
            pos + 64 <= data@.len(),
        ensures
            r.decodes_from(data@, pos as int),
    {
        let (admin_trade_fee_numerator, _) = read_u64(data, pos).unwrap();
        let (admin_trade_fee_denominator, _) = read_u64(data, pos + 8).unwrap();
        let (admin_withdraw_fee_numerator, _) = read_u64(data, pos + 16).unwrap();
        let (admin_withdraw_fee_denominator, _) = read_u64(data, pos + 24).unwrap();
        let (trade_fee_numerator, _) = read_u64(data, pos + 32).unwrap();
        let (trade_fee_denominator, _) = read_u64(data, pos + 40).unwrap();
        let (withdraw_fee_numerator, _) = read_u64(data, pos + 48).unwrap();
        let (withdraw_fee_denominator, _) = read_u64(data, pos + 56).unwrap();
        Fees {
            admin_trade_fee_numerator,
            admin_trade_fee_denominator,
            admin_withdraw_fee_numerator,
            admin_withdraw_fee_denominator,
            trade_fee_numerator,
            trade_fee_denominator,
            withdraw_fee_numerator,
            withdraw_fee_denominator,
        }
    }

    pub fn unpack(input: &[u8; 64]) -> (r: Option<Fees>)
        ensures
            r matches Some(f) && f.decodes_from(input@, 0),
    {
        Some(Fees::unpack_from(input.as_slice(), 0))
    }
}

/// Arguments of an initialize instruction: a nonce byte, an amplification
/// factor, and the fee schedule; 73 bytes.
#[derive(Clone, Debug, PartialEq)]
pub struct InitializeData {
    pub nonce: u8,
    pub amp_factor: u64,
    pub fees: Fees,
}

impl InitializeData {
    pub fn unpack(input: &[u8; 73]) -> (r: Option<InitializeData>)
        ensures
            r matches Some(d) && d.nonce == input@[0] && d.amp_factor == le64(
                input@.subrange(1, 9),
            ) && d.fees.decodes_from(input@, 9),
    {
        let data = input.as_slice();
        let (nonce, _) = read_u8(data, 0).unwrap();
        let (amp_factor, _) = read_u64(data, 1).unwrap();
        let fees = Fees::unpack_from(data, 9);
        Some(InitializeData { nonce, amp_factor, fees })
    }
}

/// Arguments of an amplification-ramp instruction: 16 bytes.
#[derive(Clone, Debug, PartialEq)]
pub struct RampAData {
    pub target_amp: u64,
    pub stop_ramp_ts: u64,
}

impl RampAData {
    pub fn unpack(input: &[u8; 16]) -> (r: Option<RampAData>)
        ensures
            r matches Some(d) && d.target_amp == le64(input@.subrange(0, 8)) && d.stop_ramp_ts
                == le64(input@.subrange(8, 16)),
    {
        let data = input.as_slice();
        let (target_amp, _) = read_u64(data, 0).unwrap();
        let (stop_ramp_ts, _) = read_u64(data, 8).unwrap();
        Some(RampAData { target_amp, stop_ramp_ts })
    }
}

/// Arguments of a swap instruction: 16 bytes.
#[derive(Clone, Debug, PartialEq)]
pub struct SwapData {
    pub amount_in: u64,
    pub minimum_amount_out: u64,
}

impl SwapData {
    pub fn unpack(input: &[u8; 16]) -> (r: Option<SwapData>)
        ensures
            r matches Some(d) && d.amount_in == le64(input@.subrange(0, 8))
                && d.minimum_amount_out == le64(input@.subrange(8, 16)),
    {
        let data = input.as_slice();
        let (amount_in, _) = read_u64(data, 0).unwrap();
        let (minimum_amount_out, _) = read_u64(data, 8).unwrap();
        Some(SwapData { amount_in, minimum_amount_out })
    }
}

/// Arguments of a withdraw instruction: 24 bytes.
#[derive(Clone, Debug, PartialEq)]
pub struct WithdrawData {
    pub pool_token_amount: u64,
    pub minimum_token_a_amount: u64,
    pub minimum_token_b_amount: u64,
}

impl WithdrawData {
    pub fn unpack(input: &[u8; 24]) -> (r: Option<WithdrawData>)
        ensures
            r matches Some(d) && d.pool_token_amount == le64(input@.subrange(0, 8))
                && d.minimum_token_a_amount == le64(input@.subrange(8, 16))
                && d.minimum_token_b_amount == le64(input@.subrange(16, 24)),
    {
        let data = input.as_slice();
        let (pool_token_amount, _) = read_u64(data, 0).unwrap();
        let (minimum_token_a_amount, _) = read_u64(data, 8).unwrap();
        let (minimum_token_b_amount, _) = read_u64(data, 16).unwrap();
        Some(WithdrawData { pool_token_amount, minimum_token_a_amount, minimum_token_b_amount })
    }
}

/// Arguments of a single-sided withdraw instruction: 16 bytes.
#[derive(Clone, Debug, PartialEq)]
pub struct WithdrawOneData {
    pub pool_token_amount: u64,
    pub minimum_token_amount: u64,
}

impl WithdrawOneData {
    pub fn unpack(input: &[u8; 16]) -> (r: Option<WithdrawOneData>)
        ensures
            r matches Some(d) && d.pool_token_amount == le64(input@.subrange(0, 8))
                && d.minimum_token_amount == le64(input@.subrange(8, 16)),
    {
        let data = input.as_slice();
        let (pool_token_amount, _) = read_u64(data, 0).unwrap();
        let (minimum_token_amount, _) = read_u64(data, 8).unwrap();
        Some(WithdrawOneData { pool_token_amount, minimum_token_amount })
    }
}

} // verus!
