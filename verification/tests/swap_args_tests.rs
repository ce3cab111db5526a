use instruction_indexer::swap_args::DepositData;
use instruction_indexer::swap_args::Fees;
use instruction_indexer::swap_args::InitializeData;
use instruction_indexer::swap_args::RampAData;
use instruction_indexer::swap_args::SwapData;
use instruction_indexer::swap_args::WithdrawData;
use instruction_indexer::swap_args::WithdrawOneData;

fn le(values: &[u64]) -> Vec<u8> {
    let mut out = Vec::new();
    for v in values {
        out.extend_from_slice(&v.to_le_bytes());
    }
    out
}

#[test]
fn deposit_data_unpacks_three_amounts() {
    let mut input = [0u8; 24];
    input.copy_from_slice(&le(&[1, 2, 3]));
    let d = DepositData::unpack(&input).unwrap();
    assert_eq!(d.token_a_amount, 1);
    assert_eq!(d.token_b_amount, 2);
    assert_eq!(d.min_mint_amount, 3);
}

#[test]
fn fees_unpack_in_declared_order() {
    let mut input = [0u8; 64];
    input.copy_from_slice(&le(&[10, 11, 12, 13, 14, 15, 16, 17]));
    let f = Fees::unpack(&input).unwrap();
    assert_eq!(f.admin_trade_fee_numerator, 10);
    assert_eq!(f.admin_trade_fee_denominator, 11);
    assert_eq!(f.admin_withdraw_fee_numerator, 12);
    assert_eq!(f.admin_withdraw_fee_denominator, 13);
    assert_eq!(f.trade_fee_numerator, 14);
    assert_eq!(f.trade_fee_denominator, 15);
    assert_eq!(f.withdraw_fee_numerator, 16);
    assert_eq!(f.withdraw_fee_denominator, 17);
}

#[test]
fn initialize_data_unpacks_nonce_amp_and_fees() {
    let mut input = [0u8; 73];
    input[0] = 7;
    input[1..9].copy_from_slice(&99u64.to_le_bytes());
    input[9..73].copy_from_slice(&le(&[1, 2, 3, 4, 5, 6, 7, 8]));
    let d = InitializeData::unpack(&input).unwrap();
    assert_eq!(d.nonce, 7);
    assert_eq!(d.amp_factor, 99);
    assert_eq!(d.fees.admin_trade_fee_numerator, 1);
    assert_eq!(d.fees.withdraw_fee_denominator, 8);
}

#[test]
fn ramp_a_data_unpacks() {
    let mut input = [0u8; 16];
    input.copy_from_slice(&le(&[21, 31]));
    let d = RampAData::unpack(&input).unwrap();
    assert_eq!(d.target_amp, 21);
    assert_eq!(d.stop_ramp_ts, 31);
}

#[test]
fn swap_data_unpacks() {
    let mut input = [0u8; 16];
    input.copy_from_slice(&le(&[16, 32]));
    let d = SwapData::unpack(&input).unwrap();
    assert_eq!(d.amount_in, 16);
    assert_eq!(d.minimum_amount_out, 32);
}

#[test]
fn withdraw_data_unpacks() {
    let mut input = [0u8; 24];
    input.copy_from_slice(&le(&[5, 6, 7]));
    let d = WithdrawData::unpack(&input).unwrap();
    assert_eq!(d.pool_token_amount, 5);
    assert_eq!(d.minimum_token_a_amount, 6);
    assert_eq!(d.minimum_token_b_amount, 7);
}

#[test]
fn withdraw_one_data_unpacks() {
    let mut input = [0u8; 16];
    input.copy_from_slice(&le(&[8, 9]));
    let d = WithdrawOneData::unpack(&input).unwrap();
    assert_eq!(d.pool_token_amount, 8);
    assert_eq!(d.minimum_token_amount, 9);
}
