use solr_token_sale::error::TokenSaleError;
use solr_token_sale::instruction::TokenSaleInstruction;

#[test]
fn test_pack_init_token_sale() {
    let sale_amount: u64 = 1000;
    let min_amount: u64 = 100;
    let max_amount: u64 = 500;
    let price: u64 = 10;
    let timestamp: u64 = 123456789;
    let check = TokenSaleInstruction::InitTokenSale {
        token_sale_amount: sale_amount,
        usd_min_amount: min_amount,
        usd_max_amount: max_amount,
        token_sale_price: price,
        token_sale_time: timestamp,
    };
    let packed = check.pack();
    let mut expect = vec![0];
    expect.extend_from_slice(&sale_amount.to_le_bytes());
    expect.extend_from_slice(&min_amount.to_le_bytes());
    expect.extend_from_slice(&max_amount.to_le_bytes());
    expect.extend_from_slice(&price.to_le_bytes());
    expect.extend_from_slice(&timestamp.to_le_bytes());
    assert_eq!(packed, expect);
    let unpacked = TokenSaleInstruction::unpack(&expect).unwrap();
    assert_eq!(unpacked, check);
}

#[test]
fn test_pack_fund_token_sale() {
    let amount: u64 = 1000;
    let check = TokenSaleInstruction::FundTokenSale { token_sale_amount: amount };
    let packed = check.pack();
    let mut expect = vec![1];
    expect.extend_from_slice(&amount.to_le_bytes());
    assert_eq!(packed, expect);
    let unpacked = TokenSaleInstruction::unpack(&expect).unwrap();
    assert_eq!(unpacked, check);
}

#[test]
fn test_pack_execute_token_sale() {
    let amount: u64 = 100;
    let check = TokenSaleInstruction::ExecuteTokenSale { usd_amount: amount };
    let packed = check.pack();
    let mut expect = vec![2];
    expect.extend_from_slice(&amount.to_le_bytes());
    assert_eq!(packed, expect);
    let unpacked = TokenSaleInstruction::unpack(&expect).unwrap();
    assert_eq!(unpacked, check);
}

#[test]
fn unpack_rejects_empty_input() {
    assert_eq!(
        TokenSaleInstruction::unpack(&[]),
        Err(TokenSaleError::InvalidInstruction)
    );
}

#[test]
fn unpack_rejects_unknown_tags() {
    assert_eq!(
        TokenSaleInstruction::unpack(&[6]),
        Err(TokenSaleError::InvalidInstruction)
    );
    assert_eq!(
        TokenSaleInstruction::unpack(&[255, 1, 2, 3]),
        Err(TokenSaleError::InvalidInstruction)
    );
}

#[test]
fn unpack_rejects_short_payloads() {
    assert_eq!(
        TokenSaleInstruction::unpack(&[0, 1, 2, 3]),
        Err(TokenSaleError::InvalidInstruction)
    );
    assert_eq!(
        TokenSaleInstruction::unpack(&[1, 1, 2]),
        Err(TokenSaleError::InvalidInstruction)
    );
    assert_eq!(
        TokenSaleInstruction::unpack(&[2]),
        Err(TokenSaleError::InvalidInstruction)
    );
}

#[test]
fn unpack_ignores_trailing_bytes() {
    let mut data = vec![2];
    data.extend_from_slice(&77u64.to_le_bytes());
    data.extend_from_slice(&[9, 9, 9]);
    assert_eq!(
        TokenSaleInstruction::unpack(&data).unwrap(),
        TokenSaleInstruction::ExecuteTokenSale { usd_amount: 77 }
    );
}

#[test]
fn roundtrip_all_tags_boundary_values() {
    let cases = vec![
        TokenSaleInstruction::InitTokenSale {
            token_sale_amount: 0,
            usd_min_amount: u64::MAX,
            usd_max_amount: 0,
            token_sale_price: u64::MAX,
            token_sale_time: 0,
        },
        TokenSaleInstruction::InitTokenSale {
            token_sale_amount: u64::MAX,
            usd_min_amount: 0,
            usd_max_amount: u64::MAX,
            token_sale_price: 0,
            token_sale_time: u64::MAX,
        },
        TokenSaleInstruction::FundTokenSale { token_sale_amount: 0 },
        TokenSaleInstruction::FundTokenSale { token_sale_amount: u64::MAX },
        TokenSaleInstruction::ExecuteTokenSale { usd_amount: 0 },
        TokenSaleInstruction::ExecuteTokenSale { usd_amount: u64::MAX },
        TokenSaleInstruction::PauseTokenSale {},
        TokenSaleInstruction::ResumeTokenSale {},
        TokenSaleInstruction::EndTokenSale {},
    ];
    for case in cases {
        let packed = case.pack();
        assert_eq!(TokenSaleInstruction::unpack(&packed).unwrap(), case);
    }
}

#[test]
fn repacking_a_decoded_instruction_reproduces_the_consumed_bytes() {
    let mut data = vec![0];
    for word in [11u64, 22, 33, 44, 55] {
        data.extend_from_slice(&word.to_le_bytes());
    }
    data.extend_from_slice(&[200, 201, 202]);
    let decoded = TokenSaleInstruction::unpack(&data).unwrap();
    assert_eq!(decoded.pack(), &data[0..41]);
    let data = vec![4, 9, 9];
    let decoded = TokenSaleInstruction::unpack(&data).unwrap();
    assert_eq!(decoded.pack(), &data[0..1]);
}

#[test]
fn error_messages_match_taxonomy() {
    assert_eq!(TokenSaleError::InvalidInstruction.message(), "Invalid Instruction");
    assert_eq!(TokenSaleError::NotRentExempt.message(), "Not Rent Exempt");
    assert_eq!(
        TokenSaleError::ExceedsAllocation.message(),
        "Amount Exceeds Your Allocation"
    );
}
