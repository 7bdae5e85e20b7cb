//! Payroll stream scenarios. Accounts and tokens are identified by plain ids;
//! token balances are tracked in the tests from the amounts the operations
//! report, exactly as the host would move them.

use treasury_core::stream::{
    CreateStreamParams, PayrollStreamContract, StreamError, StreamStatus,
};

const ADMIN: u64 = 1;
const SENDER: u64 = 2;
const RECIPIENT: u64 = 3;
const TOKEN: u64 = 7;

fn setup() -> PayrollStreamContract {
    let mut c = PayrollStreamContract::new();
    c.initialize(ADMIN).unwrap();
    c
}

#[test]
fn test_initialize() {
    let c = setup();
    assert_eq!(c.get_admin(), Ok(ADMIN));
    assert_eq!(c.get_stream_count(), 0);
}

#[test]
#[should_panic]
fn test_double_initialize() {
    let mut c = setup();
    c.initialize(ADMIN).unwrap();
}

#[test]
fn test_create_stream() {
    let mut c = setup();
    let mut sender_balance: i128 = 10000;
    let mut escrow: i128 = 0;

    let stream_id = c
        .create_stream(SENDER, RECIPIENT, TOKEN, 10000, 1000, 2000, 1000)
        .unwrap();
    sender_balance -= 10000;
    escrow += 10000;

    assert_eq!(stream_id, 0);
    let stream = c.get_stream(stream_id).unwrap();
    assert_eq!(stream.total_amount, 10000);
    assert_eq!(stream.status, StreamStatus::Active);
    assert_eq!(stream.rate_per_second, 10);

    assert_eq!(sender_balance, 0);
    assert_eq!(escrow, 10000);
}

#[test]
fn test_create_batch_streams() {
    let mut c = setup();
    let mut sender_balance: i128 = 30000;
    let mut escrow: i128 = 0;

    let streams = vec![
        CreateStreamParams {
            recipient: 10,
            token: TOKEN,
            total_amount: 10000,
            start_time: 1000,
            end_time: 2000,
        },
        CreateStreamParams {
            recipient: 11,
            token: TOKEN,
            total_amount: 20000,
            start_time: 1000,
            end_time: 3000,
        },
    ];
    let stream_ids = c.create_batch_streams(SENDER, &streams, 1000).unwrap();
    for id in &stream_ids {
        let s = c.get_stream(*id).unwrap();
        sender_balance -= s.total_amount;
        escrow += s.total_amount;
    }

    assert_eq!(stream_ids.len(), 2);
    assert_eq!(sender_balance, 0);
    assert_eq!(escrow, 30000);
}

#[test]
fn test_calculate_claimable() {
    let mut c = setup();
    let stream_id = c
        .create_stream(SENDER, RECIPIENT, TOKEN, 10000, 1000, 2000, 1000)
        .unwrap();

    // At 50% of the stream duration.
    let claimable = c.get_claimable(stream_id, 1500).unwrap();
    assert_eq!(claimable, 5000);
}

#[test]
fn test_cancel_stream() {
    let mut c = setup();
    let mut sender_balance: i128 = 10000;
    let mut recipient_balance: i128 = 0;

    let stream_id = c
        .create_stream(SENDER, RECIPIENT, TOKEN, 10000, 1000, 2000, 1000)
        .unwrap();
    sender_balance -= 10000;

    // Nothing has accrued yet; the whole escrow returns to the sender.
    let settle = c.get_claimable(stream_id, 1000).unwrap();
    let refund = c.cancel_stream(SENDER, stream_id, 1000).unwrap();
    recipient_balance += settle;
    sender_balance += refund;

    assert_eq!(sender_balance, 10000);
    assert_eq!(recipient_balance, 0);
}

#[test]
fn test_cancel_stream_midway() {
    let mut c = setup();
    let mut sender_balance: i128 = 10000;
    let mut recipient_balance: i128 = 0;

    let stream_id = c
        .create_stream(SENDER, RECIPIENT, TOKEN, 10000, 1000, 2000, 1000)
        .unwrap();
    sender_balance -= 10000;

    let settle = c.get_claimable(stream_id, 1500).unwrap();
    let refund = c.cancel_stream(SENDER, stream_id, 1500).unwrap();
    recipient_balance += settle;
    sender_balance += refund;

    assert_eq!(recipient_balance, 5000);
    assert_eq!(sender_balance, 5000);
}

#[test]
fn test_cancel_stream_after_end() {
    let mut c = setup();
    let mut sender_balance: i128 = 10000;
    let mut recipient_balance: i128 = 0;

    let stream_id = c
        .create_stream(SENDER, RECIPIENT, TOKEN, 10000, 1000, 2000, 1000)
        .unwrap();
    sender_balance -= 10000;

    let settle = c.get_claimable(stream_id, 2500).unwrap();
    let refund = c.cancel_stream(SENDER, stream_id, 2500).unwrap();
    recipient_balance += settle;
    sender_balance += refund;

    assert_eq!(recipient_balance, 10000);
    assert_eq!(sender_balance, 0);
}

#[test]
fn test_claim_progression() {
    let mut c = setup();
    let mut recipient_balance: i128 = 0;

    let stream_id = c
        .create_stream(SENDER, RECIPIENT, TOKEN, 10000, 1000, 2000, 1000)
        .unwrap();

    // 1. Claim at 25% (1250)
    recipient_balance += c.claim(RECIPIENT, stream_id, 1250).unwrap();
    assert_eq!(recipient_balance, 2500);

    // 2. Claim at 50% (1500)
    recipient_balance += c.claim(RECIPIENT, stream_id, 1500).unwrap();
    assert_eq!(recipient_balance, 5000);

    // 3. Claim at 75% (1750)
    recipient_balance += c.claim(RECIPIENT, stream_id, 1750).unwrap();
    assert_eq!(recipient_balance, 7500);

    // 4. Claim at 100% (2000)
    recipient_balance += c.claim(RECIPIENT, stream_id, 2000).unwrap();
    assert_eq!(recipient_balance, 10000);
}

#[test]
fn test_claim_after_completion() {
    let mut c = setup();
    let stream_id = c
        .create_stream(SENDER, RECIPIENT, TOKEN, 10000, 1000, 2000, 1000)
        .unwrap();

    // Go past end time.
    c.claim(RECIPIENT, stream_id, 3000).unwrap();

    let stream = c.get_stream(stream_id).unwrap();
    assert_eq!(stream.status, StreamStatus::Completed);

    // A second claim must fail.
    let result = c.claim(RECIPIENT, stream_id, 3000);
    assert!(result.is_err());
}

#[test]
fn test_unauthorized_cancel() {
    let mut c = setup();
    let malicious: u64 = 99;
    let stream_id = c
        .create_stream(SENDER, RECIPIENT, TOKEN, 10000, 1000, 2000, 1000)
        .unwrap();

    let result = c.cancel_stream(malicious, stream_id, 1000);
    assert!(result.is_err());
}

#[test]
fn test_invalid_creation_params() {
    let mut c = setup();

    // 1. Invalid amount
    let res1 = c.create_stream(SENDER, RECIPIENT, TOKEN, -100, 1000, 2000, 0);
    assert!(res1.is_err());

    // 2. Invalid duration
    let res2 = c.create_stream(SENDER, RECIPIENT, TOKEN, 1000, 2000, 1000, 0);
    assert!(res2.is_err());

    // 3. Same sender and recipient
    let res3 = c.create_stream(SENDER, SENDER, TOKEN, 1000, 1000, 2000, 0);
    assert!(res3.is_err());
}

#[test]
fn test_multiple_concurrent_streams() {
    let mut c = setup();
    let recipient1: u64 = 10;
    let recipient2: u64 = 11;
    let mut balance1: i128 = 0;
    let mut balance2: i128 = 0;

    let id1 = c
        .create_stream(SENDER, recipient1, TOKEN, 10000, 1000, 2000, 1000)
        .unwrap();
    let id2 = c
        .create_stream(SENDER, recipient2, TOKEN, 10000, 1000, 3000, 1000)
        .unwrap();

    // At 1500: id1 is 50%, id2 is 25%.
    balance1 += c.claim(recipient1, id1, 1500).unwrap();
    balance2 += c.claim(recipient2, id2, 1500).unwrap();

    assert_eq!(balance1, 5000);
    assert_eq!(balance2, 2500);
}

#[test]
fn test_cancel_after_partial_claim() {
    let mut c = setup();
    let mut sender_balance: i128 = 10000;
    let mut recipient_balance: i128 = 0;

    let start_time: u64 = 1000;
    let stream_id = c
        .create_stream(
            SENDER,
            RECIPIENT,
            TOKEN,
            10000,
            start_time,
            start_time + 1000,
            start_time,
        )
        .unwrap();
    sender_balance -= 10000;

    // 1. Advance to 25% (250s)
    recipient_balance += c.claim(RECIPIENT, stream_id, start_time + 250).unwrap();
    assert_eq!(recipient_balance, 2500);

    // 2. Advance to 50% (500s), then the sender cancels.
    let settle = c.get_claimable(stream_id, start_time + 500).unwrap();
    let refund = c
        .cancel_stream(SENDER, stream_id, start_time + 500)
        .unwrap();
    recipient_balance += settle;
    sender_balance += refund;

    // The recipient received the accrued-but-unclaimed 2,500 more.
    assert_eq!(recipient_balance, 5000);
    // The sender received a 5,000 refund (10,000 - 5,000 accrued).
    assert_eq!(sender_balance, 5000);

    let stream = c.get_stream(stream_id).unwrap();
    assert_eq!(stream.status, StreamStatus::Cancelled);
}

#[test]
fn test_invalid_start_time() {
    let mut c = setup();

    // Attempt to create a stream starting in the past (999 < 1000).
    let result = c.create_stream(SENDER, RECIPIENT, TOKEN, 1000, 999, 2000, 1000);
    assert!(result.is_err());
    assert_eq!(result, Err(StreamError::InvalidStartTime));
}

#[test]
fn test_claim_multiple_times_progression() {
    let mut c = setup();
    let mut recipient_balance: i128 = 0;

    let start_time: u64 = 1000;
    let stream_id = c
        .create_stream(
            SENDER,
            RECIPIENT,
            TOKEN,
            10000,
            start_time,
            start_time + 1000,
            start_time,
        )
        .unwrap();

    for i in 1..=10u64 {
        recipient_balance += c
            .claim(RECIPIENT, stream_id, start_time + i * 100)
            .unwrap();
        assert_eq!(recipient_balance, (i as i128) * 1000);
    }

    let stream = c.get_stream(stream_id).unwrap();
    assert_eq!(stream.status, StreamStatus::Completed);
}
