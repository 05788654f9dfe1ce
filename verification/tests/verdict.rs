use tiger_delta::{decide_verdict, Verdict};

#[test]
fn sandbox_flag_blocks_preemptively() {
    assert_eq!(decide_verdict(true, false), Verdict::PreemptiveBlock);
    assert_eq!(decide_verdict(true, true), Verdict::PreemptiveBlock);
}

#[test]
fn tolerance_zone_draws_the_block_signal() {
    assert_eq!(decide_verdict(false, true), Verdict::Block);
}

#[test]
fn unflagged_deviating_packets_pass() {
    assert_eq!(decide_verdict(false, false), Verdict::Allow);
}
