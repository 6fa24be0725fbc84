use hv_supply::drivers::mcp23017::{
    Mcp23017, RegisterWrite, GPPUA, GPPUB, IODIRA, IODIRB, IPOLA, IPOLB, OLATA, OLATB,
};
use hv_supply::drivers::mcp3424::{
    decode_microvolts, Mcp3424, PollOutcome, CONFIG_18BIT_PGA1, MAX_POLLS, POLL_INTERVAL_MS,
};

fn ready(b0: u8, b1: u8, b2: u8) -> Result<[u8; 4], ()> {
    Ok([b0, b1, b2, 0x0C])
}

fn busy() -> Result<[u8; 4], ()> {
    Ok([0x12, 0x34, 0x56, 0x8C])
}

#[test]
fn expander_register_map() {
    assert_eq!(IODIRA, 0x00);
    assert_eq!(IODIRB, 0x01);
    assert_eq!(IPOLA, 0x02);
    assert_eq!(IPOLB, 0x03);
    assert_eq!(GPPUA, 0x0C);
    assert_eq!(GPPUB, 0x0D);
    assert_eq!(OLATA, 0x14);
    assert_eq!(OLATB, 0x15);
}

#[test]
fn expander_write_frames() {
    let exp = Mcp23017::new(0x20);
    assert_eq!(exp.addr, 0x20);
    let write = exp.write_reg(0x15, 0xA5);
    assert_eq!(write, RegisterWrite { addr: 0x20, reg: 0x15, value: 0xA5 });
    assert_eq!(write.frame(), [0x15u8, 0xA5u8]);
    assert_eq!(exp.write_gpb(0x36), RegisterWrite { addr: 0x20, reg: 0x15, value: 0x36 });
    assert_eq!(exp.write_gpa(0xC0), RegisterWrite { addr: 0x20, reg: 0x14, value: 0xC0 });
}

#[test]
fn expander_set_up_sequence() {
    let exp = Mcp23017::new(0x21);
    let writes: [RegisterWrite; 8] = exp.init();
    let regs: Vec<u8> = writes.iter().map(|w| w.reg).collect();
    assert_eq!(regs, vec![0x00u8, 0x01, 0x02, 0x03, 0x0C, 0x0D, 0x14, 0x15]);
    for w in writes.iter() {
        assert_eq!(w.addr, 0x21);
        assert_eq!(w.value, 0x00);
    }
}

#[test]
fn expander_masked_update() {
    let exp = Mcp23017::new(0x20);
    let write = exp.set_gpb(0b1010_1010, 0b0000_1111, 0b0101_0101);
    assert_eq!(write, RegisterWrite { addr: 0x20, reg: 0x15, value: 0b1010_0101 });
    let write = exp.set_gpa(0b1010_1010, 0b1100_0000, 0b0100_0000);
    assert_eq!(write, RegisterWrite { addr: 0x20, reg: 0x14, value: 0b0110_1010 });
    assert_eq!(exp.set_gpb(0x5A, 0x00, 0xFF).value, 0x5A);
    assert_eq!(exp.set_gpb(0x5A, 0xFF, 0x3C).value, 0x3C);
    assert_eq!(exp.set_gpa(0x00, 0x40, 0xFF).value, 0x40);
}

#[test]
fn converter_constants() {
    assert_eq!(MAX_POLLS, 7);
    assert_eq!(POLL_INTERVAL_MS, 50);
    assert_eq!(CONFIG_18BIT_PGA1, 0x0C);
}

#[test]
fn converter_configuration_bytes() {
    let adc = Mcp3424::new(0x68);
    assert_eq!(adc.addr, 0x68);
    assert_eq!(adc.start_conversion(1), 0x0C);
    assert_eq!(adc.start_conversion(2), 0x2C);
    assert_eq!(adc.start_conversion(3), 0x4C);
    assert_eq!(adc.start_conversion(4), 0x6C);
    assert_eq!(adc.start_conversion(0), 0x0C);
    assert_eq!(adc.start_conversion(5), 0x0C);
    assert_eq!(adc.start_conversion(255), 0x0C);
}

#[test]
fn converter_set_up_writes_nothing() {
    let mut adc = Mcp3424::new(0x68);
    assert_eq!(adc.init_18bit_pga1(), Ok(()));
    assert_eq!(adc, Mcp3424::new(0x68));
}

#[test]
fn decode_positive_codes() {
    assert_eq!(decode_microvolts(0x00, 0x00, 0x00), 0);
    // The low six bits of the third byte are not part of the code.
    assert_eq!(decode_microvolts(0x00, 0x00, 0x3F), 0);
    // Code 1: 15.625 uV, the fraction dropped.
    assert_eq!(decode_microvolts(0x00, 0x00, 0x40), 15);
    // Code 2: 31.25 uV.
    assert_eq!(decode_microvolts(0x00, 0x00, 0x80), 31);
    // Code 64: exactly 1000 uV.
    assert_eq!(decode_microvolts(0x00, 0x10, 0x00), 1_000);
    // Code 131071, the largest.
    assert_eq!(decode_microvolts(0x7F, 0xFF, 0xFF), 2_047_984);
}

#[test]
fn decode_negative_codes() {
    // Code -1: -15.625 uV, rounded towards zero.
    assert_eq!(decode_microvolts(0xFF, 0xFF, 0xC0), -15);
    // Code -2.
    assert_eq!(decode_microvolts(0xFF, 0xFF, 0x80), -31);
    // Code -64.
    assert_eq!(decode_microvolts(0xFF, 0xF0, 0x00), -1_000);
    // Code -131072, the smallest.
    assert_eq!(decode_microvolts(0x80, 0x00, 0x00), -2_048_000);
}

#[test]
fn first_poll_with_a_result_ends_the_read() {
    let adc = Mcp3424::new(0x68);
    let mut poll = adc.begin_read();
    assert_eq!(poll.polls(), 0);
    assert_eq!(poll.on_reply(ready(0x00, 0x10, 0x00)), PollOutcome::Ready(1_000));
    assert_eq!(poll.polls(), 1);
}

#[test]
fn busy_replies_ask_for_another_poll() {
    let adc = Mcp3424::new(0x68);
    let mut poll = adc.begin_read();
    assert_eq!(poll.on_reply(busy()), PollOutcome::Retry);
    assert_eq!(poll.on_reply(busy()), PollOutcome::Retry);
    assert_eq!(poll.on_reply(Err(())), PollOutcome::Retry);
    assert_eq!(poll.polls(), 3);
    assert_eq!(poll.on_reply(ready(0xFF, 0xF0, 0x00)), PollOutcome::Ready(-1_000));
}

#[test]
fn seventh_poll_without_a_result_fails_the_read() {
    let adc = Mcp3424::new(0x68);
    let mut poll = adc.begin_read();
    for _ in 0..6 {
        assert_eq!(poll.on_reply(busy()), PollOutcome::Retry);
    }
    assert_eq!(poll.polls(), 6);
    assert_eq!(poll.on_reply(busy()), PollOutcome::Failed);
    assert_eq!(poll.polls(), 7);
}

#[test]
fn seventh_poll_with_a_result_still_counts() {
    let adc = Mcp3424::new(0x68);
    let mut poll = adc.begin_read();
    for _ in 0..6 {
        assert_eq!(poll.on_reply(Err(())), PollOutcome::Retry);
    }
    assert_eq!(poll.on_reply(ready(0x00, 0x00, 0x40)), PollOutcome::Ready(15));
}

#[test]
fn no_poll_counts_after_the_seventh() {
    let adc = Mcp3424::new(0x68);
    let mut poll = adc.begin_read();
    for _ in 0..7 {
        poll.on_reply(Err(()));
    }
    assert_eq!(poll.on_reply(ready(0x00, 0x10, 0x00)), PollOutcome::Failed);
    assert_eq!(poll.on_reply(busy()), PollOutcome::Failed);
    assert_eq!(poll.polls(), 7);
}

#[test]
fn bus_failures_alone_fail_the_read() {
    let adc = Mcp3424::new(0x68);
    let mut poll = adc.begin_read();
    let mut outcomes: Vec<PollOutcome> = Vec::new();
    for _ in 0..7 {
        outcomes.push(poll.on_reply(Err(())));
    }
    assert_eq!(outcomes[5], PollOutcome::Retry);
    assert_eq!(outcomes[6], PollOutcome::Failed);
}
