//! The GPT and PIT timers: delay arming, interrupt handling, and
//! cancellation.

use imxrt_async_hal::gpt;
use imxrt_async_hal::gpt::Gpt;
use imxrt_async_hal::gpt::GptInstance;
use imxrt_async_hal::pit;
use imxrt_async_hal::pit::PitInstance;
use imxrt_async_hal::pit::PIT;
use imxrt_async_hal::Poll;

#[test]
fn gpt_new_starts_the_counter() {
    let mut block = GptInstance::new(1);
    block.sr = 0x15;
    let (_a, _b, _c) = Gpt::new(&mut block);
    assert_eq!(block.sr, 0);
    assert_eq!(block.cr, gpt::CR_FRR | gpt::CR_WAITEN | gpt::CR_EN);
    assert_eq!(block.ir & gpt::IR_ROVIE, 0);
}

#[test]
fn gpt_delay_arms_waits_and_resolves() {
    let mut block = GptInstance::new(1);
    let (mut timer, _b, _c) = Gpt::new(&mut block);
    block.cnt = 1000;

    let mut delay = timer.delay(250);
    // First poll: compare armed at the current count plus the ticks, the
    // token parked, the interrupt enabled.
    assert!(matches!(delay.poll(&mut block, 5), Poll::Pending));
    assert_eq!(block.ocr1, 1250);
    assert_eq!(block.waker1, Some(5));
    assert_eq!(block.ir & 1, 1);
    // Re-polled before the compare fires: still pending.
    assert!(matches!(delay.poll(&mut block, 5), Poll::Pending));

    // The compare fires: the handler wakes the task; the next poll
    // acknowledges the flag and resolves.
    block.sr = 1;
    assert_eq!(gpt::on_interrupt(&mut block), vec![5]);
    assert_eq!(block.ir & 1, 0);
    assert!(matches!(delay.poll(&mut block, 5), Poll::Ready(())));
    assert_eq!(block.sr & 1, 0);
}

#[test]
fn gpt_delay_wraps_the_counter() {
    let mut block = GptInstance::new(2);
    let (_a, mut timer, _c) = Gpt::new(&mut block);
    block.cnt = u32::MAX;
    let mut delay = timer.delay(10);
    assert!(matches!(delay.poll(&mut block, 1), Poll::Pending));
    assert_eq!(block.ocr2, 9);
}

#[test]
fn gpt_cancel_disables_the_compare() {
    let mut block = GptInstance::new(1);
    let (mut timer, _b, _c) = Gpt::new(&mut block);
    let mut delay = timer.delay(100);
    assert!(matches!(delay.poll(&mut block, 2), Poll::Pending));
    delay.cancel(&mut block);
    assert_eq!(block.ir & 1, 0);
    assert_eq!(block.sr & 1, 0);
}

#[test]
fn pit_new_resets_the_channels() {
    let mut block = PitInstance { mcr: pit::MCR_MDIS };
    let (a, b, c, d) = PIT::new(&mut block);
    assert_eq!(block.mcr & pit::MCR_MDIS, 0);
    drop((a, b, c, d));
}

#[test]
fn pit_delay_arms_waits_and_resolves() {
    let mut block = PitInstance { mcr: 0 };
    let (mut timer, _b, _c, _d) = PIT::new(&mut block);

    let delay = timer.delay(123_456);
    assert!(matches!(timer.poll(&delay, 9), Poll::Pending));
    assert_eq!(timer.channel_mut().regs.ldval, 123_456);
    assert_eq!(timer.channel_mut().regs.tctrl, pit::TCTRL_TIE | pit::TCTRL_TEN);
    assert_eq!(timer.channel_mut().waker, Some(9));
    // Re-polled while active: still pending.
    assert!(matches!(timer.poll(&delay, 9), Poll::Pending));

    // The timeout fires: the handler stops the channel and wakes the
    // task; the next poll acknowledges the flag and resolves.
    timer.channel_mut().regs.tflg = pit::TFLG_TIF;
    assert_eq!(timer.on_interrupt(), Some(9));
    assert!(matches!(timer.poll(&delay, 9), Poll::Ready(())));
}

#[test]
fn pit_cancel_stops_the_channel() {
    let mut block = PitInstance { mcr: 0 };
    let (_a, mut timer, _c, _d) = PIT::new(&mut block);
    let delay = timer.delay(50);
    assert!(matches!(timer.poll(&delay, 1), Poll::Pending));
    timer.cancel();
    // Stopped: a new poll arms the channel afresh rather than waiting.
    assert!(matches!(timer.poll(&delay, 1), Poll::Pending));
}
