use pixel_pipeline::pipeline::ChannelPolicy;
use pixel_pipeline::pipeline::Phase;
use pixel_pipeline::pipeline::Pipeline;
use pixel_pipeline::pipeline::PipelineConfig;
use pixel_pipeline::pipeline::ProduceOutcome;
use pixel_pipeline::pipeline::SendOutcome;
use pixel_pipeline::pixel::DrawRequest;
use pixel_pipeline::pixel::OutOfBounds;
use pixel_pipeline::pixel::Rgba8;
use pixel_pipeline::pixel::opaque_white;

fn red() -> Rgba8 {
    Rgba8 { r: 255, g: 0, b: 0, a: 255 }
}

fn config(policy: ChannelPolicy) -> PipelineConfig {
    PipelineConfig {
        width: 800,
        height: 600,
        workers: 1,
        target_rate: 6250,
        channel_capacity: 128,
        policy,
        min_budget: 1,
    }
}

fn request(x: u32, y: u32) -> DrawRequest {
    DrawRequest { x, y, color: red() }
}

#[test]
fn streaming_and_resize_scenario() {
    // buffer 800x600, one worker, channel capacity 128
    let mut p = Pipeline::new(config(ChannelPolicy::Drop));
    // inject 200 draw requests at (10, 10, RED): the channel keeps 128,
    // the rest fall to the drop policy
    for _ in 0..200 {
        let r = p.inject(request(10, 10));
        assert!(r.is_ok());
    }
    assert_eq!(p.dropped, 72);
    // one cycle of 16 milliseconds: budget = 16000 * 6250 / 1e6 = 100
    let rep = p.tick(16_000, 1000);
    assert!((rep.drained as u64) <= rep.budget);
    assert_eq!(rep.budget, 100);
    assert_eq!(rep.drained, 100);
    let snap = p.snapshot();
    assert_eq!(snap.pixel(10, 10), Some(red()));
    // resize to 400x300: the overlap survives, new area is opaque white
    let discarded = p.resize(400, 300);
    assert_eq!(discarded, 28);
    let snap2 = p.snapshot();
    assert_eq!(snap2.pixel(10, 10), Some(red()));
    assert_eq!(snap2.pixel(399, 299), Some(opaque_white()));
    // a subsequent draw request for (500, 10) is rejected as out of bounds
    assert_eq!(p.inject(request(500, 10)), Err(OutOfBounds { x: 500, y: 10 }));
}

#[test]
fn tick_never_exceeds_budget_and_applies_each_request_once() {
    let mut p = Pipeline::new(PipelineConfig {
        width: 100,
        height: 100,
        workers: 1,
        target_rate: 1_000_000,
        channel_capacity: 16,
        policy: ChannelPolicy::Drop,
        min_budget: 1,
    });
    for i in 0..5u32 {
        assert_eq!(p.inject(request(i, i)), Ok(SendOutcome::Sent));
    }
    // a generous budget drains exactly what is pending
    let rep = p.tick(1_000_000, 1000);
    assert_eq!(rep.drained, 5);
    assert_eq!(p.applied, 5);
    // nothing left: a second tick applies nothing more
    let rep2 = p.tick(1_000_000, 1000);
    assert_eq!(rep2.drained, 0);
    assert_eq!(p.applied, 5);
    let snap = p.snapshot();
    for i in 0..5u32 {
        assert_eq!(snap.pixel(i, i), Some(red()));
    }
}

#[test]
fn tick_stops_at_the_budget_and_keeps_the_rest_in_order() {
    let mut p = Pipeline::new(PipelineConfig {
        width: 100,
        height: 100,
        workers: 1,
        target_rate: 3000, // budget of 3 for a one-millisecond cycle
        channel_capacity: 16,
        policy: ChannelPolicy::Drop,
        min_budget: 1,
    });
    for i in 0..6u32 {
        assert_eq!(p.inject(request(i, 0)), Ok(SendOutcome::Sent));
    }
    let rep = p.tick(1000, 500);
    assert_eq!(rep.budget, 3);
    assert_eq!(rep.drained, 3);
    let snap = p.snapshot();
    assert_eq!(snap.pixel(2, 0), Some(red()));
    assert_eq!(snap.pixel(3, 0), Some(opaque_white()));
    // the second cycle drains the remaining three, oldest first
    let rep2 = p.tick(1000, 500);
    assert_eq!(rep2.drained, 3);
    assert_eq!(p.snapshot().pixel(5, 0), Some(red()));
}

#[test]
fn drop_policy_counts_losses_and_block_policy_retries() {
    let mut p = Pipeline::new(PipelineConfig {
        width: 10,
        height: 10,
        workers: 1,
        target_rate: 100,
        channel_capacity: 1,
        policy: ChannelPolicy::Drop,
        min_budget: 1,
    });
    assert_eq!(p.inject(request(1, 1)), Ok(SendOutcome::Sent));
    assert_eq!(p.inject(request(2, 2)), Ok(SendOutcome::Dropped));
    assert_eq!(p.dropped, 1);

    let mut q = Pipeline::new(PipelineConfig {
        width: 10,
        height: 10,
        workers: 1,
        target_rate: 100,
        channel_capacity: 1,
        policy: ChannelPolicy::Block,
        min_budget: 1,
    });
    assert_eq!(q.inject(request(1, 1)), Ok(SendOutcome::Sent));
    assert_eq!(q.inject(request(2, 2)), Ok(SendOutcome::WouldBlock));
    assert_eq!(q.dropped, 0);
}

#[test]
fn resize_protocol_steps_in_order() {
    let mut p = Pipeline::new(config(ChannelPolicy::Drop));
    assert_eq!(p.inject(request(700, 500)), Ok(SendOutcome::Sent));
    assert_eq!(p.phase, Phase::Idle);
    p.begin_resize(400, 300);
    assert_eq!(p.phase, Phase::Signaling);
    p.signal_worker();
    // the single worker is paused now, so the protocol can drain
    assert_eq!(p.phase, Phase::Draining);
    let discarded = p.drain_old();
    assert_eq!(discarded, 1);
    // the old channel holds zero requests immediately before the swap
    assert_eq!(p.data.len(), 0);
    assert_eq!(p.phase, Phase::Swapping);
    p.swap_buffer();
    assert_eq!(p.phase, Phase::Resuming);
    assert_eq!(p.snapshot().pixel(399, 299), Some(opaque_white()));
    p.resume_worker();
    assert_eq!(p.phase, Phase::Installing);
    p.install_channel();
    assert_eq!(p.phase, Phase::Idle);
    assert_eq!(p.chan_gen, 1);
}

#[test]
fn worker_turns_route_to_the_channel_the_worker_holds() {
    let mut p = Pipeline::new(config(ChannelPolicy::Drop));
    // outside a resize a turn feeds the consumer's channel
    assert_eq!(p.produce(0, 42), ProduceOutcome::Sent);
    assert_eq!(p.data.len(), 1);
    // mid-protocol: a signaled worker is paused and produces nothing
    p.begin_resize(400, 300);
    p.signal_worker();
    assert_eq!(p.produce(0, 42), ProduceOutcome::Idle);
    p.drain_old();
    assert_eq!(p.data.len(), 0);
    p.swap_buffer();
    p.resume_worker();
    // resumed before the install: the turn feeds the staged channel,
    // not the old one
    assert_eq!(p.produce(0, 42), ProduceOutcome::Sent);
    assert_eq!(p.data.len(), 0);
    p.install_channel();
    assert_eq!(p.data.len(), 1);
    // and what it produced respects the new bounds
    let rep = p.tick(1_000_000, 100);
    assert_eq!(rep.drained, 1);
}

#[test]
fn produce_respects_the_channel_capacity() {
    let mut p = Pipeline::new(PipelineConfig {
        width: 10,
        height: 10,
        workers: 1,
        target_rate: 100,
        channel_capacity: 2,
        policy: ChannelPolicy::Drop,
        min_budget: 1,
    });
    assert_eq!(p.produce(0, 1), ProduceOutcome::Sent);
    assert_eq!(p.produce(0, 2), ProduceOutcome::Sent);
    assert_eq!(p.produce(0, 3), ProduceOutcome::Dropped);
    assert_eq!(p.dropped, 1);
    assert_eq!(p.data.len(), 2);
}

#[test]
fn sustained_starvation_is_reported_as_degraded() {
    let mut p = Pipeline::new(PipelineConfig {
        width: 10,
        height: 10,
        workers: 1,
        target_rate: 1000,
        channel_capacity: 4,
        policy: ChannelPolicy::Drop,
        min_budget: 10,
    });
    // nothing pending: every cycle drains far below its budget
    for k in 1..30u32 {
        let rep = p.tick(16_000, 100);
        assert_eq!(rep.drained, 0);
        assert!(!rep.degraded, "degraded too early at cycle {}", k);
    }
    let rep = p.tick(16_000, 100);
    assert!(rep.degraded);
    // one healthy cycle clears the condition
    for _ in 0..4 {
        assert_eq!(p.inject(request(1, 1)), Ok(SendOutcome::Sent));
    }
    let healthy = p.tick(16_000, 100);
    assert_eq!(healthy.drained, 4);
    assert!(!healthy.degraded);
}

#[test]
fn workers_get_distinct_palette_bases() {
    let p = Pipeline::new(PipelineConfig {
        width: 64,
        height: 64,
        workers: 3,
        target_rate: 100,
        channel_capacity: 8,
        policy: ChannelPolicy::Drop,
        min_budget: 1,
    });
    assert_eq!(p.workers.len(), 3);
    assert_eq!(
        (p.workers[0].base_r, p.workers[0].base_g, p.workers[0].base_b),
        (255, 0, 0)
    );
    assert_eq!(
        (p.workers[1].base_r, p.workers[1].base_g, p.workers[1].base_b),
        (0, 255, 0)
    );
    assert_eq!(
        (p.workers[2].base_r, p.workers[2].base_g, p.workers[2].base_b),
        (255, 255, 0)
    );
}

#[test]
fn zero_worker_config_still_runs_one_worker() {
    let p = Pipeline::new(PipelineConfig {
        width: 8,
        height: 8,
        workers: 0,
        target_rate: 100,
        channel_capacity: 4,
        policy: ChannelPolicy::Block,
        min_budget: 1,
    });
    assert_eq!(p.workers.len(), 1);
    assert_eq!(p.rate.floor, 1);
}
