use quad_flight::mode::ProfilerEvent;
use quad_flight::profiling::{EventSampler, ProfilerScopes, TimedScope};
use quad_flight::telemetry::log_chunks;

#[test]
fn log_chunks_pad_last_chunk() {
    let msg = b"Battery P".to_vec();
    let chunks = log_chunks(&msg);
    assert_eq!(chunks.len(), 1);
    assert_eq!(&chunks[0][..9], b"Battery P");
    assert_eq!(&chunks[0][9..], &[0u8; 7]);
}

#[test]
fn log_chunks_split_long_message() {
    let msg: Vec<u8> = (0u8..40).collect();
    let chunks = log_chunks(&msg);
    assert_eq!(chunks.len(), 3);
    assert_eq!(chunks[1][0], 16);
    assert_eq!(chunks[2][7], 39);
    assert_eq!(chunks[2][8], 0);
    assert_eq!(log_chunks(&Vec::new()).len(), 0);
    assert_eq!(log_chunks(&vec![1u8; 32]).len(), 2);
}

#[test]
fn scope_reported_after_send_count() {
    let mut p = ProfilerScopes::new();
    let mut t: u64 = 1000;
    for pass in 0..120u32 {
        assert_eq!(p.count_profiling_event(ProfilerEvent::MainLoopStart, t), None);
        t += 5;
        let r = p.count_profiling_event(ProfilerEvent::MainLoopStop, t);
        if pass < 119 {
            assert_eq!(r, None);
        } else {
            assert_eq!(
                r,
                Some(TimedScope {
                    start: ProfilerEvent::MainLoopStart,
                    stop: ProfilerEvent::MainLoopStop,
                    ns: 600,
                    count: 120,
                })
            );
        }
        t += 100;
    }
    // The other scope was never opened: closing it counts nothing.
    assert_eq!(p.count_profiling_event(ProfilerEvent::MainLoopFullControlStop, t), None);
}

#[test]
fn event_sampled_every_fortieth() {
    let mut s = EventSampler::new();
    for k in 1..=80u32 {
        let send = s.send_profiling_event(ProfilerEvent::MainLoopStop);
        assert_eq!(send, k % 40 == 0);
    }
    assert!(!s.send_profiling_event(ProfilerEvent::MainLoopStart));
}
