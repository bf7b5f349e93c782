use klystron::frame_sync::{Frame, FrameSync};

#[test]
fn fresh_frame_is_presignaled() {
    let f = Frame::new();
    assert!(f.fence_signaled);
    assert!(!f.render_pending);
}

#[test]
fn next_frame_advances_ring_modulo_n() {
    let mut sync = FrameSync::new(3);
    assert_eq!(sync.current_frame(), 0);
    assert_eq!(sync.next_frame(), (1, false));
    assert_eq!(sync.next_frame(), (2, false));
    assert_eq!(sync.next_frame(), (0, false));
    assert_eq!(sync.next_frame(), (1, false));
    assert_eq!(sync.current_frame(), 1);
}

#[test]
fn wait_gate_blocks_on_the_nth_call() {
    // With n frames in flight, after next_frame hands out slot k, the next
    // n - 1 calls hand out the other slots without touching k; the call
    // after those hands out k again and must wait, because k's fence was
    // reset at submission and never signaled.
    let n = 3;
    let mut sync = FrameSync::new(n);
    let (k, wait) = sync.next_frame();
    assert_eq!(k, 1);
    assert!(!wait, "fences start pre-signaled");
    sync.mark_submitted(k);
    for _ in 0..n - 1 {
        let (slot, wait) = sync.next_frame();
        assert_ne!(slot, k);
        assert!(!wait, "other slots' fences are still signaled");
        sync.mark_submitted(slot);
    }
    let (again, wait) = sync.next_frame();
    assert_eq!(again, k, "the ring returns to slot k after n more calls");
    assert!(wait, "slot k's fence is unsignaled, so the call must block");
    // Once the GPU signals k's fence, the slot is usable without waiting.
    sync.mark_fence_signaled(k);
    sync.mark_submitted(k);
    for _ in 0..n {
        let (slot, _) = sync.next_frame();
        sync.mark_fence_signaled(slot);
    }
}

#[test]
fn current_frame_does_not_advance() {
    let mut sync = FrameSync::new(2);
    sync.next_frame();
    assert_eq!(sync.current_frame(), 1);
    assert_eq!(sync.current_frame(), 1);
}
