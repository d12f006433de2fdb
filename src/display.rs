use vstd::prelude::*;

verus! {

/// How long the frame sink may go without a new frame before it warns, in milliseconds.
pub const FRAME_TIMEOUT_MS: u64 = 5000;

/// Whether the time since the last delivered frame exceeds the warning threshold.
pub fn check_frame_timeout(elapsed_ms: u64) -> (r: bool)
    ensures
        r == (elapsed_ms > FRAME_TIMEOUT_MS),
{
    elapsed_ms > FRAME_TIMEOUT_MS
}

/// Width and height of the largest picture of the video's aspect ratio that fits the
/// window, one side filling the window, the other rounded down. A video without height
/// collapses to a full-width line of height zero.
pub open spec fn fit_size(ww: int, wh: int, vw: int, vh: int) -> (int, int) {
    if vh == 0 {
        (ww, 0)
    } else if ww * vh > vw * wh {
        ((wh * vw) / vh, wh)
    } else if vw == 0 {
        (ww, 0)
    } else {
        (ww, (ww * vh) / vw)
    }
}

/// The picture's placement: centred, with its size from `fit_size`.
pub open spec fn display_rect_spec(ww: int, wh: int, vw: int, vh: int) -> (int, int, int, int) {
    let (w, h) = fit_size(ww, wh, vw, vh);
    ((ww - w) / 2, (wh - h) / 2, w, h)
}

/// Where to draw a `video_width` x `video_height` picture in a window of the given size,
/// keeping its aspect ratio: `(x, y, width, height)`.
pub fn calculate_display_rect(
    window_width: u32,
    window_height: u32,
    video_width: u32,
    video_height: u32,
) -> (r: (i32, i32, u32, u32))
    ensures
        (r.0 as int, r.1 as int, r.2 as int, r.3 as int) == display_rect_spec(
            window_width as int,
            window_height as int,
            video_width as int,
            video_height as int,
        ),
{
    let ww = window_width as u64;
    let wh = window_height as u64;
    let vw = video_width as u64;
    let vh = video_height as u64;
    proof {
        assert(ww * vh <= 0xffff_ffffu64 * 0xffff_ffffu64) by (nonlinear_arith)
            requires
                ww <= 0xffff_ffffu64,
                vh <= 0xffff_ffffu64,
        ;
        assert(vw * wh <= 0xffff_ffffu64 * 0xffff_ffffu64) by (nonlinear_arith)
            requires
                vw <= 0xffff_ffffu64,
                wh <= 0xffff_ffffu64,
        ;
    }
    let (w, h): (u64, u64) = if vh == 0 {
        (ww, 0)
    } else if ww * vh > vw * wh {
        proof {
            assert((wh as int * vw as int) / (vh as int) < ww as int) by (nonlinear_arith)
                requires
                    ww as int * vh as int > vw as int * wh as int,
                    vh > 0,
            ;
        }
        (wh * vw / vh, wh)
    } else if vw == 0 {
        (ww, 0)
    } else {
        proof {
            assert((ww as int * vh as int) / (vw as int) <= wh as int) by (nonlinear_arith)
                requires
                    ww as int * vh as int <= vw as int * wh as int,
                    vw > 0,
            ;
        }
        (ww, ww * vh / vw)
    };
    let x = ((ww - w) / 2) as i32;
    let y = ((wh - h) / 2) as i32;
    (x, y, w as u32, h as u32)
}

/// The render window's size and the cached placement of the picture in it.
pub struct WindowState {
    pub size: (u32, u32),
    pub display_rect: Option<(i32, i32, u32, u32)>,
}

impl WindowState {
    /// A window of the given size with no placement computed yet.
    pub fn new(width: u32, height: u32) -> (r: WindowState)
        ensures
            r.size == (width, height),
            r.display_rect is None,
    {
        WindowState { size: (width, height), display_rect: None }
    }

    /// Records a resize. A new size drops the cached placement; the same size keeps it.
    /// Returns whether the size changed.
    pub fn handle_resize(&mut self, new_width: u32, new_height: u32) -> (r: bool)
        ensures
            r == (old(self).size != (new_width, new_height)),
            final(self).size == (new_width, new_height),
            r ==> final(self).display_rect is None,
            !r ==> final(self).display_rect == old(self).display_rect,
    {
        if new_width != self.size.0 || new_height != self.size.1 {
            self.size = (new_width, new_height);
            self.display_rect = None;
            true
        } else {
            false
        }
    }

    /// Computes and caches the placement of a video picture in a window of the given size.
    pub fn update_display_rect(
        &mut self,
        window_width: u32,
        window_height: u32,
        video_width: u32,
        video_height: u32,
    )
        ensures
            final(self).size == old(self).size,
            final(self).display_rect matches Some(rect) && (
                rect.0 as int,
                rect.1 as int,
                rect.2 as int,
                rect.3 as int,
            ) == display_rect_spec(
                window_width as int,
                window_height as int,
                video_width as int,
                video_height as int,
            ),
    {
        self.display_rect = Some(
            calculate_display_rect(window_width, window_height, video_width, video_height),
        );
    }
}

/// Milliseconds from `since_ms` to `now_ms`, zero when the reading went backwards.
pub open spec fn elapsed_ms(since_ms: u64, now_ms: u64) -> int {
    if now_ms >= since_ms {
        now_ms - since_ms
    } else {
        0
    }
}

/// Counts delivered frames and reports the count once a second.
pub struct FpsCounter {
    pub frame_count: u32,
    pub last_update_ms: u64,
}

impl FpsCounter {
    /// A counter with no frames, whose first second starts at the reading `now_ms`.
    pub fn new(now_ms: u64) -> (r: FpsCounter)
        ensures
            r.frame_count == 0,
            r.last_update_ms == now_ms,
    {
        FpsCounter { frame_count: 0, last_update_ms: now_ms }
    }

    /// Counts one frame at the reading `now_ms`. When a second or more has passed since the
    /// last report, returns the count (this frame included) and starts a new second.
    pub fn update(&mut self, now_ms: u64) -> (r: Option<u32>)
        ensures
            ({
                let counted = if old(self).frame_count == u32::MAX {
                    u32::MAX
                } else {
                    (old(self).frame_count + 1) as u32
                };
                if elapsed_ms(old(self).last_update_ms, now_ms) >= 1000 {
                    r == Some(counted) && final(self).frame_count == 0
                        && final(self).last_update_ms == now_ms
                } else {
                    r is None && final(self).frame_count == counted
                        && final(self).last_update_ms == old(self).last_update_ms
                }
            }),
    {
        if self.frame_count < u32::MAX {
            self.frame_count = self.frame_count + 1;
        }
        let elapsed: u64 = if now_ms >= self.last_update_ms {
            now_ms - self.last_update_ms
        } else {
            0
        };
        if elapsed >= 1000 {
            let count = self.frame_count;
            self.frame_count = 0;
            self.last_update_ms = now_ms;
            Some(count)
        } else {
            None
        }
    }
}

} // verus!
