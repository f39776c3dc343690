use vstd::prelude::*;
use crate::input::{InputContext, empty_input};
use crate::time::TimeContext;

verus! {

/// Window and surface configuration, consumed once when the host
/// program creates its surface; the core never mutates it afterwards.
#[derive(Clone, Copy, Debug, PartialEq, Eq)]
pub struct WindowConfig {
    pub title: &'static str,
    pub width: u32,
    pub height: u32,
    pub resizable: bool,
    pub fullscreen: bool,
    pub vsync: bool,
}

/// Builder for the window configuration.
pub struct ContextBuilder {
    pub window_config: WindowConfig,
}

impl ContextBuilder {
    /// Starts from the defaults: a 900 by 600 window, not resizable,
    /// windowed, with vsync on.
    pub fn new(window_title: &'static str) -> (b: Self)
        ensures
            b.window_config.title == window_title,
            b.window_config.width == 900,
            b.window_config.height == 600,
            !b.window_config.resizable,
            !b.window_config.fullscreen,
            b.window_config.vsync,
    {
        ContextBuilder {
            window_config: WindowConfig {
                title: window_title,
                width: 900,
                height: 600,
                resizable: false,
                fullscreen: false,
                vsync: true,
            },
        }
    }

    /// Sets whether the window may be resized.
    pub fn resizable(self, resizable: bool) -> (b: Self)
        ensures
            b.window_config.resizable == resizable,
            b.window_config.title == self.window_config.title,
            b.window_config.width == self.window_config.width,
            b.window_config.height == self.window_config.height,
            b.window_config.fullscreen == self.window_config.fullscreen,
            b.window_config.vsync == self.window_config.vsync,
    {
        ContextBuilder { window_config: WindowConfig { resizable, ..self.window_config } }
    }

    /// Sets whether the window starts fullscreen.
    pub fn fullscreen(self, fullscreen: bool) -> (b: Self)
        ensures
            b.window_config.fullscreen == fullscreen,
            b.window_config.title == self.window_config.title,
            b.window_config.width == self.window_config.width,
            b.window_config.height == self.window_config.height,
            b.window_config.resizable == self.window_config.resizable,
            b.window_config.vsync == self.window_config.vsync,
    {
        ContextBuilder { window_config: WindowConfig { fullscreen, ..self.window_config } }
    }

    /// Sets whether presentation waits for the display's vertical sync.
    pub fn vsync(self, vsync: bool) -> (b: Self)
        ensures
            b.window_config.vsync == vsync,
            b.window_config.title == self.window_config.title,
            b.window_config.width == self.window_config.width,
            b.window_config.height == self.window_config.height,
            b.window_config.resizable == self.window_config.resizable,
            b.window_config.fullscreen == self.window_config.fullscreen,
    {
        ContextBuilder { window_config: WindowConfig { vsync, ..self.window_config } }
    }

    /// Sets the window size in pixels.
    pub fn size(self, width: u32, height: u32) -> (b: Self)
        ensures
            b.window_config.width == width,
            b.window_config.height == height,
            b.window_config.title == self.window_config.title,
            b.window_config.resizable == self.window_config.resizable,
            b.window_config.fullscreen == self.window_config.fullscreen,
            b.window_config.vsync == self.window_config.vsync,
    {
        ContextBuilder { window_config: WindowConfig { width, height, ..self.window_config } }
    }
}

/// All engine state the loop drives: the renderer capability, the
/// input tracker, the frame clock, and the quit flag. The flag is
/// meant to be set through `request_quit`; the core itself never
/// clears it, and the loop stops at the first top-of-iteration check
/// that sees it set. It is a public field only because a private one
/// would make the whole type opaque to contracts outside this module.
pub struct Context<R> {
    pub render: R,
    pub input: InputContext,
    pub time: TimeContext,
    pub requested_quit: bool,
}

impl<R> Context<R> {
    /// Fresh state around a renderer: empty input, a clock aimed at
    /// `target_fps`, and no quit requested.
    pub fn new(render: R, target_fps: u32) -> (c: Self)
        requires
            1 <= target_fps,
        ensures
            c.render == render,
            c.input@ == empty_input(),
            c.time@.now == 0,
            c.time@.last == 0,
            c.time@.frame_delay == crate::time::NANOS_PER_SECOND / target_fps as u64,
            c.time@.delta == c.time@.frame_delay,
            !c.time@.started,
            c.time.wf(),
            !c.requested_quit,
    {
        Context {
            render,
            input: InputContext::new(),
            time: TimeContext::new(target_fps),
            requested_quit: false,
        }
    }

    /// Asks the loop to stop; it finishes the current iteration,
    /// including its render and present, and exits at the next check.
    pub fn request_quit(&mut self)
        ensures
            final(self).requested_quit,
            final(self).render == old(self).render,
            final(self).input == old(self).input,
            final(self).time == old(self).time,
    {
        self.requested_quit = true;
    }

    /// Reads the quit flag.
    pub fn quit_requested(&self) -> (r: bool)
        ensures
            r == self.requested_quit,
    {
        self.requested_quit
    }
}

} // verus!
