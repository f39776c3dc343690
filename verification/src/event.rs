use vstd::prelude::*;
use crate::context::Context;
use crate::input::{apply_event, InputModel};
use crate::render::RenderSurface;

verus! {

/// A raw platform event, reduced to the plain values the loop core
/// inspects. Key and button codes share the `u32` code space of the
/// platform layer but live in separate namespaces inside the tracker.
#[derive(Clone, Copy, Debug, PartialEq, Eq, Structural)]
pub enum Event {
    KeyDown { code: u32 },
    KeyUp { code: u32 },
    MouseButtonDown { code: u32 },
    MouseButtonUp { code: u32 },
    /// Absolute pointer position plus the relative motion since the
    /// previous motion event.
    MouseMotion { x: i32, y: i32, dx: i32, dy: i32 },
    /// The window was resized.
    Resized,
    /// A platform-level terminate request.
    Quit,
    /// Any event kind the core does not inspect.
    Other,
}

/// The input-tracker model after folding a whole frame's events into
/// `m`, in arrival order.
pub open spec fn apply_events(m: InputModel, events: Seq<Event>) -> InputModel
    decreases events.len(),
{
    if events.len() == 0 {
        m
    } else {
        apply_event(apply_events(m, events.drop_last()), events.last())
    }
}

/// Whether `e` is a key event carrying `code`.
pub open spec fn key_event_for(e: Event, code: u32) -> bool {
    e == (Event::KeyDown { code }) || e == (Event::KeyUp { code })
}

/// Whether `e` is a mouse-button event carrying `code`.
pub open spec fn button_event_for(e: Event, code: u32) -> bool {
    e == (Event::MouseButtonDown { code }) || e == (Event::MouseButtonUp { code })
}

/// Law: a frame's events leave every code they do not mention exactly
/// as it was. Together with the per-frame reset, whose contract clears
/// both transient sets, this is the transient-reset property: after a
/// reset and a frame without an event for `code`, the code is neither
/// just pressed nor just released, and whether it is held is unchanged.
pub proof fn lemma_untouched_code_unchanged(m: InputModel, events: Seq<Event>, code: u32)
    requires
        forall|i: int| 0 <= i < events.len() ==> !key_event_for(#[trigger] events[i], code),
        forall|i: int| 0 <= i < events.len() ==> !button_event_for(#[trigger] events[i], code),
    ensures
        apply_events(m, events).keys.pressed.contains(code) == m.keys.pressed.contains(code),
        apply_events(m, events).keys.just_pressed.contains(code) == m.keys.just_pressed.contains(
            code,
        ),
        apply_events(m, events).keys.just_released.contains(code)
            == m.keys.just_released.contains(code),
        apply_events(m, events).buttons.pressed.contains(code) == m.buttons.pressed.contains(code),
        apply_events(m, events).buttons.just_pressed.contains(code)
            == m.buttons.just_pressed.contains(code),
        apply_events(m, events).buttons.just_released.contains(code)
            == m.buttons.just_released.contains(code),
    decreases events.len(),
{
    if events.len() > 0 {
        assert(forall|i: int|
            0 <= i < events.drop_last().len() ==> !key_event_for(
                #[trigger] events.drop_last()[i],
                code,
            ));
        assert(forall|i: int|
            0 <= i < events.drop_last().len() ==> !button_event_for(
                #[trigger] events.drop_last()[i],
                code,
            ));
        lemma_untouched_code_unchanged(m, events.drop_last(), code);
        assert(!key_event_for(events.last(), code));
        assert(!button_event_for(events.last(), code));
    }
}

/// Law: a whole frame of events keeps each code in at most one
/// transient set, extending the per-event exclusivity law to the fold.
pub proof fn lemma_transients_exclusive_events(m: InputModel, events: Seq<Event>)
    requires
        crate::input::transients_exclusive(m.keys),
        crate::input::transients_exclusive(m.buttons),
    ensures
        crate::input::transients_exclusive(apply_events(m, events).keys),
        crate::input::transients_exclusive(apply_events(m, events).buttons),
    decreases events.len(),
{
    if events.len() > 0 {
        lemma_transients_exclusive_events(m, events.drop_last());
        crate::input::lemma_transients_exclusive(
            apply_events(m, events.drop_last()),
            events.last(),
        );
    }
}

/// Whether some event in the sequence is a terminate request.
pub open spec fn any_quit(events: Seq<Event>) -> bool {
    exists|i: int| 0 <= i < events.len() && #[trigger] events[i] is Quit
}

/// The platform capability the loop polls and yields to: it drains the
/// queued raw events and performs the pacing sleep. Implementations
/// live outside this core, so no behaviour is promised of them here.
pub trait Platform {
    /// Drains and returns every queued platform event, in arrival
    /// order.
    fn poll_events(&mut self) -> Vec<Event>;

    /// Blocks for about `nanos` nanoseconds; the loop's only yield
    /// point.
    fn sleep(&mut self, nanos: u64);
}

/// The hosted callback pair, implemented by the user of the loop:
/// an optional init hook, then `update` and `render` once per frame.
/// The callbacks receive the full context, so nothing is assumed here
/// of what they leave behind.
pub trait EventHandler<R: RenderSurface> {
    /// Runs exactly once, between construction and the first
    /// iteration.
    fn init(&mut self, context: &mut Context<R>) {
    }

    /// Per-frame logic; may call `request_quit` on the context.
    fn update(&mut self, context: &mut Context<R>);

    /// Per-frame drawing through the context's render capability;
    /// read-only access to the hosted state itself.
    fn render(&self, context: &mut Context<R>);
}

impl<R: RenderSurface> Context<R> {
    /// Routes one frame's drained events: every event is folded into
    /// the input tracker, a terminate request sets the quit flag, and
    /// a resize is forwarded to the render surface. The clock is not
    /// touched, and neither is the surface in a frame without a resize.
    pub fn process_events(&mut self, events: &Vec<Event>)
        ensures
            final(self).input@ == apply_events(old(self).input@, events@),
            final(self).requested_quit == (old(self).requested_quit || any_quit(events@)),
            final(self).time == old(self).time,
            (forall|j: int| 0 <= j < events@.len() ==> !(#[trigger] events@[j] is Resized))
                ==> final(self).render == old(self).render,
    {
        let n = events.len();
        let mut i: usize = 0;
        while i < n
            invariant
                i <= n,
                n == events@.len(),
                self.input@ == apply_events(old(self).input@, events@.take(i as int)),
                self.requested_quit == (old(self).requested_quit || any_quit(
                    events@.take(i as int),
                )),
                self.time == old(self).time,
                (forall|j: int| 0 <= j < i ==> !(#[trigger] events@[j] is Resized)) ==> self.render
                    == old(self).render,
            decreases n - i,
        {
            let e = events[i];
            self.input.process_event(&e);
            match e {
                Event::Quit => self.request_quit(),
                Event::Resized => self.render.resize(),
                _ => {},
            }
            proof {
                let s = events@;
                assert(s.take(i + 1).drop_last() =~= s.take(i as int));
                assert(s.take(i + 1).last() == s[i as int]);
                assert(any_quit(s.take(i + 1)) == (any_quit(s.take(i as int)) || s[i as int]
                    is Quit)) by {
                    if any_quit(s.take(i as int)) {
                        let j = choose|j: int|
                            0 <= j < s.take(i as int).len() && #[trigger] s.take(i as int)[j]
                                is Quit;
                        assert(s.take(i + 1)[j] is Quit);
                    }
                    if s[i as int] is Quit {
                        assert(s.take(i + 1)[i as int] is Quit);
                    }
                    if any_quit(s.take(i + 1)) {
                        let j = choose|j: int|
                            0 <= j < s.take(i + 1).len() && #[trigger] s.take(i + 1)[j] is Quit;
                        if j < i {
                            assert(s.take(i as int)[j] is Quit);
                        }
                    }
                }
            }
            i += 1;
        }
        proof {
            assert(events@.take(n as int) =~= events@);
        }
    }
}

/// One full `Running` iteration of the loop, in the fixed order the
/// design owes its correctness to: per-frame input reset, event drain
/// and routing, clock advance, the hosted update then render, frame
/// presentation, and the pacing sleep. The hosted callbacks hold the
/// context mutably, so nothing is promised here of the state they
/// leave; what each step itself does is stated on that step.
pub fn run_iteration<R: RenderSurface, P: Platform, H: EventHandler<R>>(
    platform: &mut P,
    context: &mut Context<R>,
    state: &mut H,
)
{
    context.input.update();
    let events = platform.poll_events();
    context.process_events(&events);
    context.time.update();
    state.update(context);
    state.render(context);
    context.render.end();
    let delay = context.time.wait_sync();
    platform.sleep(delay);
}

} // verus!
