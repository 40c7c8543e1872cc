use vstd::prelude::*;
use crate::context::{clear_pass_of, GraphicsContext, Recovery};
use crate::frame::{background_color, spec_background, AcquireError, ClearPass};
use crate::surface::SurfaceConfig;

verus! {

/// The window lifecycle events the loop reacts to.
#[derive(Debug, Clone, Copy, PartialEq, Eq, Structural)]
pub enum WindowEvent {
    CloseRequested,
    Resized { width: u32, height: u32 },
    /// The event source drained its queue and is about to wait for more.
    AboutToWait,
    RedrawRequested,
    /// Any other event; ignored.
    Other,
}

#[derive(Debug, Clone, Copy, PartialEq, Eq, Structural)]
pub enum LoopState {
    Running,
    Terminating,
}

/// What the host must do after the loop handled an event.
#[derive(Debug, Clone, Copy, PartialEq, Eq, Structural)]
pub enum LoopAction {
    Nothing,
    /// Stop dispatching events.
    Exit,
    /// Ask the window for one redraw.
    RequestRedraw,
    /// The surface was configured anew with this configuration.
    Configure(SurfaceConfig),
    /// A frame showing this pass was presented.
    Present(ClearPass),
}

/// One transition: the loop's state and the surface configuration before
/// and after an event, and the action that event calls for.
pub open spec fn step(state: LoopState, config: SurfaceConfig, event: WindowEvent) -> (
    LoopState,
    SurfaceConfig,
    LoopAction,
) {
    match state {
        LoopState::Terminating => (state, config, LoopAction::Nothing),
        LoopState::Running => match event {
            WindowEvent::CloseRequested => (LoopState::Terminating, config, LoopAction::Exit),
            WindowEvent::Resized { width, height } => {
                if width == 0 || height == 0 {
                    (state, config, LoopAction::Nothing)
                } else {
                    let c = SurfaceConfig { width, height, ..config };
                    (state, c, LoopAction::Configure(c))
                }
            },
            WindowEvent::AboutToWait => (state, config, LoopAction::RequestRedraw),
            WindowEvent::RedrawRequested => (
                state,
                config,
                LoopAction::Present(clear_pass_of(config, spec_background())),
            ),
            WindowEvent::Other => (state, config, LoopAction::Nothing),
        },
    }
}

/// The loop fed a sequence of events one at a time: final state, final
/// configuration, and the action of each event in order.
pub open spec fn run(state: LoopState, config: SurfaceConfig, events: Seq<WindowEvent>) -> (
    LoopState,
    SurfaceConfig,
    Seq<LoopAction>,
)
    decreases events.len(),
{
    if events.len() == 0 {
        (state, config, Seq::empty())
    } else {
        let prev = run(state, config, events.drop_last());
        let next = step(prev.0, prev.1, events.last());
        (next.0, next.1, prev.2.push(next.2))
    }
}

proof fn lemma_run_len(state: LoopState, config: SurfaceConfig, events: Seq<WindowEvent>)
    ensures
        run(state, config, events).2.len() == events.len(),
    decreases events.len(),
{
    if events.len() > 0 {
        lemma_run_len(state, config, events.drop_last());
    }
}

/// A processed close request is terminal: whatever events are queued after
/// it, the loop stays terminating, the surface configuration is untouched,
/// and none of them renders, reconfigures or does anything else.
pub proof fn lemma_close_is_terminal(
    state: LoopState,
    config: SurfaceConfig,
    before: Seq<WindowEvent>,
    after: Seq<WindowEvent>,
)
    requires
        before.len() > 0,
        before.last() == WindowEvent::CloseRequested,
    ensures
        run(state, config, before + after).0 == LoopState::Terminating,
        run(state, config, before + after).1 == run(state, config, before).1,
        run(state, config, before + after).2.len() == before.len() + after.len(),
        run(state, config, before + after).2.subrange(0, before.len() as int) == run(
            state,
            config,
            before,
        ).2,
        forall|i: int|
            before.len() <= i < before.len() + after.len() ==> #[trigger] run(
                state,
                config,
                before + after,
            ).2[i] == LoopAction::Nothing,
    decreases after.len(),
{
    lemma_run_len(state, config, before);
    lemma_run_len(state, config, before + after);
    if after.len() == 0 {
        assert(before + after =~= before);
    } else {
        let shorter = after.drop_last();
        assert((before + after).drop_last() =~= before + shorter);
        assert((before + after).last() == after.last());
        lemma_close_is_terminal(state, config, before, shorter);
        lemma_run_len(state, config, before + shorter);
        let prev = run(state, config, before + shorter);
        let all = run(state, config, before + after);
        assert(all.2 == prev.2.push(LoopAction::Nothing));
        assert(all.2.subrange(0, before.len() as int) =~= prev.2.subrange(0, before.len() as int));
    }
}

/// `n` idle cycles: each an about-to-wait tick followed by the redraw it asks for.
pub open spec fn idle_cycles(n: nat) -> Seq<WindowEvent>
    decreases n,
{
    if n == 0 {
        Seq::empty()
    } else {
        idle_cycles((n - 1) as nat) + seq![WindowEvent::AboutToWait, WindowEvent::RedrawRequested]
    }
}

/// Idle cycles without a resize keep the loop running on the same
/// configuration, and every cycle asks for a redraw and presents the same
/// single clear of the whole surface.
pub proof fn lemma_idle_cycles(config: SurfaceConfig, n: nat)
    ensures
        run(LoopState::Running, config, idle_cycles(n)).0 == LoopState::Running,
        run(LoopState::Running, config, idle_cycles(n)).1 == config,
        run(LoopState::Running, config, idle_cycles(n)).2.len() == 2 * n,
        forall|k: int|
            0 <= k < n ==> #[trigger] run(LoopState::Running, config, idle_cycles(n)).2[2 * k]
                == LoopAction::RequestRedraw && run(LoopState::Running, config, idle_cycles(n)).2[2
                * k + 1] == LoopAction::Present(clear_pass_of(config, spec_background())),
    decreases n,
{
    if n > 0 {
        let m = (n - 1) as nat;
        lemma_idle_cycles(config, m);
        let evs = idle_cycles(n);
        let first = idle_cycles(m) + seq![WindowEvent::AboutToWait];
        assert(evs.drop_last() =~= first);
        assert(first.drop_last() =~= idle_cycles(m));
        assert(evs.last() == WindowEvent::RedrawRequested);
        assert(first.last() == WindowEvent::AboutToWait);
        let prev = run(LoopState::Running, config, idle_cycles(m));
        let mid = run(LoopState::Running, config, first);
        let all = run(LoopState::Running, config, evs);
        assert(mid == (LoopState::Running, config, prev.2.push(LoopAction::RequestRedraw)));
        assert(all == (
            LoopState::Running,
            config,
            mid.2.push(LoopAction::Present(clear_pass_of(config, spec_background()))),
        ));
        assert forall|k: int| 0 <= k < n implies #[trigger] all.2[2 * k] == LoopAction::RequestRedraw
            && all.2[2 * k + 1] == LoopAction::Present(clear_pass_of(config, spec_background())) by {
            if k < m {
                assert(prev.2[2 * k] == LoopAction::RequestRedraw);
                assert(all.2[2 * k] == prev.2[2 * k]);
                assert(all.2[2 * k + 1] == prev.2[2 * k + 1]);
            }
        }
    }
}

/// Drives a graphics context from window events. It borrows the context for
/// each event and holds nothing but whether it is still running.
pub struct RenderLoop {
    state: LoopState,
}

impl View for RenderLoop {
    type V = LoopState;

    closed spec fn view(&self) -> LoopState {
        self.state
    }
}

impl RenderLoop {
    pub fn new() -> (r: RenderLoop)
        ensures
            r@ == LoopState::Running,
    {
        RenderLoop { state: LoopState::Running }
    }

    pub fn state(&self) -> (s: LoopState)
        ensures
            s == self@,
    {
        self.state
    }

    pub fn is_running(&self) -> (b: bool)
        ensures
            b == (self@ == LoopState::Running),
    {
        match self.state {
            LoopState::Running => true,
            LoopState::Terminating => false,
        }
    }

    /// Handles one event: a close request ends the loop, a resize
    /// reconfigures the surface, an idle tick asks for a redraw, a redraw
    /// renders one frame cleared to the background color; once terminating,
    /// every event is ignored.
    pub fn handle_event(&mut self, ctx: &mut GraphicsContext, event: WindowEvent) -> (a: LoopAction)
        requires
            old(ctx).wf(),
        ensures
            final(ctx).wf(),
            (final(self)@, final(ctx)@, a) == step(old(self)@, old(ctx)@, event),
    {
        if let LoopState::Terminating = self.state {
            return LoopAction::Nothing;
        }
        match event {
            WindowEvent::CloseRequested => {
                self.state = LoopState::Terminating;
                LoopAction::Exit
            },
            WindowEvent::Resized { width, height } => match ctx.reconfigure(width, height) {
                Some(c) => LoopAction::Configure(c),
                None => LoopAction::Nothing,
            },
            WindowEvent::AboutToWait => LoopAction::RequestRedraw,
            WindowEvent::RedrawRequested => LoopAction::Present(
                ctx.render_clear_frame(background_color()),
            ),
            WindowEvent::Other => LoopAction::Nothing,
        }
    }

    /// Handles a failed frame acquisition: either the surface is to be
    /// reconfigured and the frame retried, or the loop ends.
    pub fn handle_acquire_error(&mut self, ctx: &GraphicsContext, err: AcquireError, retries_done: u32) -> (r: Recovery)
        requires
            ctx.wf(),
        ensures
            r == (if old(self)@ == LoopState::Running && (err == AcquireError::SurfaceLost
                || err == AcquireError::SurfaceOutdated) && retries_done < crate::context::MAX_ACQUIRE_RETRIES {
                Recovery::ReconfigureAndRetry(ctx@)
            } else {
                Recovery::Terminate
            }),
            final(self)@ == (if r is Terminate {
                LoopState::Terminating
            } else {
                LoopState::Running
            }),
    {
        if let LoopState::Terminating = self.state {
            return Recovery::Terminate;
        }
        let r = ctx.recovery_for(err, retries_done);
        if let Recovery::Terminate = r {
            self.state = LoopState::Terminating;
        }
        r
    }
}

} // verus!
