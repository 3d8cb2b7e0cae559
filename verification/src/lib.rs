//! Verified core of a hot-reloading GPU rendering host.
//!
//! The crate holds the decisions of the renderer as plain values: the byte
//! layout of transferred images, the registry that maps watched shader files
//! to pipeline slots, the descriptions of every GPU resource the renderer
//! creates, and the per-frame command plan.  A thin host performs the GPU and
//! window-system work that these values describe, and reports back what
//! happened as events.

pub mod context;
pub mod gpu;
pub mod state;
pub mod utils;
pub mod watcher;

use vstd::prelude::*;
use crate::gpu::{
    RenderPass, ShaderModuleId, SurfaceConfiguration, SurfaceError, TextureDescriptor,
};
use crate::state::{MultisampleFramebuffers, State};

verus! {

/// Keys that the renderer reacts to.
#[derive(Debug, Clone, Copy, PartialEq, Eq, Structural)]
pub enum VirtualKeyCode {
    Escape,
    Other,
}

/// Whether a key went down or up.
#[derive(Debug, Clone, Copy, PartialEq, Eq, Structural)]
pub enum ElementState {
    Pressed,
    Released,
}

/// What the host reports to the renderer.
#[derive(Debug)]
pub enum Event {
    /// All pending window events were handled.
    MainEventsCleared,
    /// The user asked to close the window.
    CloseRequested,
    /// A key changed state.
    KeyboardInput { virtual_keycode: Option<VirtualKeyCode>, state: ElementState },
    /// The output took a new size, by a resize or a change of scale factor.
    Resized { width: u32, height: u32 },
    /// A redraw is due, and the host tried to acquire the next surface
    /// image with the given outcome.
    RedrawRequested { acquired: Result<(), SurfaceError> },
    /// The shader file at `path` was compiled anew into `shader`.
    UserEvent { path: String, shader: ShaderModuleId },
}

/// What the renderer asks of the host.
#[derive(Debug, Clone, Copy, PartialEq, Eq, Structural)]
pub enum Action {
    /// Bring the global uniform up to date and write it to its buffer.
    UpdateUniform,
    /// Ask the window for another redraw.
    RequestRedraw,
    /// Leave the event loop.
    Exit,
    /// Configure the surface.
    ConfigureSurface(SurfaceConfiguration),
    /// Replace the multisampled attachments of the present pass.
    CreateMultisampleFramebuffers(MultisampleFramebuffers),
    /// Replace the capture texture.
    CreateRgbTexture(TextureDescriptor),
    /// Report that no surface image could be acquired.
    Report(SurfaceError),
    /// Encode the passes of the reaction's frame.
    Encode,
    /// Submit the encoded commands to the queue.
    Submit,
    /// Present the acquired surface image.
    Present,
    /// Rebuild the GPU state of the pipeline in `slot` from `shader`.
    RebuildPipeline { slot: usize, shader: ShaderModuleId },
}

/// The renderer's answer to one event: the frame to draw, if any, and the
/// actions for the host to perform in order.
#[derive(Debug)]
pub struct Reaction {
    /// The passes of the frame, in order; empty where nothing is drawn.
    pub frame: Vec<RenderPass>,
    pub actions: Vec<Action>,
}

/// The actions that bring the GPU resources in line with a renderer whose
/// output took a new size.
pub open spec fn resize_actions(state: State) -> Seq<Action> {
    seq![
        Action::ConfigureSurface(state.surface_config),
        Action::CreateMultisampleFramebuffers(state.multisampled_framebuffers),
        Action::CreateRgbTexture(state.rgb_texture),
    ]
}

/// One rebuild per slot, in the order of `slots`.
pub open spec fn rebuild_actions(slots: Seq<usize>, shader: ShaderModuleId) -> Seq<Action> {
    Seq::new(slots.len(), |k: int| Action::RebuildPipeline { slot: slots[k], shader })
}

/// An event that asks the renderer to stop: a request to close the window,
/// or the escape key going down.
pub open spec fn asks_to_exit(event: Event) -> bool {
    ||| event is CloseRequested
    ||| event matches Event::KeyboardInput { virtual_keycode, state } && virtual_keycode == Some(
        VirtualKeyCode::Escape,
    ) && state == ElementState::Pressed
}

/// The renderer after `event` and the actions it asks for, as a relation
/// between the state before, the state after, and the reaction.
pub open spec fn reacts(before: State, event: Event, after: State, reaction: Reaction) -> bool {
    match event {
        Event::MainEventsCleared => {
            &&& after == before
            &&& reaction.frame.len() == 0
            &&& reaction.actions@ == seq![Action::UpdateUniform, Action::RequestRedraw]
        },
        Event::CloseRequested => {
            &&& after == before
            &&& reaction.frame.len() == 0
            &&& reaction.actions@ == seq![Action::Exit]
        },
        Event::KeyboardInput { .. } => {
            &&& after == before
            &&& reaction.frame.len() == 0
            &&& reaction.actions@ == if asks_to_exit(event) {
                seq![Action::Exit]
            } else {
                Seq::<Action>::empty()
            }
        },
        Event::Resized { width, height } => {
            if width != 0 && height != 0 {
                &&& after == before.resized(width, height)
                &&& reaction.frame.len() == 0
                &&& reaction.actions@ == resize_actions(after)
            } else {
                &&& after == before
                &&& reaction.frame.len() == 0
                &&& reaction.actions@ == Seq::<Action>::empty()
            }
        },
        Event::RedrawRequested { acquired } => match acquired {
            Ok(_) => {
                &&& after == before
                &&& reaction.frame.len() == 2
                &&& reaction.frame[0]@ == before.draw_pass()
                &&& reaction.frame[1]@ == before.present_pass()
                &&& reaction.actions@ == seq![Action::Encode, Action::Submit, Action::Present]
            },
            Err(SurfaceError::Lost) => {
                &&& after == before.resized(before.width, before.height)
                &&& reaction.frame.len() == 0
                &&& reaction.actions@ == resize_actions(after).push(Action::RequestRedraw)
            },
            Err(SurfaceError::OutOfMemory) => {
                &&& after == before
                &&& reaction.frame.len() == 0
                &&& reaction.actions@ == seq![Action::Exit]
            },
            Err(error) => {
                &&& after == before
                &&& reaction.frame.len() == 0
                &&& reaction.actions@ == seq![Action::Report(error), Action::RequestRedraw]
            },
        },
        Event::UserEvent { path, shader } => {
            &&& State::shader_changed(before, after, path@, shader)
            &&& reaction.frame.len() == 0
            &&& reaction.actions@ == rebuild_actions(before.watcher.slots(path@), shader)
        },
    }
}

/// Decides what follows from one event.
///
/// - When the pending window events are handled, the uniform is brought up
///   to date and a redraw is requested.
/// - A request to close, or the escape key going down, ends the loop.
/// - A new output size with no zero side is applied; one with a zero side is
///   ignored.
/// - A redraw with an acquired image draws one frame: encode, submit,
///   present.  A lost surface is reconfigured at the current size and the
///   redraw is requested again, with no frame drawn.  Without memory for the
///   frame the loop ends.  Any other failure is reported and the redraw is
///   requested again.
/// - A recompiled shader rebuilds the pipelines registered under its path,
///   in registration order; a path that backs none is ignored.
pub fn handle_event(state: &mut State, event: Event) -> (reaction: Reaction)
    requires
        old(state).wf(),
    ensures
        final(state).wf(),
        reacts(*old(state), event, *final(state), reaction),
{
    let mut actions: Vec<Action> = Vec::new();
    let mut frame: Vec<RenderPass> = Vec::new();
    match event {
        Event::MainEventsCleared => {
            actions.push(Action::UpdateUniform);
            actions.push(Action::RequestRedraw);
            assert(actions@ =~= seq![Action::UpdateUniform, Action::RequestRedraw]);
        },
        Event::CloseRequested => {
            actions.push(Action::Exit);
        },
        Event::KeyboardInput { virtual_keycode, state: key_state } => {
            let escape = match virtual_keycode {
                Some(VirtualKeyCode::Escape) => true,
                _ => false,
            };
            if escape && key_state == ElementState::Pressed {
                actions.push(Action::Exit);
            }
        },
        Event::Resized { width, height } => {
            if width != 0 && height != 0 {
                state.resize(width, height);
                push_resize_actions(state, &mut actions);
            }
        },
        Event::RedrawRequested { acquired } => {
            match state.render(acquired) {
                Ok(passes) => {
                    frame = passes;
                    actions.push(Action::Encode);
                    actions.push(Action::Submit);
                    actions.push(Action::Present);
                    assert(actions@ =~= seq![Action::Encode, Action::Submit, Action::Present]);
                },
                Err(SurfaceError::Lost) => {
                    let width: u32 = state.width;
                    let height: u32 = state.height;
                    state.resize(width, height);
                    push_resize_actions(state, &mut actions);
                    actions.push(Action::RequestRedraw);
                },
                Err(SurfaceError::OutOfMemory) => {
                    actions.push(Action::Exit);
                },
                Err(error) => {
                    actions.push(Action::Report(error));
                    actions.push(Action::RequestRedraw);
                    assert(actions@ =~= seq![Action::Report(error), Action::RequestRedraw]);
                },
            }
        },
        Event::UserEvent { path, shader } => {
            let reloaded = state.register_shader_change(path, shader);
            let mut k: usize = 0;
            while k < reloaded.len()
                invariant
                    k <= reloaded.len(),
                    actions@ == rebuild_actions(reloaded@.take(k as int), shader),
                decreases reloaded.len() - k,
            {
                actions.push(Action::RebuildPipeline { slot: reloaded[k], shader });
                proof {
                    assert(reloaded@.take(k as int + 1) =~= reloaded@.take(k as int).push(
                        reloaded[k as int],
                    ));
                }
                k += 1;
            }
            assert(reloaded@.take(k as int) =~= reloaded@);
        },
    }
    Reaction { frame, actions }
}

/// Appends the actions that bring the GPU resources in line with `state`.
fn push_resize_actions(state: &State, actions: &mut Vec<Action>)
    ensures
        final(actions)@ == old(actions)@ + resize_actions(*state),
{
    actions.push(Action::ConfigureSurface(state.surface_config));
    actions.push(Action::CreateMultisampleFramebuffers(state.multisampled_framebuffers));
    actions.push(Action::CreateRgbTexture(state.rgb_texture));
}

} // verus!
