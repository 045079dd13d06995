//! A safety layer over a fixed-function 3D graphics pipeline.
//!
//! The library decides which primitive operations the hardware is asked to
//! perform and in which order; a driver takes them from the [`Instance`] and
//! carries them out.

pub mod attrib;
pub mod buffer;
pub mod command;
pub mod error;
pub mod math;
pub mod render;
pub mod shader;
pub mod uniform;

pub use command::Command;
pub use error::Error;
pub use math::Matrix;

use vstd::prelude::*;

verus! {

/// The size of the command buffer of an [`Instance`] that is made with
/// [`Instance::new`].
pub const DEFAULT_CMDBUF_SIZE: usize = 0x40000;

/// What an [`Instance`] holds, as contracts see it.
pub struct InstanceView {
    /// The size of the command buffer that the context was initialized with.
    pub cmdbuf_size: usize,
    /// The render target that the hardware last accepted.
    pub render_target: Option<render::Target>,
    /// The buffer descriptor that is bound.
    pub buffer_info: Option<buffer::Info>,
    /// The attribute descriptor that is bound.
    pub attr_info: Option<attrib::Info>,
    /// Whether a frame has been begun and not yet ended.
    pub frame_open: bool,
    /// The operations that were issued and that the driver has not taken yet,
    /// oldest first.
    pub commands: Seq<Command>,
}

impl InstanceView {
    /// The state of a context that was just initialized: nothing is selected
    /// or bound, no frame is open and nothing was issued.
    pub open spec fn initial(cmdbuf_size: usize) -> InstanceView {
        InstanceView {
            cmdbuf_size,
            render_target: None,
            buffer_info: None,
            attr_info: None,
            frame_open: false,
            commands: Seq::empty(),
        }
    }

    /// The same state with `command` issued after all others.
    pub open spec fn issue(self, command: Command) -> InstanceView {
        InstanceView { commands: self.commands.push(command), ..self }
    }

    /// The same state with `commands` issued after all others, in their order.
    pub open spec fn issue_all(self, commands: Seq<Command>) -> InstanceView {
        InstanceView { commands: self.commands + commands, ..self }
    }

    /// The state after `target` was selected.
    pub open spec fn select(self, target: render::Target) -> InstanceView {
        InstanceView { render_target: Some(target), ..self }
    }

    /// The state after `info` was bound as the buffer descriptor.
    pub open spec fn bind_buffer(self, info: buffer::Info) -> InstanceView {
        InstanceView { buffer_info: Some(info), ..self }.issue(Command::SetBufInfo { info })
    }

    /// The state after `info` was bound as the attribute descriptor.
    pub open spec fn bind_attr(self, info: attrib::Info) -> InstanceView {
        InstanceView { attr_info: Some(info), ..self }.issue(Command::SetAttrInfo { info })
    }

    /// The state after a frame was begun.
    pub open spec fn begin_frame(self) -> InstanceView {
        InstanceView { frame_open: true, ..self }.issue(
            Command::FrameBegin { flags: command::FRAME_SYNCDRAW },
        )
    }

    /// The state after the frame was ended.
    pub open spec fn end_frame(self) -> InstanceView {
        InstanceView { frame_open: false, ..self }.issue(Command::FrameEnd { flags: 0 })
    }

    /// The state after the driver took the issued operations.
    pub open spec fn taken(self) -> InstanceView {
        InstanceView { commands: Seq::empty(), ..self }
    }

    /// Beginning a frame issues one operation that begins a frame and none
    /// that ends one; ending it issues one that ends a frame, after all
    /// others, and none that begins one.
    pub proof fn lemma_frame_brackets(self)
        ensures
            frame_begins(self.begin_frame().commands) == frame_begins(self.commands) + 1,
            frame_ends(self.begin_frame().commands) == frame_ends(self.commands),
            self.begin_frame().frame_open,
            frame_ends(self.end_frame().commands) == frame_ends(self.commands) + 1,
            frame_begins(self.end_frame().commands) == frame_begins(self.commands),
            self.end_frame().commands.last() == (Command::FrameEnd { flags: 0 }),
            !self.end_frame().frame_open,
    {
        assert(self.begin_frame().commands.drop_last() =~= self.commands);
        assert(self.end_frame().commands.drop_last() =~= self.commands);
    }

    /// A descriptor that was bound is the one that is read back, whatever
    /// was bound before; for buffer and for attribute descriptors.
    pub proof fn lemma_bound_is_read_back(self, buffer: buffer::Info, attr: attrib::Info)
        ensures
            self.bind_buffer(buffer).buffer_info == Some(buffer),
            self.bind_attr(attr).attr_info == Some(attr),
            self.bind_buffer(buffer).attr_info == self.attr_info,
            self.bind_attr(attr).buffer_info == self.buffer_info,
    {
    }
}

/// How many of `commands` end a frame.
pub open spec fn frame_ends(commands: Seq<Command>) -> nat
    decreases commands.len(),
{
    if commands.len() == 0 {
        0
    } else {
        let rest = frame_ends(commands.drop_last());
        if commands.last() is FrameEnd {
            rest + 1
        } else {
            rest
        }
    }
}

/// How many of `commands` begin a frame.
pub open spec fn frame_begins(commands: Seq<Command>) -> nat
    decreases commands.len(),
{
    if commands.len() == 0 {
        0
    } else {
        let rest = frame_begins(commands.drop_last());
        if commands.last() is FrameBegin {
            rest + 1
        } else {
            rest
        }
    }
}

/// The account of whether an instance is alive. One value of it stands for
/// the hardware context of the process, and the driver keeps it for as long
/// as the process runs: every instance is made through it and ends through
/// it, so that no second instance is made while one is alive.
///
/// It can be neither copied nor cloned.
#[derive(Debug)]
pub struct Context {
    live: bool,
}

impl Context {
    pub closed spec fn spec_live(&self) -> bool {
        self.live
    }

    /// The account of a context on which no instance is alive.
    pub fn new() -> (context: Context)
        ensures
            !context.live(),
    {
        Context { live: false }
    }

    /// Whether an instance is alive.
    #[verifier::when_used_as_spec(spec_live)]
    pub fn live(&self) -> (live: bool)
        ensures
            live == self.live(),
    {
        self.live
    }
}

/// An instance of the hardware context. Every upload and every draw goes
/// through it.
///
/// It can be neither copied nor cloned.
#[must_use]
#[derive(Debug)]
pub struct Instance {
    cmdbuf_size: usize,
    render_target: Option<render::Target>,
    buffer_info: Option<buffer::Info>,
    attr_info: Option<attrib::Info>,
    frame_open: bool,
    commands: Vec<Command>,
}

impl View for Instance {
    type V = InstanceView;

    closed spec fn view(&self) -> InstanceView {
        InstanceView {
            cmdbuf_size: self.cmdbuf_size,
            render_target: self.render_target,
            buffer_info: self.buffer_info,
            attr_info: self.attr_info,
            frame_open: self.frame_open,
            commands: self.commands@,
        }
    }
}

impl Instance {
    /// Makes the instance of `context`, with a command buffer of the default
    /// size. `initialized` is what the hardware answered when it was asked to
    /// initialize the context with [`DEFAULT_CMDBUF_SIZE`].
    ///
    /// Fails while an instance of `context` is alive, whatever `initialized`
    /// says: ask [`Context::live`] before asking the hardware.
    pub fn new(context: &mut Context, initialized: bool) -> (result: Result<Instance, Error>)
        ensures
            result is Ok <==> !old(context).live() && initialized,
            result matches Ok(instance) ==> instance@ == InstanceView::initial(
                DEFAULT_CMDBUF_SIZE,
            ),
            result matches Err(error) ==> error == Error::FailedToInitialize,
            final(context).live() == (old(context).live() || initialized),
    {
        Instance::with_cmdbuf_size(context, DEFAULT_CMDBUF_SIZE, initialized)
    }

    /// Makes the instance of `context`, with a command buffer of `size`
    /// bytes. `initialized` is what the hardware answered when it was asked
    /// to initialize the context with that size.
    ///
    /// Fails while an instance of `context` is alive, whatever `initialized`
    /// says: ask [`Context::live`] before asking the hardware. Where it
    /// succeeds, the instance is alive until [`Instance::finalize`].
    pub fn with_cmdbuf_size(context: &mut Context, size: usize, initialized: bool) -> (result:
        Result<Instance, Error>)
        ensures
            result is Ok <==> !old(context).live() && initialized,
            result matches Ok(instance) ==> instance@ == InstanceView::initial(size),
            result matches Err(error) ==> error == Error::FailedToInitialize,
            final(context).live() == (old(context).live() || initialized),
    {
        if context.live || !initialized {
            Err(Error::FailedToInitialize)
        } else {
            context.live = true;
            Ok(
                Instance {
                    cmdbuf_size: size,
                    render_target: None,
                    buffer_info: None,
                    attr_info: None,
                    frame_open: false,
                    commands: Vec::new(),
                },
            )
        }
    }

    /// Selects `target` for the draws that follow. `accepted` is what the
    /// hardware answered when it was asked to draw on `target`. A refused
    /// target changes nothing.
    pub fn select_render_target(&mut self, target: &render::Target, accepted: bool) -> (result:
        Result<(), Error>)
        ensures
            accepted ==> result == Ok::<(), Error>(()) && final(self)@ == old(self)@.select(*target),
            !accepted ==> result == Err::<(), Error>(Error::InvalidRenderTarget) && final(self)@
                == old(self)@,
    {
        if accepted {
            self.render_target = Some(*target);
            Ok(())
        } else {
            Err(Error::InvalidRenderTarget)
        }
    }

    /// Renders a frame: begins it, lets `f` work on the instance, and ends it.
    ///
    /// The frame is begun once, before `f` runs, and ended once, after it:
    /// whatever `f` leaves behind, the end of the frame is issued last, and
    /// no frame is open afterwards.
    pub fn render_frame_with<F: FnOnce(&mut Instance)>(&mut self, f: F)
        requires
            !old(self)@.frame_open,
            forall|during: &mut Instance|
                (*during)@ == old(self)@.begin_frame() ==> call_requires(f, (during,)),
        ensures
            exists|during: &mut Instance|
                {
                    &&& (*during)@ == old(self)@.begin_frame()
                    &&& #[trigger] call_ensures(f, (during,), ())
                    &&& final(self)@ == (*final(during))@.end_frame()
                    &&& frame_ends(final(self)@.commands) == frame_ends(
                        (*final(during))@.commands,
                    ) + 1
                },
    {
        self.frame_open = true;
        self.issue(Command::FrameBegin { flags: command::FRAME_SYNCDRAW });
        f(self);
        proof {
            self@.lemma_frame_brackets();
        }
        self.frame_open = false;
        self.issue(Command::FrameEnd { flags: 0 });
    }

    /// Ends the frame that [`Instance::render_frame_with`] has begun, where
    /// its callback does not return: the end of the frame is issued after
    /// all else, and no frame is open afterwards. Without an open frame it
    /// does nothing.
    pub fn abandon_frame(&mut self)
        ensures
            old(self)@.frame_open ==> final(self)@ == old(self)@.end_frame(),
            !old(self)@.frame_open ==> final(self)@ == old(self)@,
    {
        if self.frame_open {
            self.frame_open = false;
            self.issue(Command::FrameEnd { flags: 0 });
        }
    }

    /// The buffer descriptor that is bound, if there is one.
    pub fn buffer_info(&self) -> (info: Option<buffer::Info>)
        ensures
            info == self@.buffer_info,
    {
        self.buffer_info
    }

    /// Binds `buffer_info` for the draws that follow.
    pub fn set_buffer_info(&mut self, buffer_info: &buffer::Info)
        ensures
            final(self)@ == old(self)@.bind_buffer(*buffer_info),
    {
        self.buffer_info = Some(*buffer_info);
        self.issue(Command::SetBufInfo { info: *buffer_info });
    }

    /// The attribute descriptor that is bound, if there is one.
    pub fn attr_info(&self) -> (info: Option<attrib::Info>)
        ensures
            info == self@.attr_info,
    {
        self.attr_info
    }

    /// Binds `attr_info` for the draws that follow.
    pub fn set_attr_info(&mut self, attr_info: &attrib::Info)
        ensures
            final(self)@ == old(self)@.bind_attr(*attr_info),
    {
        self.attr_info = Some(*attr_info);
        self.issue(Command::SetAttrInfo { info: *attr_info });
    }

    /// Draws the vertices of `index` as `primitive`: binds the descriptor of
    /// their buffer, then issues the draw. The attribute descriptor is left
    /// as it is.
    pub fn draw_arrays(&mut self, primitive: buffer::Primitive, index: buffer::Slice<'_>)
        ensures
            final(self)@ == old(self)@.bind_buffer(index.spec_info()).issue(
                Command::DrawArrays { primitive, first: index.index(), count: index.len() },
            ),
    {
        self.set_buffer_info(index.info());
        self.issue(Command::DrawArrays { primitive, first: index.index(), count: index.len() });
    }

    /// Writes `matrix` into four registers of the vertex stage, from the
    /// register `index` on. The position is handed on as it is: no bank is
    /// checked.
    pub fn update_vertex_uniform_mat4x4(&mut self, index: i8, matrix: &Matrix)
        ensures
            final(self)@ == old(self)@.issue(
                Command::MatrixUniform {
                    stage: shader::Type::Vertex,
                    index: index as i32,
                    matrix: *matrix,
                },
            ),
    {
        self.issue(
            Command::MatrixUniform {
                stage: shader::Type::Vertex,
                index: index as i32,
                matrix: *matrix,
            },
        );
    }

    /// The render target that the hardware last accepted, if there is one.
    pub fn render_target(&self) -> (target: Option<render::Target>)
        ensures
            target == self@.render_target,
    {
        self.render_target
    }

    /// The size of the command buffer that the context was initialized with.
    pub fn cmdbuf_size(&self) -> (size: usize)
        ensures
            size == self@.cmdbuf_size,
    {
        self.cmdbuf_size
    }

    /// Whether a frame has been begun and not yet ended.
    pub fn frame_open(&self) -> (open: bool)
        ensures
            open == self@.frame_open,
    {
        self.frame_open
    }

    /// Hands the issued operations to the driver, oldest first, and keeps
    /// none of them.
    pub fn take_commands(&mut self) -> (commands: Vec<Command>)
        ensures
            commands@ == old(self)@.commands,
            final(self)@ == old(self)@.taken(),
    {
        let mut commands: Vec<Command> = Vec::new();
        std::mem::swap(&mut self.commands, &mut commands);
        commands
    }

    /// Ends the life of the instance of `context`. The result is what the
    /// driver has still to carry out: the operations that it has not taken,
    /// and after them the release of the context. Afterwards no instance of
    /// `context` is alive, and one can be made again.
    pub fn finalize(self, context: &mut Context) -> (commands: Vec<Command>)
        ensures
            commands@ == self@.commands.push(Command::Fini),
            !final(context).live(),
    {
        context.live = false;
        let mut commands = self.commands;
        commands.push(Command::Fini);
        commands
    }

    /// Issues one operation.
    pub(crate) fn issue(&mut self, command: Command)
        ensures
            final(self)@ == old(self)@.issue(command),
    {
        self.commands.push(command);
    }
}

} // verus!
