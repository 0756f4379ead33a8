//! The commands that draw one frame into one acquired image.
use vstd::prelude::*;
use crate::targets::{full_rect, FrameTargets, Rect};

verus! {

/// A colour with eight bits per component.
#[derive(Clone, Copy, Debug, PartialEq, Eq, Structural)]
pub struct ClearColor {
    pub red: u8,
    pub green: u8,
    pub blue: u8,
    pub alpha: u8,
}

/// One command of a frame.
#[derive(Clone, Copy, Debug, PartialEq, Eq, Structural)]
pub enum Command {
    /// Empties the command buffer.
    Reset,
    /// Begins recording.
    Begin,
    /// Begins the render pass on a framebuffer, clearing it first.
    BeginRenderPass { render_pass: u64, framebuffer: u64, area: Rect, clear: ClearColor },
    /// Binds the graphics pipeline.
    BindPipeline { pipeline: u64 },
    /// Draws without vertex or index buffers.
    Draw { vertex_count: u32, instance_count: u32, first_vertex: u32, first_instance: u32 },
    /// Ends the render pass.
    EndRenderPass,
    /// Ends recording.
    End,
}

/// The commands of a frame with the command buffer they are recorded into.
pub struct Recording {
    pub command_buffer: u64,
    pub commands: Vec<Command>,
}

/// Opaque black, the colour every frame is cleared to.
pub open spec fn clear_color() -> ClearColor {
    ClearColor { red: 0, green: 0, blue: 0, alpha: 255 }
}

/// The one draw of a frame: a single triangle, whose three vertices the
/// vertex shader makes up from their index.
pub open spec fn triangle_draw() -> Command {
    Command::Draw { vertex_count: 3, instance_count: 1, first_vertex: 0, first_instance: 0 }
}

/// The commands of a frame drawn into `framebuffer`.
pub open spec fn frame_commands(
    render_pass: u64,
    pipeline: u64,
    area: Rect,
    framebuffer: u64,
) -> Seq<Command> {
    seq![
        Command::Reset,
        Command::Begin,
        Command::BeginRenderPass { render_pass, framebuffer, area, clear: clear_color() },
        Command::BindPipeline { pipeline },
        triangle_draw(),
        Command::EndRenderPass,
        Command::End,
    ]
}

/// The commands of a frame drawn into the image with the given index, where
/// the targets have a framebuffer for it.
pub open spec fn recorded(targets: FrameTargets, image_index: u32) -> Option<Seq<Command>> {
    if image_index < targets.framebuffers().len() {
        Some(
            frame_commands(
                targets.render_pass(),
                targets.pipeline(),
                full_rect(targets.extent()),
                targets.framebuffers()[image_index as int].handle,
            ),
        )
    } else {
        None
    }
}

/// Lists the commands that draw one frame into the image with the given
/// index: reset, begin, begin the render pass on the framebuffer of that
/// image with the clear colour, bind the pipeline, draw three vertices once,
/// end the render pass, end.
///
/// There is nothing to record for an index that no framebuffer answers to.
pub fn record(command_buffer: u64, image_index: u32, targets: &FrameTargets) -> (recording: Option<
    Recording,
>)
    ensures
        recording is Some <==> recorded(*targets, image_index) is Some,
        recording is Some ==> recording->0.command_buffer == command_buffer
            && recording->0.commands@ == recorded(*targets, image_index)->0,
{
    let framebuffer = match targets.framebuffer_for(image_index) {
        Some(framebuffer) => framebuffer,
        None => {
            return None;
        },
    };
    let area = Rect { x: 0, y: 0, extent: targets.render_extent() };
    let mut commands: Vec<Command> = Vec::new();
    commands.push(Command::Reset);
    commands.push(Command::Begin);
    commands.push(
        Command::BeginRenderPass {
            render_pass: targets.render_pass_handle(),
            framebuffer: framebuffer.handle,
            area,
            clear: ClearColor { red: 0, green: 0, blue: 0, alpha: 255 },
        },
    );
    commands.push(Command::BindPipeline { pipeline: targets.pipeline_handle() });
    commands.push(
        Command::Draw { vertex_count: 3, instance_count: 1, first_vertex: 0, first_instance: 0 },
    );
    commands.push(Command::EndRenderPass);
    commands.push(Command::End);
    assert(commands@ =~= recorded(*targets, image_index)->0);
    Some(Recording { command_buffer, commands })
}

/// Recording again for another image changes the framebuffer of the render
/// pass and nothing else.
pub proof fn lemma_recording_differs_in_framebuffer(
    targets: FrameTargets,
    first_index: u32,
    second_index: u32,
)
    requires
        recorded(targets, first_index) is Some,
        recorded(targets, second_index) is Some,
    ensures
        ({
            let first = recorded(targets, first_index)->0;
            let second = recorded(targets, second_index)->0;
            &&& first.len() == 7
            &&& second.len() == 7
            &&& forall|i: int| 0 <= i < 7 && i != 2 ==> first[i] == second[i]
            &&& first[2] == (Command::BeginRenderPass {
                render_pass: targets.render_pass(),
                framebuffer: targets.framebuffers()[first_index as int].handle,
                area: full_rect(targets.extent()),
                clear: clear_color(),
            })
            &&& second[2] == (Command::BeginRenderPass {
                render_pass: targets.render_pass(),
                framebuffer: targets.framebuffers()[second_index as int].handle,
                area: full_rect(targets.extent()),
                clear: clear_color(),
            })
        }),
{
}

} // verus!
