//! Indirect draw commands, staged as the parameter block that a multi-draw
//! call reads.
//!
//! A [`CommandBuffer`] is bound to one of the two command variants and to
//! the vertex array that its commands draw from. It keeps the commands as
//! one run of 32-bit words, each command's parameters in the order of the
//! native record and one command directly after the other, so the block
//! can be handed to the native call as it is.

use crate::vertex::{VertexArray, VertexArrayView};
use gl::types::GLuint;
use vstd::prelude::*;

verus! {

/// A variant of the indirect draw command.
pub trait DrawCommand: Copy {
    /// The command's parameters, in the order of the native record.
    spec fn params(self) -> Seq<GLuint>;

    /// The number of parameters of every command of this variant.
    spec fn width() -> nat;

    /// Every command of a variant has the variant's number of parameters,
    /// and at least one.
    proof fn lemma_width(self)
        ensures
            self.params().len() == Self::width(),
            Self::width() > 0,
    ;

    /// Appends the command's parameters to `block`.
    fn write_to(self, block: &mut Vec<GLuint>)
        ensures
            final(block)@ == old(block)@ + self.params(),
    ;
}

/// The parameters of one non-indexed draw.
#[derive(Clone, Copy, Debug, PartialEq, Eq, Structural)]
pub struct DrawArraysIndirectCommand {
    /// Number of vertices.
    pub count: u32,
    /// Number of instances.
    pub instance_count: u32,
    /// Index of the first vertex.
    pub base_vertex: u32,
    /// Index of the first instance.
    pub base_instance: u32,
}

/// The parameters of one indexed draw.
#[derive(Clone, Copy, Debug, PartialEq, Eq, Structural)]
pub struct DrawElementsIndirectCommand {
    /// Number of indices.
    pub count: u32,
    /// Number of instances.
    pub instance_count: u32,
    /// Position of the first index in the index buffer.
    pub first_index: u32,
    /// Value added to each index.
    pub base_vertex: u32,
    /// Index of the first instance.
    pub base_instance: u32,
}

impl Default for DrawArraysIndirectCommand {
    fn default() -> (command: Self)
        ensures
            command == (DrawArraysIndirectCommand {
                count: 0,
                instance_count: 0,
                base_vertex: 0,
                base_instance: 0,
            }),
    {
        DrawArraysIndirectCommand { count: 0, instance_count: 0, base_vertex: 0, base_instance: 0 }
    }
}

impl Default for DrawElementsIndirectCommand {
    fn default() -> (command: Self)
        ensures
            command == (DrawElementsIndirectCommand {
                count: 0,
                instance_count: 0,
                first_index: 0,
                base_vertex: 0,
                base_instance: 0,
            }),
    {
        DrawElementsIndirectCommand {
            count: 0,
            instance_count: 0,
            first_index: 0,
            base_vertex: 0,
            base_instance: 0,
        }
    }
}

impl DrawCommand for DrawArraysIndirectCommand {
    open spec fn params(self) -> Seq<GLuint> {
        seq![self.count, self.instance_count, self.base_vertex, self.base_instance]
    }

    open spec fn width() -> nat {
        4
    }

    proof fn lemma_width(self) {
    }

    fn write_to(self, block: &mut Vec<GLuint>) {
        block.push(self.count);
        block.push(self.instance_count);
        block.push(self.base_vertex);
        block.push(self.base_instance);
    }
}

impl DrawCommand for DrawElementsIndirectCommand {
    open spec fn params(self) -> Seq<GLuint> {
        seq![self.count, self.instance_count, self.first_index, self.base_vertex, self.base_instance]
    }

    open spec fn width() -> nat {
        5
    }

    proof fn lemma_width(self) {
    }

    fn write_to(self, block: &mut Vec<GLuint>) {
        block.push(self.count);
        block.push(self.instance_count);
        block.push(self.first_index);
        block.push(self.base_vertex);
        block.push(self.base_instance);
    }
}

/// The parameter block of a sequence of commands: the parameters of the
/// first, then those of the second, and so on.
pub open spec fn block_of<C: DrawCommand>(commands: Seq<C>) -> Seq<GLuint>
    decreases commands.len(),
{
    if commands.len() == 0 {
        Seq::empty()
    } else {
        block_of(commands.drop_last()) + commands.last().params()
    }
}

/// The block of `n` commands has `n` times the variant's width in words,
/// and the words of the command at position `i` are its parameters: the
/// block is the commands' records laid end to end, in the order in which
/// they were given.
pub proof fn lemma_block_layout<C: DrawCommand>(commands: Seq<C>, i: int)
    requires
        0 <= i < commands.len(),
    ensures
        block_of(commands).len() == commands.len() * C::width(),
        0 <= i * C::width() <= (i + 1) * C::width() <= block_of(commands).len(),
        block_of(commands).subrange(i * C::width(), (i + 1) * C::width()) == commands[i].params(),
    decreases commands.len(),
{
    let width = C::width() as int;
    let front = commands.drop_last();
    lemma_block_len(commands);
    lemma_block_len(front);
    commands.last().lemma_width();
    assert(front.len() * width + width == commands.len() * width) by (nonlinear_arith)
        requires
            front.len() + 1 == commands.len(),
    ;
    if i < commands.len() - 1 {
        lemma_block_layout(front, i);
        assert((i + 1) * width <= front.len() * width) by (nonlinear_arith)
            requires
                i + 1 <= front.len(),
                width > 0,
        ;
        assert(block_of(commands).subrange(i * width, (i + 1) * width) == block_of(front).subrange(
            i * width,
            (i + 1) * width,
        ));
    }
}

/// The block of `n` commands has `n` times the variant's width in words.
pub proof fn lemma_block_len<C: DrawCommand>(commands: Seq<C>)
    ensures
        block_of(commands).len() == commands.len() * C::width(),
    decreases commands.len(),
{
    if commands.len() > 0 {
        let front = commands.drop_last();
        lemma_block_len(front);
        commands.last().lemma_width();
        assert(front.len() * C::width() + C::width() == commands.len() * C::width()) by (nonlinear_arith)
            requires
                front.len() + 1 == commands.len(),
        ;
    }
}

/// What is asked of a batch of draw commands at submission.
pub trait CommandBufferAbstract<B, C> {
    /// The vertex array that the commands draw from.
    fn vao(&self) -> &VertexArray<B>;

    /// The native name of a GPU-resident copy of the commands; 0 where
    /// there is none and the commands are read from host memory.
    fn handle(&self) -> GLuint;

    /// The number of commands.
    fn len(&self) -> usize;

    /// The parameter block: the commands' records, one after the other.
    fn indirect(&self) -> &[GLuint];
}

/// A growing batch of draw commands of the variant `C`, for the vertex
/// array that it was made for.
pub struct CommandBuffer<'a, B, C: DrawCommand> {
    vao: &'a VertexArray<B>,
    block: Vec<GLuint>,
    count: usize,
    commands: Ghost<Seq<C>>,
}

impl<'a, B, C: DrawCommand> View for CommandBuffer<'a, B, C> {
    type V = Seq<C>;

    /// The commands, in the order in which they were pushed.
    closed spec fn view(&self) -> Seq<C> {
        self.commands@
    }
}

impl<'a, B, C: DrawCommand> CommandBuffer<'a, B, C> {
    /// The invariant: the stored block is that of the commands.
    pub closed spec fn wf(&self) -> bool {
        &&& self.block@ == block_of(self.commands@)
        &&& self.count == self.commands@.len()
    }

    /// The vertex array that the buffer was made for.
    pub closed spec fn array(&self) -> VertexArray<B> {
        *self.vao
    }

    /// An empty batch for `vao`.
    pub fn new(vao: &'a VertexArray<B>) -> (buffer: Self)
        ensures
            buffer.wf(),
            buffer@ == Seq::<C>::empty(),
            buffer.array() == *vao,
    {
        CommandBuffer { vao, block: Vec::new(), count: 0, commands: Ghost(Seq::empty()) }
    }

    /// Appends `command` to the batch.
    pub fn push_command(&mut self, command: C)
        requires
            old(self).wf(),
        ensures
            final(self).wf(),
            final(self)@ == old(self)@.push(command),
            final(self).array() == old(self).array(),
    {
        command.write_to(&mut self.block);
        proof {
            let before = old(self).commands@;
            assert(before.push(command).drop_last() == before);
            lemma_block_len(before.push(command));
            command.lemma_width();
            assert(before.len() + 1 <= (before.len() + 1) * C::width()) by (nonlinear_arith)
                requires
                    C::width() > 0,
            ;
            assert(self.block@.len() == self.block.len());
        }
        self.count = self.count + 1;
        self.commands = Ghost(self.commands@.push(command));
    }
}

impl<'a, B> CommandBuffer<'a, B, DrawElementsIndirectCommand> {
    /// Appends one indexed draw.
    pub fn push(
        &mut self,
        count: u32,
        instance_count: u32,
        first_index: u32,
        base_vertex: u32,
        base_instance: u32,
    )
        requires
            old(self).wf(),
        ensures
            final(self).wf(),
            final(self)@ == old(self)@.push(
                DrawElementsIndirectCommand { count, instance_count, first_index, base_vertex, base_instance },
            ),
            final(self).array() == old(self).array(),
    {
        self.push_command(
            DrawElementsIndirectCommand { count, instance_count, first_index, base_vertex, base_instance },
        )
    }
}

impl<'a, B> CommandBuffer<'a, B, DrawArraysIndirectCommand> {
    /// Appends one non-indexed draw.
    pub fn push(&mut self, count: u32, instance_count: u32, base_vertex: u32, base_instance: u32)
        requires
            old(self).wf(),
        ensures
            final(self).wf(),
            final(self)@ == old(self)@.push(
                DrawArraysIndirectCommand { count, instance_count, base_vertex, base_instance },
            ),
            final(self).array() == old(self).array(),
    {
        self.push_command(DrawArraysIndirectCommand { count, instance_count, base_vertex, base_instance })
    }
}

/// A batch made for an array reads the array as it is: where a buffer was
/// attached to a slot and then another, the batch's array holds the second
/// in that slot.
pub proof fn lemma_batch_reads_latest_buffer<'a, B, C: DrawCommand>(
    batch: CommandBuffer<'a, B, C>,
    before: VertexArrayView<B>,
    slot: int,
    first: B,
    second: B,
)
    requires
        0 <= slot < before.vertex_buffers.len(),
        batch.array()@ == before.with_vertex_buffer(slot, first).with_vertex_buffer(slot, second),
    ensures
        batch.array()@.vertex_buffers[slot] == Some(second),
        batch.array()@ == before.with_vertex_buffer(slot, second),
{
    crate::vertex::lemma_reattach_replaces(before, slot, first, second);
}

impl<'a, B, C: DrawCommand> CommandBufferAbstract<B, C> for CommandBuffer<'a, B, C> {
    fn vao(&self) -> (vao: &VertexArray<B>)
        ensures
            *vao == self.array(),
    {
        self.vao
    }

    fn handle(&self) -> (handle: GLuint)
        ensures
            handle == 0,
    {
        0
    }

    fn len(&self) -> (count: usize)
        ensures
            self.wf() ==> count == self@.len(),
    {
        self.count
    }

    fn indirect(&self) -> (block: &[GLuint])
        ensures
            self.wf() ==> block@ == block_of(self@),
    {
        self.block.as_slice()
    }
}

} // verus!
