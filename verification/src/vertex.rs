//! Vertex formats and the vertex array object that registers them.

use crate::attribute::VertexAttribute;
use crate::native::{false_flag, gl_false, GlCall};
use gl::types::{GLenum, GLint, GLsizei, GLuint};
use vstd::prelude::*;

verus! {

/// How one field of a vertex record is presented to the GPU: where it lies
/// in the record, how many components it has, and the type of each.
#[derive(Clone, Copy, Debug, PartialEq, Eq, Structural)]
pub struct VertexAttributeFormat {
    /// Byte offset of the field within its record.
    pub offset: GLuint,
    /// Number of components.
    pub size: GLint,
    /// Tag of the component type.
    pub typ: GLenum,
}

/// A vertex record: a type that can list the formats of its fields, in the
/// order in which it declares them.
///
/// The list is a property of the type: `format` returns `layout()` on
/// every call, and a binding slot registered for the type is checked
/// against that list whenever a buffer is attached. An impl that is
/// verified states its `layout`. One written outside verified code leaves
/// `layout` as it stands here, a list of the type's own that no contract
/// pins down; what is proved of such a type rests on its `format`
/// returning one and the same list.
pub trait Vertex: Sized {
    /// The formats of the record's fields, in declaration order.
    open spec fn layout() -> Seq<VertexAttributeFormat> {
        arbitrary::<(Seq<VertexAttributeFormat>, Option<Self>)>().0
    }

    /// The formats of the record's fields, in declaration order.
    fn format() -> (format: Vec<VertexAttributeFormat>)
        ensures
            format@ == Self::layout(),
    ;
}

/// One field of a record as layout reflection reports it: its byte offset,
/// and what the registry holds for its type.
#[derive(Clone, Copy, Debug, PartialEq, Eq, Structural)]
pub struct FieldLayout {
    /// Byte offset of the field within its record.
    pub offset: usize,
    /// Number of components of the field's type.
    pub size: GLint,
    /// Tag of the component type of the field's type.
    pub typ: GLenum,
}

impl FieldLayout {
    /// The format that describes this field.
    pub open spec fn descriptor(self) -> VertexAttributeFormat {
        VertexAttributeFormat { offset: self.offset as GLuint, size: self.size, typ: self.typ }
    }

    /// A field of type `T` at byte `offset`.
    pub fn of<T: VertexAttribute>(offset: usize) -> (field: Self)
        ensures
            field.offset == offset,
            field.size == T::component_count(),
            field.typ == T::scalar_type(),
    {
        FieldLayout { offset, size: T::size(), typ: T::typ() }
    }
}

/// The vertex format of a record with the given fields: one entry per
/// field, in the order of the fields, each with its field's offset,
/// component count and component type.
pub fn vertex_format(fields: &Vec<FieldLayout>) -> (format: Vec<VertexAttributeFormat>)
    ensures
        format@.len() == fields@.len(),
        forall|i: int| 0 <= i < fields@.len() ==> #[trigger] format@[i] == fields@[i].descriptor(),
{
    let mut format: Vec<VertexAttributeFormat> = Vec::new();
    let mut i: usize = 0;
    while i < fields.len()
        invariant
            i <= fields@.len(),
            format@.len() == i,
            forall|k: int| 0 <= k < i ==> #[trigger] format@[k] == fields@[k].descriptor(),
        decreases fields@.len() - i,
    {
        let field = &fields[i];
        format.push(
            VertexAttributeFormat {
                offset: #[verifier::truncate]
                (field.offset as GLuint),
                size: field.size,
                typ: field.typ,
            },
        );
        i += 1;
    }
    format
}

/// Whether two formats are the same: equally long, with equal offset,
/// component count and component type at every position.
pub fn same_format(a: &Vec<VertexAttributeFormat>, b: &Vec<VertexAttributeFormat>) -> (same: bool)
    ensures
        same == (a@ == b@),
{
    if a.len() != b.len() {
        return false;
    }
    let mut i: usize = 0;
    while i < a.len()
        invariant
            i <= a@.len(),
            a@.len() == b@.len(),
            forall|k: int| 0 <= k < i ==> a@[k] == b@[k],
        decreases a@.len() - i,
    {
        if a[i] != b[i] {
            return false;
        }
        i += 1;
    }
    assert(a@ =~= b@);
    true
}

/// Why a buffer may not be attached to a binding slot.
#[derive(Clone, Copy, Debug, PartialEq, Eq, Structural)]
pub enum VertexArrayError {
    /// No registration has produced the slot.
    SlotOutOfRange,
    /// The format of the buffer's records is not the one registered for
    /// the slot.
    FormatMismatch,
}

/// The number of attributes in a list of formats: the sum of their lengths.
pub open spec fn attribute_total(formats: Seq<Seq<VertexAttributeFormat>>) -> nat
    decreases formats.len(),
{
    if formats.len() == 0 {
        0
    } else {
        attribute_total(formats.drop_last()) + formats.last().len()
    }
}

/// The calls that configure one attribute: enable its location, set its
/// format, and tie it to its binding slot.
pub open spec fn attribute_calls(
    vaobj: GLuint,
    location: GLuint,
    slot: GLuint,
    attribute: VertexAttributeFormat,
) -> Seq<GlCall> {
    seq![
        GlCall::EnableVertexArrayAttrib { vaobj, index: location },
        GlCall::VertexArrayAttribFormat {
            vaobj,
            attribindex: location,
            size: attribute.size,
            typ: attribute.typ,
            normalized: gl_false(),
            relativeoffset: attribute.offset,
        },
        GlCall::VertexArrayAttribBinding { vaobj, attribindex: location, bindingindex: slot },
    ]
}

/// The calls that configure the attributes of `format` for `slot` when
/// `first` is the next free location: those of each attribute in turn,
/// the attribute at position `i` at location `first + i`.
pub open spec fn configuration_calls(
    vaobj: GLuint,
    first: nat,
    slot: GLuint,
    format: Seq<VertexAttributeFormat>,
) -> Seq<GlCall>
    decreases format.len(),
{
    if format.len() == 0 {
        Seq::empty()
    } else {
        configuration_calls(vaobj, first, slot, format.drop_last()) + attribute_calls(
            vaobj,
            (first + format.len() - 1) as GLuint,
            slot,
            format.last(),
        )
    }
}

/// The calls that register `format` for `slot`: those that configure its
/// attributes, then the one call that sets the slot's divisor. The
/// divisor is set once for the slot, also where the format is empty.
pub open spec fn registration_calls(
    vaobj: GLuint,
    first: nat,
    slot: GLuint,
    divisor: GLuint,
    format: Seq<VertexAttributeFormat>,
) -> Seq<GlCall> {
    configuration_calls(vaobj, first, slot, format).push(
        GlCall::VertexArrayBindingDivisor { vaobj, bindingindex: slot, divisor },
    )
}

/// What a vertex array object holds.
pub struct VertexArrayView<B> {
    /// The native handle.
    pub handle: GLuint,
    /// The format registered for each binding slot.
    pub formats: Seq<Seq<VertexAttributeFormat>>,
    /// The next free attribute location.
    pub next_attrib: nat,
    /// The buffer that supplies indices, if one is bound.
    pub element_buffer: Option<B>,
    /// The buffer attached to each binding slot, if any.
    pub vertex_buffers: Seq<Option<B>>,
}

impl<B> VertexArrayView<B> {
    /// A fresh object: no slot, no buffer, every location free.
    pub open spec fn created(handle: GLuint) -> Self {
        VertexArrayView {
            handle,
            formats: Seq::empty(),
            next_attrib: 0,
            element_buffer: None,
            vertex_buffers: Seq::empty(),
        }
    }

    /// Every slot has a format and a place for a buffer, the locations
    /// handed out so far are exactly those of the registered attributes,
    /// and the index of every slot fits the native parameter.
    pub open spec fn wf(self) -> bool {
        &&& self.vertex_buffers.len() == self.formats.len()
        &&& self.next_attrib == attribute_total(self.formats)
        &&& self.formats.len() <= u32::MAX + 1
    }

    /// The number of binding slots.
    pub open spec fn slot_count(self) -> nat {
        self.formats.len()
    }

    /// Whether `format` can still be registered: its slot index and the
    /// locations of its attributes have to fit the native parameters.
    pub open spec fn has_room_for(self, format: Seq<VertexAttributeFormat>) -> bool {
        &&& self.formats.len() <= u32::MAX
        &&& self.next_attrib + format.len() <= u32::MAX
    }

    /// The object after `format` was registered: a new, empty slot at the
    /// end, and the attributes' locations taken.
    pub open spec fn registered(self, format: Seq<VertexAttributeFormat>) -> Self {
        VertexArrayView {
            formats: self.formats.push(format),
            next_attrib: self.next_attrib + format.len(),
            vertex_buffers: self.vertex_buffers.push(None),
            ..self
        }
    }

    /// The calls that registering `format` with `divisor` asks for.
    pub open spec fn calls_to_register(
        self,
        format: Seq<VertexAttributeFormat>,
        divisor: GLuint,
    ) -> Seq<GlCall> {
        registration_calls(self.handle, self.next_attrib, self.formats.len() as GLuint, divisor, format)
    }

    /// The object after `buffer` became its index source.
    pub open spec fn with_element_buffer(self, buffer: B) -> Self {
        VertexArrayView { element_buffer: Some(buffer), ..self }
    }

    /// The object after `buffer` was attached to `slot`.
    pub open spec fn with_vertex_buffer(self, slot: int, buffer: B) -> Self {
        VertexArrayView { vertex_buffers: self.vertex_buffers.update(slot, Some(buffer)), ..self }
    }

    /// The call that attaches the buffer named `buffer` to `slot`, its
    /// records `stride` bytes apart and the first at the buffer's start.
    pub open spec fn call_to_attach(self, slot: int, stride: GLsizei, buffer: GLuint) -> GlCall {
        GlCall::VertexArrayVertexBuffer {
            vaobj: self.handle,
            bindingindex: slot as GLuint,
            buffer,
            offset: 0,
            stride,
        }
    }

    /// Whether attaching to `slot` a buffer with records of `format` is in
    /// order: the slot has to exist, and its registered format has to be
    /// `format`, entry by entry.
    pub open spec fn check_attach(self, slot: int, format: Seq<VertexAttributeFormat>) -> Result<
        (),
        VertexArrayError,
    > {
        if !(0 <= slot < self.formats.len()) {
            Err(VertexArrayError::SlotOutOfRange)
        } else if self.formats[slot] != format {
            Err(VertexArrayError::FormatMismatch)
        } else {
            Ok(())
        }
    }
}

/// A vertex array object: the formats registered for its binding slots,
/// the attribute locations it has handed out, and the buffers attached to
/// it. `B` is the shared reference by which a buffer is held; the object
/// keeps it for as long as the buffer is attached and never looks inside.
pub struct VertexArray<B> {
    handle: GLuint,
    formats: Vec<Vec<VertexAttributeFormat>>,
    next_attrib: GLuint,
    element_buffer: Option<B>,
    vertex_buffers: Vec<Option<B>>,
}

impl<B> View for VertexArray<B> {
    type V = VertexArrayView<B>;

    closed spec fn view(&self) -> VertexArrayView<B> {
        VertexArrayView {
            handle: self.handle,
            formats: self.formats@.map_values(|format: Vec<VertexAttributeFormat>| format@),
            next_attrib: self.next_attrib as nat,
            element_buffer: self.element_buffer,
            vertex_buffers: self.vertex_buffers@,
        }
    }
}

impl<B> VertexArray<B> {
    /// The invariant of the object: that of its contents.
    pub open spec fn wf(&self) -> bool {
        self@.wf()
    }

    /// Takes charge of a freshly created native object.
    pub fn new(handle: GLuint) -> (array: Self)
        ensures
            array.wf(),
            array@ == VertexArrayView::<B>::created(handle),
    {
        let array = VertexArray {
            handle,
            formats: Vec::new(),
            next_attrib: 0,
            element_buffer: None,
            vertex_buffers: Vec::new(),
        };
        assert(array@.formats =~= Seq::empty());
        array
    }

    /// Registers `format` for a new binding slot, the next after those
    /// that exist, with `divisor` as the slot's instance step rate.
    /// Returns the native calls in the order in which they are to be
    /// issued: three for each attribute, at the next free locations, and
    /// then the one that sets the slot's divisor.
    pub fn enable_format(&mut self, format: Vec<VertexAttributeFormat>, divisor: GLuint) -> (calls: Vec<GlCall>)
        requires
            old(self).wf(),
            old(self)@.has_room_for(format@),
        ensures
            final(self).wf(),
            final(self)@ == old(self)@.registered(format@),
            calls@ == old(self)@.calls_to_register(format@, divisor),
    {
        let vaobj = self.handle;
        let first = self.next_attrib;
        let slot: GLuint = self.formats.len() as GLuint;
        let mut calls: Vec<GlCall> = Vec::new();
        let mut i: usize = 0;
        while i < format.len()
            invariant
                i <= format@.len(),
                first + format@.len() <= u32::MAX,
                calls@ == configuration_calls(vaobj, first as nat, slot, format@.take(i as int)),
            decreases format@.len() - i,
        {
            let attribute = &format[i];
            let location: GLuint = first + i as GLuint;
            calls.push(GlCall::EnableVertexArrayAttrib { vaobj, index: location });
            calls.push(
                GlCall::VertexArrayAttribFormat {
                    vaobj,
                    attribindex: location,
                    size: attribute.size,
                    typ: attribute.typ,
                    normalized: false_flag(),
                    relativeoffset: attribute.offset,
                },
            );
            calls.push(GlCall::VertexArrayAttribBinding { vaobj, attribindex: location, bindingindex: slot });
            assert(format@.take(i as int + 1).drop_last() == format@.take(i as int));
            i += 1;
        }
        calls.push(GlCall::VertexArrayBindingDivisor { vaobj, bindingindex: slot, divisor });
        assert(format@.take(format@.len() as int) == format@);
        self.next_attrib = first + format.len() as GLuint;
        proof {
            let before = old(self)@.formats;
            assert(before.push(format@).drop_last() == before);
        }
        self.formats.push(format);
        self.vertex_buffers.push(None);
        assert(final(self)@.formats == old(self)@.formats.push(format@));
        calls
    }

    /// Registers the format of the record type `V`, as `enable_format`
    /// does, if the object has room for it. Where it has not, nothing is
    /// registered and the format is handed back.
    pub fn enable_vertices<V: Vertex>(&mut self, divisor: GLuint) -> (result: Result<
        Vec<GlCall>,
        Vec<VertexAttributeFormat>,
    >)
        requires
            old(self).wf(),
        ensures
            final(self).wf(),
            result.is_ok() == old(self)@.has_room_for(V::layout()),
            match result {
                Ok(calls) => {
                    &&& final(self)@ == old(self)@.registered(V::layout())
                    &&& calls@ == old(self)@.calls_to_register(V::layout(), divisor)
                },
                Err(format) => {
                    &&& format@ == V::layout()
                    &&& final(self)@ == old(self)@
                },
            },
    {
        let format = V::format();
        if self.formats.len() > u32::MAX as usize || format.len() > (u32::MAX - self.next_attrib) as usize {
            Err(format)
        } else {
            Ok(self.enable_format(format, divisor))
        }
    }

    /// Makes `buffer`, whose native name is `name`, the source of indices.
    /// A buffer bound before is let go. Returns the binding call.
    pub fn element_buffer(&mut self, buffer: B, name: GLuint) -> (call: GlCall)
        requires
            old(self).wf(),
        ensures
            final(self).wf(),
            final(self)@ == old(self)@.with_element_buffer(buffer),
            call == (GlCall::VertexArrayElementBuffer { vaobj: old(self)@.handle, buffer: name }),
    {
        self.element_buffer = Some(buffer);
        GlCall::VertexArrayElementBuffer { vaobj: self.handle, buffer: name }
    }

    /// Whether a buffer with records of `format` may be attached to the
    /// slot `binding`: `Ok` where the slot exists and is registered with
    /// exactly `format`, else the reason.
    pub fn check_attach(&self, binding: usize, format: &Vec<VertexAttributeFormat>) -> (result: Result<
        (),
        VertexArrayError,
    >)
        ensures
            result == self@.check_attach(binding as int, format@),
    {
        if binding >= self.formats.len() {
            Err(VertexArrayError::SlotOutOfRange)
        } else if !same_format(&self.formats[binding], format) {
            Err(VertexArrayError::FormatMismatch)
        } else {
            Ok(())
        }
    }

    /// Attaches `buffer`, whose native name is `name` and whose records
    /// have the format `format` and lie `stride` bytes apart, to the slot
    /// `binding`. The slot has to exist and to be registered with exactly
    /// `format`: `check_attach` tells. The buffer takes the place of the
    /// one attached before, and the binding call is returned.
    pub fn attach_vertex_buffer(
        &mut self,
        binding: usize,
        format: &Vec<VertexAttributeFormat>,
        stride: GLsizei,
        buffer: B,
        name: GLuint,
    ) -> (call: GlCall)
        requires
            old(self).wf(),
            binding < old(self)@.slot_count(),
            format@ == old(self)@.formats[binding as int],
        ensures
            final(self).wf(),
            final(self)@ == old(self)@.with_vertex_buffer(binding as int, buffer),
            call == old(self)@.call_to_attach(binding as int, stride, name),
    {
        self.vertex_buffers.set(binding, Some(buffer));
        GlCall::VertexArrayVertexBuffer {
            vaobj: self.handle,
            bindingindex: binding as GLuint,
            buffer: name,
            offset: 0,
            stride,
        }
    }

    /// Attaches a buffer of records of type `V` to the slot `binding`,
    /// with the size of `V` as the stride. The slot has to exist and to be
    /// registered with the format of `V`.
    pub fn vertex_buffer<V: Vertex>(&mut self, binding: usize, buffer: B, name: GLuint) -> (call: GlCall)
        requires
            old(self).wf(),
            binding < old(self)@.slot_count(),
            V::layout() == old(self)@.formats[binding as int],
        ensures
            final(self).wf(),
            final(self)@ == old(self)@.with_vertex_buffer(binding as int, buffer),
            call == old(self)@.call_to_attach(binding as int, vstd::layout::size_of::<V>() as GLsizei, name),
    {
        let format = V::format();
        let stride: GLsizei = #[verifier::truncate]
        (core::mem::size_of::<V>() as GLsizei);
        self.attach_vertex_buffer(binding, &format, stride, buffer, name)
    }

    /// The native handle.
    pub fn handle(&self) -> (handle: GLuint)
        ensures
            handle == self@.handle,
    {
        self.handle
    }

    /// Gives the object up. Returns the call that releases its native
    /// handle; the buffers it held are let go.
    pub fn destroy(self) -> (call: GlCall)
        ensures
            call == (GlCall::DeleteVertexArray { array: self@.handle }),
    {
        GlCall::DeleteVertexArray { array: self.handle }
    }

    /// The number of binding slots.
    pub fn slot_count(&self) -> (count: usize)
        ensures
            count == self@.slot_count(),
    {
        self.formats.len()
    }

    /// The next free attribute location: the number of attributes
    /// registered so far.
    pub fn next_attrib(&self) -> (location: GLuint)
        ensures
            location == self@.next_attrib,
    {
        self.next_attrib
    }

    /// The format registered for `slot`, if the slot exists.
    pub fn format_of(&self, slot: usize) -> (format: Option<&Vec<VertexAttributeFormat>>)
        ensures
            slot < self@.slot_count() ==> format.is_some() && format.unwrap()@ == self@.formats[slot as int],
            slot >= self@.slot_count() ==> format.is_none(),
    {
        if slot < self.formats.len() {
            Some(&self.formats[slot])
        } else {
            None
        }
    }

    /// The buffer attached to `slot`: `None` where the slot does not exist
    /// or holds no buffer.
    pub fn attached_buffer(&self, slot: usize) -> (buffer: Option<&B>)
        ensures
            match buffer {
                Some(held) => slot < self@.vertex_buffers.len() && self@.vertex_buffers[slot as int] == Some(
                    *held,
                ),
                None => slot >= self@.vertex_buffers.len() || self@.vertex_buffers[slot as int].is_none(),
            },
    {
        if slot < self.vertex_buffers.len() {
            self.vertex_buffers[slot].as_ref()
        } else {
            None
        }
    }

    /// The buffer that supplies indices, if one is bound.
    pub fn bound_element_buffer(&self) -> (buffer: Option<&B>)
        ensures
            match buffer {
                Some(held) => self@.element_buffer == Some(*held),
                None => self@.element_buffer.is_none(),
            },
    {
        self.element_buffer.as_ref()
    }
}

/// The object that results from registering each of `formats` in turn on a
/// fresh object.
pub open spec fn after_registrations<B>(
    handle: GLuint,
    formats: Seq<Seq<VertexAttributeFormat>>,
) -> VertexArrayView<B>
    decreases formats.len(),
{
    if formats.len() == 0 {
        VertexArrayView::created(handle)
    } else {
        after_registrations::<B>(handle, formats.drop_last()).registered(formats.last())
    }
}

/// After any number of registrations on a fresh object, the slots hold the
/// registered formats in the order of the calls, there are as many slots
/// as calls, none of them holds a buffer, and the next free location is
/// the sum of the formats' lengths.
pub proof fn lemma_registrations_add_up<B>(handle: GLuint, formats: Seq<Seq<VertexAttributeFormat>>)
    ensures
        after_registrations::<B>(handle, formats).handle == handle,
        after_registrations::<B>(handle, formats).formats == formats,
        after_registrations::<B>(handle, formats).slot_count() == formats.len(),
        after_registrations::<B>(handle, formats).vertex_buffers == Seq::new(
            formats.len(),
            |slot: int| None::<B>,
        ),
        after_registrations::<B>(handle, formats).element_buffer == None::<B>,
        after_registrations::<B>(handle, formats).next_attrib == attribute_total(formats),
    decreases formats.len(),
{
    if formats.len() > 0 {
        lemma_registrations_add_up::<B>(handle, formats.drop_last());
    }
}

/// One registration moves the next free location on by the length of the
/// format and adds one slot, whatever was registered or attached before.
pub proof fn lemma_registration_step<B>(before: VertexArrayView<B>, format: Seq<VertexAttributeFormat>)
    requires
        before.wf(),
        before.has_room_for(format),
    ensures
        before.registered(format).wf(),
        before.registered(format).next_attrib == before.next_attrib + format.len(),
        before.registered(format).slot_count() == before.slot_count() + 1,
        attribute_total(before.registered(format).formats) == attribute_total(before.formats) + format.len(),
{
    assert(before.formats.push(format).drop_last() == before.formats);
}

/// The attributes of a format are configured with three calls each.
pub proof fn lemma_configuration_calls_len(vaobj: GLuint, first: nat, slot: GLuint, format: Seq<VertexAttributeFormat>)
    ensures
        configuration_calls(vaobj, first, slot, format).len() == 3 * format.len(),
    decreases format.len(),
{
    if format.len() > 0 {
        lemma_configuration_calls_len(vaobj, first, slot, format.drop_last());
    }
}

/// The calls of a registration, position by position: three for each
/// attribute and one more. Those of the attribute at position `i` name
/// the location `first + i` and the slot, so the locations of one
/// registration are contiguous and start at the first free one.
pub proof fn lemma_registration_calls_at(
    vaobj: GLuint,
    first: nat,
    slot: GLuint,
    divisor: GLuint,
    format: Seq<VertexAttributeFormat>,
    i: int,
)
    requires
        0 <= i < format.len(),
    ensures
        registration_calls(vaobj, first, slot, divisor, format).len() == 3 * format.len() + 1,
        registration_calls(vaobj, first, slot, divisor, format).subrange(3 * i, 3 * i + 3) == attribute_calls(
            vaobj,
            (first + i) as GLuint,
            slot,
            format[i],
        ),
    decreases format.len(),
{
    let front = format.drop_last();
    lemma_configuration_calls_len(vaobj, first, slot, format);
    lemma_configuration_calls_len(vaobj, first, slot, front);
    let configured = configuration_calls(vaobj, first, slot, format);
    assert(registration_calls(vaobj, first, slot, divisor, format).subrange(3 * i, 3 * i + 3)
        == configured.subrange(3 * i, 3 * i + 3));
    if i < format.len() - 1 {
        lemma_registration_calls_at(vaobj, first, slot, divisor, front, i);
        let shorter = configuration_calls(vaobj, first, slot, front);
        assert(registration_calls(vaobj, first, slot, divisor, front).subrange(3 * i, 3 * i + 3)
            == shorter.subrange(3 * i, 3 * i + 3));
        assert(configured.subrange(3 * i, 3 * i + 3) == shorter.subrange(3 * i, 3 * i + 3));
    }
}

/// A registration sets the divisor once: its last call sets that of the
/// new slot, whether or not the format has attributes, and no call before
/// it sets the divisor of any slot.
pub proof fn lemma_registration_sets_divisor_once(
    vaobj: GLuint,
    first: nat,
    slot: GLuint,
    divisor: GLuint,
    format: Seq<VertexAttributeFormat>,
)
    ensures
        registration_calls(vaobj, first, slot, divisor, format).len() == 3 * format.len() + 1,
        registration_calls(vaobj, first, slot, divisor, format).last() == (GlCall::VertexArrayBindingDivisor {
            vaobj,
            bindingindex: slot,
            divisor,
        }),
        forall|j: int|
            0 <= j < 3 * format.len() ==> !(#[trigger] registration_calls(
                vaobj,
                first,
                slot,
                divisor,
                format,
            )[j] is VertexArrayBindingDivisor),
{
    lemma_configuration_calls_len(vaobj, first, slot, format);
    let calls = registration_calls(vaobj, first, slot, divisor, format);
    assert forall|j: int| 0 <= j < 3 * format.len() implies !(#[trigger] calls[j] is VertexArrayBindingDivisor) by {
        let i = j / 3;
        lemma_registration_calls_at(vaobj, first, slot, divisor, format, i);
        assert(calls[j] == calls.subrange(3 * i, 3 * i + 3)[j - 3 * i]);
    }
}

/// Registering the format of a record with the given fields configures
/// one attribute per field, in the order of the fields: the format call
/// of the field at position `i` is made for the location `first + i` and
/// carries that field's component count, component type and offset.
pub proof fn lemma_registration_follows_fields(
    vaobj: GLuint,
    first: nat,
    slot: GLuint,
    divisor: GLuint,
    fields: Seq<FieldLayout>,
    format: Seq<VertexAttributeFormat>,
    i: int,
)
    requires
        format.len() == fields.len(),
        forall|k: int| 0 <= k < fields.len() ==> #[trigger] format[k] == fields[k].descriptor(),
        0 <= i < fields.len(),
    ensures
        registration_calls(vaobj, first, slot, divisor, format).len() == 3 * fields.len() + 1,
        registration_calls(vaobj, first, slot, divisor, format)[3 * i] == (GlCall::EnableVertexArrayAttrib {
            vaobj,
            index: (first + i) as GLuint,
        }),
        registration_calls(vaobj, first, slot, divisor, format)[3 * i + 1] == (GlCall::VertexArrayAttribFormat {
            vaobj,
            attribindex: (first + i) as GLuint,
            size: fields[i].size,
            typ: fields[i].typ,
            normalized: gl_false(),
            relativeoffset: fields[i].offset as GLuint,
        }),
        registration_calls(vaobj, first, slot, divisor, format)[3 * i + 2] == (GlCall::VertexArrayAttribBinding {
            vaobj,
            attribindex: (first + i) as GLuint,
            bindingindex: slot,
        }),
{
    lemma_registration_calls_at(vaobj, first, slot, divisor, format, i);
    let calls = registration_calls(vaobj, first, slot, divisor, format);
    let group = calls.subrange(3 * i, 3 * i + 3);
    assert(calls[3 * i] == group[0]);
    assert(calls[3 * i + 1] == group[1]);
    assert(calls[3 * i + 2] == group[2]);
}

/// Attaching is in order exactly where the slot exists and the buffer's
/// format is the registered one; a format that differs from the registered
/// one in length, or at any position in offset, component count or
/// component type, is refused.
pub proof fn lemma_attach_checks_format<B>(
    array: VertexArrayView<B>,
    slot: int,
    format: Seq<VertexAttributeFormat>,
)
    ensures
        array.check_attach(slot, format).is_ok() <==> 0 <= slot < array.slot_count() && format
            == array.formats[slot],
        0 <= slot < array.slot_count() && format.len() != array.formats[slot].len()
            ==> array.check_attach(slot, format) == Err::<(), VertexArrayError>(
            VertexArrayError::FormatMismatch,
        ),
        forall|i: int|
            0 <= slot < array.slot_count() && 0 <= i < format.len() && i < array.formats[slot].len() && (
            format[i].offset != array.formats[slot][i].offset || format[i].size
                != array.formats[slot][i].size || format[i].typ != array.formats[slot][i].typ)
                ==> array.check_attach(slot, format) == Err::<(), VertexArrayError>(
                VertexArrayError::FormatMismatch,
            ),
{
}

/// A buffer attached to a slot takes the place of the one attached before:
/// the slot then holds the second buffer, as if the first had never been
/// attached, and no other slot, format or counter has changed.
pub proof fn lemma_reattach_replaces<B>(array: VertexArrayView<B>, slot: int, first: B, second: B)
    requires
        0 <= slot < array.vertex_buffers.len(),
    ensures
        array.with_vertex_buffer(slot, first).with_vertex_buffer(slot, second)
            == array.with_vertex_buffer(slot, second),
        array.with_vertex_buffer(slot, second).vertex_buffers[slot] == Some(second),
        forall|other: int|
            0 <= other < array.vertex_buffers.len() && other != slot ==> array.with_vertex_buffer(
                slot,
                second,
            ).vertex_buffers[other] == array.vertex_buffers[other],
        array.with_vertex_buffer(slot, second).formats == array.formats,
        array.with_vertex_buffer(slot, second).next_attrib == array.next_attrib,
        array.with_vertex_buffer(slot, second).element_buffer == array.element_buffer,
{
    assert(array.vertex_buffers.update(slot, Some(first)).update(slot, Some(second))
        == array.vertex_buffers.update(slot, Some(second)));
}

/// An index buffer bound after another takes its place.
pub proof fn lemma_rebind_element_buffer<B>(array: VertexArrayView<B>, first: B, second: B)
    ensures
        array.with_element_buffer(first).with_element_buffer(second) == array.with_element_buffer(second),
        array.with_element_buffer(second).element_buffer == Some(second),
{
}

} // verus!
