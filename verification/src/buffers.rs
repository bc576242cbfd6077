//! Buffer descriptors: plain buffers (empty or pre-filled), buffers of many
//! dynamically-offset elements with a device-aligned stride, size checks
//! against the device's limits, and the `@binding(N)` bookkeeping of a bind
//! group under construction.

use vstd::prelude::*;
use crate::flags::BufferUsages;
use crate::limits::DeviceLimits;

verus! {

/// `size` rounded up to the next multiple of `alignment`.
pub open spec fn spec_align_to(size: int, alignment: int) -> int {
    (size / alignment + if size % alignment == 0 { 0int } else { 1int }) * alignment
}

/// The rounded-up size is the least multiple of `alignment` that is at
/// least `size`: it is a multiple, it is not smaller than `size`, and it is
/// less than `size + alignment`.
pub proof fn lemma_align_to(size: int, alignment: int)
    requires
        0 <= size,
        0 < alignment,
    ensures
        spec_align_to(size, alignment) % alignment == 0,
        size <= spec_align_to(size, alignment) < size + alignment,
        size % alignment == 0 ==> spec_align_to(size, alignment) == size,
{
    let q = size / alignment;
    let r = size % alignment;
    assert(size == q * alignment + r && 0 <= r < alignment) by (nonlinear_arith)
        requires 0 <= size, 0 < alignment, q == size / alignment, r == size % alignment;
    if r == 0 {
        assert(spec_align_to(size, alignment) == q * alignment);
        assert((q * alignment) % alignment == 0) by (nonlinear_arith)
            requires 0 < alignment;
    } else {
        assert(spec_align_to(size, alignment) == (q + 1) * alignment);
        assert(((q + 1) * alignment) % alignment == 0) by (nonlinear_arith)
            requires 0 < alignment;
        assert((q + 1) * alignment == q * alignment + alignment) by (nonlinear_arith);
    }
}

/// Rounds `size` up to a multiple of `alignment`; `None` when the result
/// does not fit in a `u64`.
pub fn align_to(size: u64, alignment: u64) -> (r: Option<u64>)
    requires
        alignment > 0,
    ensures
        match r {
            Some(v) => v == spec_align_to(size as int, alignment as int),
            None => spec_align_to(size as int, alignment as int) > u64::MAX,
        },
{
    let q = size / alignment;
    let rem = size % alignment;
    proof {
        assert(q * alignment + rem == size) by (nonlinear_arith)
            requires q == size / alignment, rem == size % alignment, alignment > 0;
    }
    let blocks = if rem == 0 {
        q
    } else {
        assert(q < u64::MAX) by (nonlinear_arith)
            requires q * alignment + rem == size, rem > 0, rem < alignment, size <= u64::MAX, alignment > 0;
        q + 1
    };
    blocks.checked_mul(alignment)
}

/// The aligned per-element stride of a dynamically-offset uniform buffer
/// on a device with these limits; `None` when it overflows a `u64`.
pub fn dynamic_uniform_offset_stride(limits: &DeviceLimits, element_size: u64) -> (r: Option<u64>)
    requires
        limits.min_uniform_buffer_offset_alignment > 0,
    ensures
        match r {
            Some(v) => v == spec_align_to(element_size as int, limits.min_uniform_buffer_offset_alignment as int),
            None => spec_align_to(element_size as int, limits.min_uniform_buffer_offset_alignment as int) > u64::MAX,
        },
{
    align_to(element_size, limits.min_uniform_buffer_offset_alignment as u64)
}

/// Same as [`dynamic_uniform_offset_stride`], for storage buffers.
pub fn dynamic_storage_offset_stride(limits: &DeviceLimits, element_size: u64) -> (r: Option<u64>)
    requires
        limits.min_storage_buffer_offset_alignment > 0,
    ensures
        match r {
            Some(v) => v == spec_align_to(element_size as int, limits.min_storage_buffer_offset_alignment as int),
            None => spec_align_to(element_size as int, limits.min_storage_buffer_offset_alignment as int) > u64::MAX,
        },
{
    align_to(element_size, limits.min_storage_buffer_offset_alignment as u64)
}

/// Why a buffer of some size cannot be created on a device.
#[derive(Clone, Copy, Debug, PartialEq, Eq, Structural)]
pub enum BufferSizeError {
    /// Larger than the device's `max_buffer_size`.
    ExceedsMaxBufferSize { size: u64, max: u64 },
    /// A uniform buffer larger than `max_uniform_buffer_binding_size`.
    ExceedsMaxUniformBindingSize { size: u64, max: u64 },
    /// A storage buffer larger than `max_storage_buffer_binding_size`.
    ExceedsMaxStorageBindingSize { size: u64, max: u64 },
}

/// The first limit (in the order: buffer size, uniform binding size,
/// storage binding size) that a buffer of `size` bytes with `usage`
/// exceeds, if any.
pub open spec fn spec_buffer_size_error(limits: DeviceLimits, usage: BufferUsages, size: u64) -> Option<BufferSizeError> {
    if size > limits.max_buffer_size {
        Some(BufferSizeError::ExceedsMaxBufferSize { size, max: limits.max_buffer_size })
    } else if usage.0 & 64 == 64 && size > limits.max_uniform_buffer_binding_size {
        Some(BufferSizeError::ExceedsMaxUniformBindingSize { size, max: limits.max_uniform_buffer_binding_size })
    } else if usage.0 & 128 == 128 && size > limits.max_storage_buffer_binding_size {
        Some(BufferSizeError::ExceedsMaxStorageBindingSize { size, max: limits.max_storage_buffer_binding_size })
    } else {
        None
    }
}

/// Checks a buffer of `size` bytes with `usage` against the device's
/// limits: its overall size, and, when `usage` includes `UNIFORM` or
/// `STORAGE`, the tighter binding-size limit of that binding type.
pub fn check_buffer_size(limits: &DeviceLimits, usage: BufferUsages, size: u64) -> (r: Result<(), BufferSizeError>)
    ensures
        match r {
            Ok(()) => spec_buffer_size_error(*limits, usage, size) is None,
            Err(e) => spec_buffer_size_error(*limits, usage, size) == Some(e),
        },
{
    if size > limits.max_buffer_size {
        return Err(BufferSizeError::ExceedsMaxBufferSize { size, max: limits.max_buffer_size });
    }
    if usage.contains(BufferUsages::uniform()) && size > limits.max_uniform_buffer_binding_size {
        return Err(BufferSizeError::ExceedsMaxUniformBindingSize { size, max: limits.max_uniform_buffer_binding_size });
    }
    if usage.contains(BufferUsages::storage()) && size > limits.max_storage_buffer_binding_size {
        return Err(BufferSizeError::ExceedsMaxStorageBindingSize { size, max: limits.max_storage_buffer_binding_size });
    }
    Ok(())
}

/// What a new buffer starts out holding.
pub enum BufferContents<'a> {
    /// `size` bytes, contents undefined until written.
    Empty(u64),
    /// Exactly these bytes.
    Data(&'a [u8]),
}

/// The byte size of a buffer created from `contents`.
pub open spec fn spec_contents_size<'a>(contents: BufferContents<'a>) -> int {
    match contents {
        BufferContents::Empty(size) => size as int,
        BufferContents::Data(data) => data@.len() as int,
    }
}

impl<'a> BufferContents<'a> {
    pub fn size(&self) -> (r: u64)
        ensures r == spec_contents_size(*self),
    {
        match self {
            BufferContents::Empty(size) => *size,
            BufferContents::Data(data) => data.len() as u64,
        }
    }
}

/// Describes a buffer — empty (via [`empty`](Self::empty)) or pre-filled
/// (via [`with_data`](Self::with_data)) — with its label and usage flags.
pub struct BufferBuilder<'a> {
    label: Option<&'a str>,
    usage: BufferUsages,
    contents: BufferContents<'a>,
}

impl<'a> BufferBuilder<'a> {
    pub closed spec fn spec_label(&self) -> Option<&'a str> {
        self.label
    }

    pub closed spec fn spec_usage(&self) -> BufferUsages {
        self.usage
    }

    pub closed spec fn spec_contents(&self) -> BufferContents<'a> {
        self.contents
    }

    /// An empty buffer of `size` bytes, no usage flags, no label.
    pub fn empty(size: u64) -> (r: Self)
        ensures
            r.spec_label() is None,
            r.spec_usage().0 == 0,
            r.spec_contents() == BufferContents::<'a>::Empty(size),
    {
        BufferBuilder { label: None, usage: BufferUsages::empty(), contents: BufferContents::Empty(size) }
    }

    /// A buffer pre-filled with `data`; its size is `data`'s length.
    pub fn with_data(data: &'a [u8]) -> (r: Self)
        ensures
            r.spec_label() is None,
            r.spec_usage().0 == 0,
            r.spec_contents() == BufferContents::<'a>::Data(data),
    {
        BufferBuilder { label: None, usage: BufferUsages::empty(), contents: BufferContents::Data(data) }
    }

    pub fn label(self, label: Option<&'a str>) -> (r: Self)
        ensures
            r.spec_label() == label,
            r.spec_usage() == self.spec_usage(),
            r.spec_contents() == self.spec_contents(),
    {
        BufferBuilder { label, usage: self.usage, contents: self.contents }
    }

    /// Sets the usage flags outright.
    pub fn usage(self, usage: BufferUsages) -> (r: Self)
        ensures
            r.spec_label() == self.spec_label(),
            r.spec_usage() == usage,
            r.spec_contents() == self.spec_contents(),
    {
        BufferBuilder { label: self.label, usage, contents: self.contents }
    }

    /// Shorthand for `UNIFORM | COPY_DST` usage.
    pub fn uniform(self) -> (r: Self)
        ensures
            r.spec_label() == self.spec_label(),
            r.spec_usage().0 == 64u32 | 8u32,
            r.spec_contents() == self.spec_contents(),
    {
        self.usage(BufferUsages::uniform() | BufferUsages::copy_dst())
    }

    /// Shorthand for `STORAGE | COPY_DST` usage.
    pub fn storage(self) -> (r: Self)
        ensures
            r.spec_label() == self.spec_label(),
            r.spec_usage().0 == 128u32 | 8u32,
            r.spec_contents() == self.spec_contents(),
    {
        self.usage(BufferUsages::storage() | BufferUsages::copy_dst())
    }

    pub fn get_label(&self) -> (r: Option<&'a str>)
        ensures r == self.spec_label(),
    {
        self.label
    }

    pub fn get_usage(&self) -> (r: BufferUsages)
        ensures r == self.spec_usage(),
    {
        self.usage
    }

    pub fn contents(&self) -> (r: &BufferContents<'a>)
        ensures *r == self.spec_contents(),
    {
        &self.contents
    }

    /// The size in bytes the buffer will have.
    pub fn size(&self) -> (r: u64)
        ensures r == spec_contents_size(self.spec_contents()),
    {
        self.contents.size()
    }

    /// Checks this buffer's size against the device's limits (see
    /// [`check_buffer_size`]).
    pub fn check(&self, limits: &DeviceLimits) -> (r: Result<(), BufferSizeError>)
        ensures
            match r {
                Ok(()) => spec_buffer_size_error(*limits, self.spec_usage(), spec_contents_size(self.spec_contents()) as u64) is None,
                Err(e) => spec_buffer_size_error(*limits, self.spec_usage(), spec_contents_size(self.spec_contents()) as u64) == Some(e),
            },
    {
        check_buffer_size(limits, self.usage, self.size())
    }

    /// The label, usage and contents of the buffer to create, for a buffer
    /// within every size limit of the device (see [`check`](Self::check)).
    pub fn build_raw(&self, limits: &DeviceLimits) -> (r: (Option<&'a str>, BufferUsages, &BufferContents<'a>))
        requires
            spec_buffer_size_error(*limits, self.spec_usage(), spec_contents_size(self.spec_contents()) as u64) is None,
        ensures
            r.0 == self.spec_label(),
            r.1 == self.spec_usage(),
            *r.2 == self.spec_contents(),
    {
        (self.label, self.usage, &self.contents)
    }
}

/// Whether a dynamically-offset buffer holds uniform or storage data.
#[derive(Clone, Copy, Debug, PartialEq, Eq, Structural)]
pub enum DynamicKind {
    Uniform,
    Storage,
}

/// Everything needed to create a dynamically-offset buffer: its usage,
/// the aligned stride of one element, and the total size.
#[derive(Clone, Copy, Debug, PartialEq, Eq, Structural)]
pub struct DynamicBufferPlan {
    pub usage: BufferUsages,
    pub stride: u64,
    pub element_size: u64,
    pub size: u64,
}

impl DynamicBufferPlan {
    /// The byte offset of element `index`: its position times the stride.
    pub fn element_offset(&self, index: u64) -> (r: u64)
        requires
            index * self.stride <= u64::MAX,
        ensures
            r == index * self.stride,
    {
        index * self.stride
    }
}

/// With a stride no smaller than the element, the elements of a
/// dynamically-offset buffer never overlap: each ends at or before the
/// next one's offset.
pub proof fn lemma_elements_disjoint(stride: u64, element_size: u64, i: u64, j: u64)
    requires
        element_size <= stride,
        i < j,
    ensures
        i * stride + element_size <= j * stride,
{
    assert(i * stride + stride <= j * stride) by (nonlinear_arith)
        requires i < j, 0 <= stride;
}

/// Why a dynamically-offset buffer cannot be created.
#[derive(Clone, Copy, Debug, PartialEq, Eq, Structural)]
pub enum DynamicBufferError {
    /// The aligned stride, or stride times count, does not fit in a `u64`.
    SizeOverflow,
    /// The total size exceeds one of the device's limits.
    Size(BufferSizeError),
}

/// Describes a buffer holding `count` dynamically-offset elements of
/// `element_size` bytes each.
pub struct DynamicBufferBuilder<'a> {
    label: Option<&'a str>,
    kind: DynamicKind,
    element_size: u64,
    count: u64,
}

impl<'a> DynamicBufferBuilder<'a> {
    pub closed spec fn spec_label(&self) -> Option<&'a str> {
        self.label
    }

    pub closed spec fn spec_kind(&self) -> DynamicKind {
        self.kind
    }

    pub closed spec fn spec_element_size(&self) -> u64 {
        self.element_size
    }

    pub closed spec fn spec_count(&self) -> u64 {
        self.count
    }

    /// `count` uniform elements of `element_size` bytes.
    pub fn uniform(element_size: u64, count: u64) -> (r: Self)
        ensures
            r.spec_label() is None,
            r.spec_kind() == DynamicKind::Uniform,
            r.spec_element_size() == element_size,
            r.spec_count() == count,
    {
        DynamicBufferBuilder { label: None, kind: DynamicKind::Uniform, element_size, count }
    }

    /// `count` storage elements of `element_size` bytes.
    pub fn storage(element_size: u64, count: u64) -> (r: Self)
        ensures
            r.spec_label() is None,
            r.spec_kind() == DynamicKind::Storage,
            r.spec_element_size() == element_size,
            r.spec_count() == count,
    {
        DynamicBufferBuilder { label: None, kind: DynamicKind::Storage, element_size, count }
    }

    pub fn label(self, label: Option<&'a str>) -> (r: Self)
        ensures
            r.spec_label() == label,
            r.spec_kind() == self.spec_kind(),
            r.spec_element_size() == self.spec_element_size(),
            r.spec_count() == self.spec_count(),
    {
        DynamicBufferBuilder { label, kind: self.kind, element_size: self.element_size, count: self.count }
    }

    pub fn get_label(&self) -> (r: Option<&'a str>)
        ensures r == self.spec_label(),
    {
        self.label
    }

    /// The usage, stride and total size of the buffer on a device with
    /// `limits`: the stride is the element size rounded up to the device's
    /// dynamic-offset alignment for this kind, the usage is that kind plus
    /// `COPY_DST`, and the size is `stride * count`, checked against the
    /// device's limits.
    pub fn plan(&self, limits: &DeviceLimits) -> (r: Result<DynamicBufferPlan, DynamicBufferError>)
        requires
            limits.min_uniform_buffer_offset_alignment > 0,
            limits.min_storage_buffer_offset_alignment > 0,
        ensures
            ({
                let alignment: int = match self.spec_kind() {
                    DynamicKind::Uniform => limits.min_uniform_buffer_offset_alignment as int,
                    DynamicKind::Storage => limits.min_storage_buffer_offset_alignment as int,
                };
                let usage_bits: u32 = match self.spec_kind() {
                    DynamicKind::Uniform => 64u32 | 8u32,
                    DynamicKind::Storage => 128u32 | 8u32,
                };
                let stride = spec_align_to(self.spec_element_size() as int, alignment);
                let size = stride * self.spec_count();
                match r {
                    Ok(plan) => {
                        &&& plan.usage.0 == usage_bits
                        &&& plan.stride == stride
                        &&& plan.element_size <= plan.stride
                        &&& plan.element_size == self.spec_element_size()
                        &&& plan.size == size
                        &&& spec_buffer_size_error(*limits, plan.usage, plan.size) is None
                    },
                    Err(DynamicBufferError::SizeOverflow) => stride > u64::MAX || size > u64::MAX,
                    Err(DynamicBufferError::Size(e)) => stride <= u64::MAX && size <= u64::MAX
                        && spec_buffer_size_error(*limits, BufferUsages(usage_bits), size as u64) == Some(e),
                }
            }),
    {
        let (usage, stride) = match self.kind {
            DynamicKind::Uniform => (
                BufferUsages::uniform() | BufferUsages::copy_dst(),
                dynamic_uniform_offset_stride(limits, self.element_size),
            ),
            DynamicKind::Storage => (
                BufferUsages::storage() | BufferUsages::copy_dst(),
                dynamic_storage_offset_stride(limits, self.element_size),
            ),
        };
        let ghost alignment: int = match self.kind {
            DynamicKind::Uniform => limits.min_uniform_buffer_offset_alignment as int,
            DynamicKind::Storage => limits.min_storage_buffer_offset_alignment as int,
        };
        let stride = match stride {
            Some(s) => s,
            None => return Err(DynamicBufferError::SizeOverflow),
        };
        let size = match stride.checked_mul(self.count) {
            Some(s) => s,
            None => return Err(DynamicBufferError::SizeOverflow),
        };
        proof {
            lemma_align_to(self.element_size as int, alignment);
        }
        match check_buffer_size(limits, usage, size) {
            Ok(()) => Ok(DynamicBufferPlan { usage, stride, element_size: self.element_size, size }),
            Err(e) => Err(DynamicBufferError::Size(e)),
        }
    }
}

/// The `@binding(N)` slots of a bind group under construction, holding one
/// resource of type `R` per slot. Resources added without an explicit
/// binding get the next binding after every one assigned so far, starting
/// at 0, so they never collide with an earlier slot.
pub struct BindingSlots<R> {
    entries: Vec<(u32, R)>,
    next_binding: u32,
}

impl<R> BindingSlots<R> {
    pub closed spec fn spec_entries(&self) -> Seq<(u32, R)> {
        self.entries@
    }

    pub closed spec fn spec_next_binding(&self) -> u32 {
        self.next_binding
    }

    /// The next binding lies above every binding assigned so far.
    pub open spec fn well_formed(&self) -> bool {
        forall|i: int| 0 <= i < self.spec_entries().len() ==> self.spec_entries()[i].0 < self.spec_next_binding()
    }

    /// No slots; the next binding is 0.
    pub fn new() -> (r: Self)
        ensures
            r.well_formed(),
            r.spec_entries() == Seq::<(u32, R)>::empty(),
            r.spec_next_binding() == 0,
    {
        BindingSlots { entries: Vec::new(), next_binding: 0 }
    }

    /// Adds `resource` at an explicit `@binding(N)`.
    pub fn push_at(&mut self, binding: u32, resource: R)
        requires
            old(self).well_formed(),
            binding < u32::MAX,
        ensures
            final(self).well_formed(),
            final(self).spec_entries() == old(self).spec_entries().push((binding, resource)),
            final(self).spec_next_binding() == if binding + 1 > old(self).spec_next_binding() {
                (binding + 1) as u32
            } else {
                old(self).spec_next_binding()
            },
    {
        let ghost old_entries = self.entries@;
        self.entries.push((binding, resource));
        if binding + 1 > self.next_binding {
            self.next_binding = binding + 1;
        }
        assert forall|i: int| 0 <= i < self.spec_entries().len() implies self.spec_entries()[i].0 < self.spec_next_binding() by {
            if i < old_entries.len() {
                assert(self.spec_entries()[i] == old_entries[i]);
                assert(old(self).spec_entries()[i].0 < old(self).spec_next_binding());
            }
        }
    }

    /// Adds `resource` at the next `@binding(N)`, which no earlier slot uses.
    pub fn push(&mut self, resource: R) -> (b: u32)
        requires
            old(self).well_formed(),
            old(self).spec_next_binding() < u32::MAX,
        ensures
            final(self).well_formed(),
            b == old(self).spec_next_binding(),
            forall|i: int| 0 <= i < old(self).spec_entries().len() ==> old(self).spec_entries()[i].0 != b,
            final(self).spec_entries() == old(self).spec_entries().push((b, resource)),
            final(self).spec_next_binding() == b + 1,
    {
        let b = self.next_binding;
        self.push_at(b, resource);
        b
    }

    pub fn next_binding(&self) -> (r: u32)
        ensures r == self.spec_next_binding(),
    {
        self.next_binding
    }

    pub fn entries(&self) -> (r: &Vec<(u32, R)>)
        ensures r@ == self.spec_entries(),
    {
        &self.entries
    }

    pub fn into_entries(self) -> (r: Vec<(u32, R)>)
        ensures r@ == self.spec_entries(),
    {
        self.entries
    }
}

} // verus!
