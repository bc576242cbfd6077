//! The bind-group vocabulary shared by materials and compute passes: what
//! each `@binding(N)` of a bind group expects, and the builder that collects
//! those entries and refuses a bind group that assigns one `@binding(N)`
//! twice.

use vstd::prelude::*;
use crate::flags::ShaderStages;
use crate::texture_format::TextureFormat;

verus! {

/// Specific type of a sample in a texture binding.
#[derive(Copy, Clone, Debug, PartialEq, Eq, Hash, Structural)]
pub enum TextureSampleType {
    Float { filterable: bool },
    Depth,
    Sint,
    Uint,
}

/// Dimensions of a texture view.
#[derive(Copy, Clone, Debug, PartialEq, Eq, Hash, Structural)]
pub enum TextureViewDimension {
    D1,
    D2,
    D2Array,
    Cube,
    CubeArray,
    D3,
}

/// Access mode for a storage texture binding.
#[derive(Copy, Clone, Debug, PartialEq, Eq, Hash, Structural)]
pub enum StorageTextureAccess {
    WriteOnly,
    ReadOnly,
    ReadWrite,
    Atomic,
}

/// What kind of resource a single [`BindingEntry`] binds, its binding
/// parameters, and which shader stage(s) can see it.
#[derive(Copy, Clone, Debug, PartialEq, Eq, Hash, Structural)]
pub enum BindingKind {
    /// A sampled texture (`texture_2d<f32>` and friends in WGSL).
    Texture {
        visibility: ShaderStages,
        sample_type: TextureSampleType,
        view_dimension: TextureViewDimension,
        multisampled: bool,
    },
    /// A texture bound for direct read/write access rather than sampling.
    StorageTexture {
        visibility: ShaderStages,
        format: TextureFormat,
        access: StorageTextureAccess,
        view_dimension: TextureViewDimension,
    },
    /// A filtering sampler.
    Sampler { visibility: ShaderStages },
    /// A comparison sampler (e.g. for shadow-map `textureSampleCompare`).
    ComparisonSampler { visibility: ShaderStages },
    /// A uniform buffer.
    UniformBuffer { visibility: ShaderStages, has_dynamic_offset: bool, min_binding_size: Option<u64> },
    /// A read-only storage buffer.
    StorageBufferReadOnly { visibility: ShaderStages, has_dynamic_offset: bool, min_binding_size: Option<u64> },
    /// A read-write storage buffer.
    StorageBufferReadWrite { visibility: ShaderStages, has_dynamic_offset: bool, min_binding_size: Option<u64> },
}

/// The shader stages a binding kind is visible to.
pub open spec fn spec_visibility(kind: BindingKind) -> ShaderStages {
    match kind {
        BindingKind::Texture { visibility, .. } => visibility,
        BindingKind::StorageTexture { visibility, .. } => visibility,
        BindingKind::Sampler { visibility } => visibility,
        BindingKind::ComparisonSampler { visibility } => visibility,
        BindingKind::UniformBuffer { visibility, .. } => visibility,
        BindingKind::StorageBufferReadOnly { visibility, .. } => visibility,
        BindingKind::StorageBufferReadWrite { visibility, .. } => visibility,
    }
}

impl BindingKind {
    /// A filterable, non-multisampled 2D texture — the common case.
    pub fn texture_2d(visibility: ShaderStages) -> (r: Self)
        ensures
            r == (BindingKind::Texture {
                visibility,
                sample_type: TextureSampleType::Float { filterable: true },
                view_dimension: TextureViewDimension::D2,
                multisampled: false,
            }),
    {
        BindingKind::Texture {
            visibility,
            sample_type: TextureSampleType::Float { filterable: true },
            view_dimension: TextureViewDimension::D2,
            multisampled: false,
        }
    }

    /// A filterable, non-multisampled 2D texture array.
    pub fn texture_2d_array(visibility: ShaderStages) -> (r: Self)
        ensures
            r == (BindingKind::Texture {
                visibility,
                sample_type: TextureSampleType::Float { filterable: true },
                view_dimension: TextureViewDimension::D2Array,
                multisampled: false,
            }),
    {
        BindingKind::Texture {
            visibility,
            sample_type: TextureSampleType::Float { filterable: true },
            view_dimension: TextureViewDimension::D2Array,
            multisampled: false,
        }
    }

    /// A filterable, non-multisampled cubemap texture.
    pub fn texture_cubemap(visibility: ShaderStages) -> (r: Self)
        ensures
            r == (BindingKind::Texture {
                visibility,
                sample_type: TextureSampleType::Float { filterable: true },
                view_dimension: TextureViewDimension::Cube,
                multisampled: false,
            }),
    {
        BindingKind::Texture {
            visibility,
            sample_type: TextureSampleType::Float { filterable: true },
            view_dimension: TextureViewDimension::Cube,
            multisampled: false,
        }
    }

    /// A storage texture bound for direct read/write access in a shader.
    pub fn storage_texture(
        visibility: ShaderStages,
        format: TextureFormat,
        access: StorageTextureAccess,
        view_dimension: TextureViewDimension,
    ) -> (r: Self)
        ensures r == (BindingKind::StorageTexture { visibility, format, access, view_dimension }),
    {
        BindingKind::StorageTexture { visibility, format, access, view_dimension }
    }

    /// A filtering sampler.
    pub fn sampler(visibility: ShaderStages) -> (r: Self)
        ensures r == (BindingKind::Sampler { visibility }),
    {
        BindingKind::Sampler { visibility }
    }

    /// A comparison sampler (e.g. for shadow-map `textureSampleCompare`).
    pub fn comparison_sampler(visibility: ShaderStages) -> (r: Self)
        ensures r == (BindingKind::ComparisonSampler { visibility }),
    {
        BindingKind::ComparisonSampler { visibility }
    }

    /// A uniform buffer, bound as a whole (no dynamic offset).
    pub fn uniform_buffer(visibility: ShaderStages) -> (r: Self)
        ensures r == (BindingKind::UniformBuffer { visibility, has_dynamic_offset: false, min_binding_size: None }),
    {
        BindingKind::UniformBuffer { visibility, has_dynamic_offset: false, min_binding_size: None }
    }

    /// A uniform buffer bound with a dynamic offset; `element_size` is the
    /// byte size of one element before alignment padding, and becomes the
    /// binding's minimum size.
    pub fn dynamic_uniform_buffer(visibility: ShaderStages, element_size: u64) -> (r: Self)
        ensures
            r == (BindingKind::UniformBuffer {
                visibility,
                has_dynamic_offset: true,
                min_binding_size: Some(element_size),
            }),
    {
        BindingKind::UniformBuffer { visibility, has_dynamic_offset: true, min_binding_size: Some(element_size) }
    }

    /// A read-only storage buffer, bound as a whole (no dynamic offset).
    pub fn storage_buffer_read_only(visibility: ShaderStages) -> (r: Self)
        ensures
            r == (BindingKind::StorageBufferReadOnly {
                visibility,
                has_dynamic_offset: false,
                min_binding_size: None,
            }),
    {
        BindingKind::StorageBufferReadOnly { visibility, has_dynamic_offset: false, min_binding_size: None }
    }

    /// A read-write storage buffer, bound as a whole (no dynamic offset).
    pub fn storage_buffer_read_write(visibility: ShaderStages) -> (r: Self)
        ensures
            r == (BindingKind::StorageBufferReadWrite {
                visibility,
                has_dynamic_offset: false,
                min_binding_size: None,
            }),
    {
        BindingKind::StorageBufferReadWrite { visibility, has_dynamic_offset: false, min_binding_size: None }
    }

    /// A storage buffer bound with a dynamic offset: read-only when
    /// `read_only` is set, read-write otherwise.
    pub fn dynamic_storage_buffer(visibility: ShaderStages, element_size: u64, read_only: bool) -> (r: Self)
        ensures
            read_only ==> r == (BindingKind::StorageBufferReadOnly {
                visibility,
                has_dynamic_offset: true,
                min_binding_size: Some(element_size),
            }),
            !read_only ==> r == (BindingKind::StorageBufferReadWrite {
                visibility,
                has_dynamic_offset: true,
                min_binding_size: Some(element_size),
            }),
    {
        let has_dynamic_offset = true;
        let min_binding_size = Some(element_size);
        if read_only {
            BindingKind::StorageBufferReadOnly { visibility, has_dynamic_offset, min_binding_size }
        } else {
            BindingKind::StorageBufferReadWrite { visibility, has_dynamic_offset, min_binding_size }
        }
    }

    /// Which shader stage(s) this binding is visible to.
    pub fn visibility(&self) -> (r: ShaderStages)
        ensures r == spec_visibility(*self),
    {
        match self {
            BindingKind::Texture { visibility, .. } => *visibility,
            BindingKind::StorageTexture { visibility, .. } => *visibility,
            BindingKind::Sampler { visibility } => *visibility,
            BindingKind::ComparisonSampler { visibility } => *visibility,
            BindingKind::UniformBuffer { visibility, .. } => *visibility,
            BindingKind::StorageBufferReadOnly { visibility, .. } => *visibility,
            BindingKind::StorageBufferReadWrite { visibility, .. } => *visibility,
        }
    }
}

/// Every constructor of [`BindingKind`] reports back, through `visibility`,
/// exactly the stages it was given.
pub proof fn lemma_visibility_round_trips(
    stages: ShaderStages,
    format: TextureFormat,
    access: StorageTextureAccess,
    dim: TextureViewDimension,
    size: u64,
    flag: bool,
)
    ensures
        spec_visibility(BindingKind::Texture {
            visibility: stages,
            sample_type: TextureSampleType::Float { filterable: true },
            view_dimension: dim,
            multisampled: flag,
        }) == stages,
        spec_visibility(BindingKind::StorageTexture { visibility: stages, format, access, view_dimension: dim })
            == stages,
        spec_visibility(BindingKind::Sampler { visibility: stages }) == stages,
        spec_visibility(BindingKind::ComparisonSampler { visibility: stages }) == stages,
        spec_visibility(BindingKind::UniformBuffer {
            visibility: stages,
            has_dynamic_offset: flag,
            min_binding_size: Some(size),
        }) == stages,
        spec_visibility(BindingKind::StorageBufferReadOnly {
            visibility: stages,
            has_dynamic_offset: flag,
            min_binding_size: Some(size),
        }) == stages,
        spec_visibility(BindingKind::StorageBufferReadWrite {
            visibility: stages,
            has_dynamic_offset: flag,
            min_binding_size: None,
        }) == stages,
{
}

/// One binding within a material's or compute pass's own bind group.
#[derive(Clone, Copy, Debug)]
pub struct BindingEntry {
    /// Shader-facing name, used to find the entry by name and in messages.
    pub name: &'static str,
    /// The `@binding(N)` this entry occupies within its bind group.
    pub binding: u32,
    /// What resource this binding expects and which stages can see it.
    pub kind: BindingKind,
}

/// Entry `j` of `entries` reuses a `@binding(N)` already taken by an
/// earlier entry.
pub open spec fn binding_repeats(entries: Seq<BindingEntry>, j: int) -> bool {
    exists|i: int| 0 <= i < j && entries[i].binding == entries[j].binding
}

/// No two entries share a `@binding(N)`.
pub open spec fn bindings_unique(entries: Seq<BindingEntry>) -> bool {
    forall|i: int, j: int| 0 <= i < j < entries.len() ==> entries[i].binding != entries[j].binding
}

/// A bind group layout that assigns one `@binding(N)` to two entries: the
/// later of the two (the first such entry in list order) is reported.
#[derive(Clone, Copy, Debug)]
pub struct DuplicateBinding {
    pub binding: u32,
    pub entry: &'static str,
}

/// Collects the entries of one bind group layout, one [`BindingEntry`] at a
/// time; [`check_bindings`](Self::check_bindings) refuses a layout whose
/// entries claim one `@binding(N)` twice.
pub struct BindGroupLayoutBuilder<'a> {
    label: Option<&'a str>,
    entries: Vec<BindingEntry>,
}

impl<'a> BindGroupLayoutBuilder<'a> {
    pub closed spec fn spec_label(&self) -> Option<&'a str> {
        self.label
    }

    pub closed spec fn spec_entries(&self) -> Seq<BindingEntry> {
        self.entries@
    }

    /// An empty layout with no label.
    pub fn new() -> (r: Self)
        ensures
            r.spec_label() is None,
            r.spec_entries() == Seq::<BindingEntry>::empty(),
    {
        BindGroupLayoutBuilder { label: None, entries: Vec::new() }
    }

    pub fn with_label(self, label: Option<&'a str>) -> (r: Self)
        ensures
            r.spec_label() == label,
            r.spec_entries() == self.spec_entries(),
    {
        BindGroupLayoutBuilder { label, entries: self.entries }
    }

    /// Appends one entry. Call repeatedly for a multi-entry layout.
    pub fn with_entry(self, name: &'static str, binding: u32, kind: BindingKind) -> (r: Self)
        ensures
            r.spec_label() == self.spec_label(),
            r.spec_entries() == self.spec_entries().push(BindingEntry { name, binding, kind }),
    {
        let mut entries = self.entries;
        entries.push(BindingEntry { name, binding, kind });
        BindGroupLayoutBuilder { label: self.label, entries }
    }

    /// Appends every entry of `entries`, in order.
    pub fn with_entries(self, entries: Vec<BindingEntry>) -> (r: Self)
        ensures
            r.spec_label() == self.spec_label(),
            r.spec_entries() == self.spec_entries() + entries@,
    {
        let mut all = self.entries;
        let mut more = entries;
        all.append(&mut more);
        BindGroupLayoutBuilder { label: self.label, entries: all }
    }

    pub fn label(&self) -> (r: Option<&'a str>)
        ensures r == self.spec_label(),
    {
        self.label
    }

    pub fn entries(&self) -> (r: &Vec<BindingEntry>)
        ensures r@ == self.spec_entries(),
    {
        &self.entries
    }

    /// Succeeds when every entry has its own `@binding(N)`; otherwise
    /// reports the first entry, in list order, whose binding was already
    /// taken by an earlier one.
    pub fn check_bindings(&self) -> (r: Result<(), DuplicateBinding>)
        ensures
            r is Ok <==> bindings_unique(self.spec_entries()),
            match r {
                Ok(()) => true,
                Err(d) => is_first_duplicate(self.spec_entries(), d),
            },
    {
        first_duplicate_binding(&self.entries)
    }

    /// The label and entries of the layout to create, for a builder whose
    /// entries each have their own `@binding(N)` (see
    /// [`check_bindings`](Self::check_bindings)).
    pub fn build_raw(&self) -> (r: (Option<&'a str>, &Vec<BindingEntry>))
        requires
            bindings_unique(self.spec_entries()),
        ensures
            r.0 == self.spec_label(),
            r.1@ == self.spec_entries(),
    {
        (self.label, &self.entries)
    }
}

/// `d` reports the first entry of `entries`, in order, whose `@binding(N)`
/// repeats an earlier entry's.
pub open spec fn is_first_duplicate(entries: Seq<BindingEntry>, d: DuplicateBinding) -> bool {
    exists|j: int| {
        &&& 0 <= j < entries.len()
        &&& binding_repeats(entries, j)
        &&& forall|k: int| 0 <= k < j ==> !binding_repeats(entries, k)
        &&& d.binding == entries[j].binding
        &&& d.entry == entries[j].name
    }
}

/// The first entry of `entries`, in order, whose `@binding(N)` repeats an
/// earlier entry's.
pub fn first_duplicate_binding(entries: &Vec<BindingEntry>) -> (r: Result<(), DuplicateBinding>)
    ensures
        r is Ok <==> bindings_unique(entries@),
        match r {
            Ok(()) => true,
            Err(d) => is_first_duplicate(entries@, d),
        },
{
    let mut j: usize = 0;
    while j < entries.len()
        invariant
            j <= entries@.len(),
            forall|k: int| 0 <= k < j ==> !binding_repeats(entries@, k),
        decreases entries@.len() - j,
    {
        let mut i: usize = 0;
        while i < j
            invariant
                i <= j < entries@.len(),
                forall|k: int| 0 <= k < j ==> !binding_repeats(entries@, k),
                forall|m: int| 0 <= m < i ==> entries@[m].binding != entries@[j as int].binding,
            decreases j - i,
        {
            if entries[i].binding == entries[j].binding {
                assert(binding_repeats(entries@, j as int));
                assert(!bindings_unique(entries@));
                return Err(DuplicateBinding { binding: entries[j].binding, entry: entries[j].name });
            }
            i = i + 1;
        }
        j = j + 1;
    }
    assert forall|a: int, b: int| 0 <= a < b < entries@.len() implies entries@[a].binding != entries@[b].binding by {
        assert(!binding_repeats(entries@, b));
    }
    Ok(())
}

} // verus!
