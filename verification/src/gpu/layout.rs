//! Bind group layouts and bind groups as plain data, and the rule by which a
//! pipeline layout assigns an index to each group.
use vstd::prelude::*;

verus! {

/// The pixel format of a texture.
#[derive(Clone, Copy, Debug, PartialEq, Eq, Structural)]
pub enum TextureFormat {
    Rgba8Unorm,
}

/// The shader stages that can see a binding.
#[derive(Clone, Copy, Debug, PartialEq, Eq, Structural)]
pub struct ShaderStages {
    pub compute: bool,
    pub vertex: bool,
    pub fragment: bool,
}

/// What kind of resource a layout entry accepts.
#[derive(Clone, Copy, Debug, PartialEq, Eq, Structural)]
pub enum BindingType {
    /// A two-dimensional texture that a shader writes and never reads.
    StorageTexture { format: TextureFormat },
    /// A two-dimensional, single-sampled texture read through a sampler.
    Texture { filterable: bool },
    /// A sampler; `filtering` tells whether it may interpolate.
    Sampler { filtering: bool },
    /// A uniform buffer bound whole, without a dynamic offset.
    UniformBuffer,
}

/// The object that a bind group entry binds.
#[derive(Clone, Copy, Debug, PartialEq, Eq, Structural)]
pub enum BindingResource {
    /// The view of the output texture.
    OutputView,
    /// The nearest-neighbour sampler of the render stage.
    NearestSampler,
    /// The uniform buffer that holds the viewport size.
    SizeBuffer,
}

/// One entry of a bind group layout.
#[derive(Clone, Copy, Debug, PartialEq, Eq, Structural)]
pub struct LayoutEntry {
    pub binding: u32,
    pub visibility: ShaderStages,
    pub ty: BindingType,
}

/// One entry of a bind group.
#[derive(Clone, Copy, Debug, PartialEq, Eq, Structural)]
pub struct GroupEntry {
    pub binding: u32,
    pub resource: BindingResource,
}

/// The schema of a bind group: its entries in declaration order.
#[derive(Debug)]
pub struct GroupLayout {
    pub entries: Vec<LayoutEntry>,
}

/// A bind group: the resources bound, in declaration order.
#[derive(Debug)]
pub struct Group {
    pub entries: Vec<GroupEntry>,
}

/// Which list of a stage's groups a pipeline slot is filled from, and the
/// position in that list.
#[derive(Clone, Copy, Debug, PartialEq, Eq, Structural)]
pub enum GroupSource {
    /// A group that belongs to the stage alone.
    Local(usize),
    /// A group that all stages share.
    Shared(usize),
}

impl BindingResource {
    /// The resource is of the kind that a layout entry of type `ty` accepts.
    pub open spec fn fits(self, ty: BindingType) -> bool {
        match self {
            BindingResource::OutputView => ty is StorageTexture || ty is Texture,
            BindingResource::NearestSampler => ty is Sampler,
            BindingResource::SizeBuffer => ty is UniformBuffer,
        }
    }

    /// Tells whether the resource is of the kind that `ty` accepts.
    pub fn accepts(self, ty: BindingType) -> (r: bool)
        ensures
            r == self.fits(ty),
    {
        match self {
            BindingResource::OutputView => match ty {
                BindingType::StorageTexture { .. } => true,
                BindingType::Texture { .. } => true,
                _ => false,
            },
            BindingResource::NearestSampler => match ty {
                BindingType::Sampler { .. } => true,
                _ => false,
            },
            BindingResource::SizeBuffer => match ty {
                BindingType::UniformBuffer => true,
                _ => false,
            },
        }
    }
}

impl GroupEntry {
    /// The entry fills the layout entry `slot`: same binding number, and a
    /// resource of the kind the slot accepts.
    pub open spec fn fills(self, slot: LayoutEntry) -> bool {
        self.binding == slot.binding && self.resource.fits(slot.ty)
    }
}

impl View for GroupLayout {
    type V = Seq<LayoutEntry>;

    open spec fn view(&self) -> Seq<LayoutEntry> {
        self.entries@
    }
}

impl View for Group {
    type V = Seq<GroupEntry>;

    open spec fn view(&self) -> Seq<GroupEntry> {
        self.entries@
    }
}

/// The entries `group` fill the entries `layout` one for one.
pub open spec fn entries_fill(group: Seq<GroupEntry>, layout: Seq<LayoutEntry>) -> bool {
    &&& group.len() == layout.len()
    &&& forall|k: int| 0 <= k < group.len() ==> (#[trigger] group[k]).fills(layout[k])
}

impl GroupLayout {
    /// A copy with the same entries.
    pub fn duplicate(&self) -> (r: GroupLayout)
        ensures
            r@ == self@,
    {
        let mut entries: Vec<LayoutEntry> = Vec::new();
        let mut k: usize = 0;
        while k < self.entries.len()
            invariant
                k <= self.entries.len(),
                entries@ == self.entries@.take(k as int),
            decreases self.entries.len() - k,
        {
            entries.push(self.entries[k]);
            proof {
                assert(self.entries@.take(k as int + 1) == self.entries@.take(k as int).push(
                    self.entries@[k as int],
                ));
            }
            k = k + 1;
        }
        proof {
            assert(self.entries@.take(k as int) == self.entries@);
        }
        GroupLayout { entries }
    }
}

impl Group {
    /// The group can be bound where `layout` is expected.
    pub open spec fn matches(self, layout: GroupLayout) -> bool {
        entries_fill(self@, layout@)
    }

    /// Tells whether the group can be bound where `layout` is expected.
    pub fn fits_layout(&self, layout: &GroupLayout) -> (r: bool)
        ensures
            r == self.matches(*layout),
    {
        if self.entries.len() != layout.entries.len() {
            return false;
        }
        let mut k: usize = 0;
        while k < self.entries.len()
            invariant
                k <= self.entries.len(),
                self.entries.len() == layout.entries.len(),
                forall|j: int| 0 <= j < k ==> (#[trigger] self@[j]).fills(layout@[j]),
            decreases self.entries.len() - k,
        {
            let entry = self.entries[k];
            let slot = layout.entries[k];
            if entry.binding != slot.binding || !entry.resource.accepts(slot.ty) {
                proof {
                    assert(!self@[k as int].fills(layout@[k as int]));
                }
                return false;
            }
            k = k + 1;
        }
        true
    }
}

/// The source of slot `i` in a pipeline layout that lists `local` groups of
/// the stage first and the shared groups after them.
pub open spec fn slot_source(local: nat, i: int) -> GroupSource {
    if i < local {
        GroupSource::Local(i as usize)
    } else {
        GroupSource::Shared((i - local) as usize)
    }
}

/// The group that `source` names among the groups of a stage.
pub open spec fn group_at(local: Seq<Group>, shared: Seq<Group>, source: GroupSource) -> Group {
    match source {
        GroupSource::Local(k) => local[k as int],
        GroupSource::Shared(k) => shared[k as int],
    }
}

/// Every slot of the pipeline layout `layout` is filled by the group that
/// the slot's source names: the local groups first, the shared groups after.
pub open spec fn layout_matches_groups(
    layout: Seq<GroupLayout>,
    local: Seq<Group>,
    shared: Seq<Group>,
) -> bool {
    &&& layout.len() == local.len() + shared.len()
    &&& forall|i: int|
        0 <= i < layout.len() ==> group_at(local, shared, slot_source(local.len(), i)).matches(
            #[trigger] layout[i],
        )
}

/// Tells whether every slot of `layout` is filled by the group that the
/// slot's source names.
pub fn groups_fit_layout(
    layout: &Vec<GroupLayout>,
    local: &Vec<Group>,
    shared: &Vec<Group>,
) -> (r: bool)
    ensures
        r == layout_matches_groups(layout@, local@, shared@),
{
    let slots: usize = layout.len();
    if shared.len() > usize::MAX - local.len() {
        return false;
    }
    if slots != local.len() + shared.len() {
        return false;
    }
    let mut i: usize = 0;
    while i < layout.len()
        invariant
            i <= layout.len(),
            layout.len() == local.len() + shared.len(),
            forall|j: int|
                0 <= j < i ==> group_at(local@, shared@, slot_source(local@.len(), j)).matches(
                    #[trigger] layout@[j],
                ),
        decreases layout.len() - i,
    {
        let ok = if i < local.len() {
            local[i].fits_layout(&layout[i])
        } else {
            shared[i - local.len()].fits_layout(&layout[i])
        };
        if !ok {
            proof {
                assert(!group_at(local@, shared@, slot_source(local@.len(), i as int)).matches(
                    layout@[i as int],
                ));
            }
            return false;
        }
        i = i + 1;
    }
    true
}

} // verus!
