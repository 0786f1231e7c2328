//! The temporal resource ledger: stable string keys name GPU resources that
//! persist across frame boundaries. Per frame and per key the state machine
//! is `Inert -> Imported -> Exported -> Inert`; claiming a key twice in one
//! frame is an error, and observing `Exported` where `Imported` is expected
//! (or the reverse) is a caller protocol violation excluded by precondition.

use vstd::prelude::*;

use core::marker::PhantomData;

use crate::render_graph::{
    AccessType, Buffer, BufferDesc, Device, ExportedHandle, Handle, Image, ImageDesc, RenderGraph,
    RetiredRenderGraph,
};

verus! {

/// An opaque stable string identifying one logical persistent resource slot,
/// unique per resource kind.
#[derive(Debug)]
pub struct TemporalResourceKey(pub String);

impl View for TemporalResourceKey {
    type V = Seq<char>;

    open spec fn view(&self) -> Seq<char> {
        self.0@
    }
}

impl Clone for TemporalResourceKey {
    fn clone(&self) -> (r: Self)
        ensures
            r == *self,
    {
        TemporalResourceKey(self.0.clone())
    }
}

impl PartialEq for TemporalResourceKey {
    fn eq(&self, other: &Self) -> (r: bool) {
        self.0.eq(&other.0)
    }
}

impl vstd::std_specs::cmp::PartialEqSpecImpl for TemporalResourceKey {
    open spec fn obeys_eq_spec() -> bool {
        true
    }

    open spec fn eq_spec(&self, other: &Self) -> bool {
        self.0@ == other.0@
    }
}

impl From<String> for TemporalResourceKey {
    fn from(s: String) -> (r: Self)
        ensures
            r == (TemporalResourceKey { 0: s }),
    {
        TemporalResourceKey(s)
    }
}

impl vstd::std_specs::convert::FromSpecImpl<String> for TemporalResourceKey {
    open spec fn obeys_from_spec() -> bool {
        true
    }

    open spec fn from_spec(s: String) -> Self {
        TemporalResourceKey { 0: s }
    }
}

impl TemporalResourceKey {
    /// A key spelled out in place.
    pub fn new(s: &str) -> (r: Self)
        ensures
            r@ == s@,
    {
        TemporalResourceKey(s.to_owned())
    }
}

/// Which stage of the per-frame lifecycle a keyed resource is in.
#[derive(Clone, Copy, Debug)]
pub enum TemporalResourceState<Res> {
    /// Owned by the ledger, no graph holds it; the recorded access type is
    /// the synchronization state to import it at next time.
    Inert { resource: Res, access_type: AccessType },
    /// Claimed by the current frame's graph.
    Imported { resource: Res, handle: Handle<Res> },
    /// The current frame's graph recorded a pending export; the final access
    /// type is unknown until the graph retires.
    Exported { resource: Res, handle: ExportedHandle<Res> },
}

/// The resource a state carries, whatever the stage.
pub open spec fn state_resource<Res>(s: TemporalResourceState<Res>) -> Res {
    match s {
        TemporalResourceState::Inert { resource, .. } => resource,
        TemporalResourceState::Imported { resource, .. } => resource,
        TemporalResourceState::Exported { resource, .. } => resource,
    }
}

/// One ledger table: keyed states, at most one entry per key.
pub type ResMap<Res> = Vec<(TemporalResourceKey, TemporalResourceState<Res>)>;

/// Whether a key occurs in a table.
pub open spec fn map_has_key<Res>(
    m: Seq<(TemporalResourceKey, TemporalResourceState<Res>)>,
    k: Seq<char>,
) -> bool {
    exists|i: int| 0 <= i < m.len() && m[i].0@ == k
}

/// The position of a key in a table; meaningful under `keys_unique`.
pub open spec fn key_index<Res>(
    m: Seq<(TemporalResourceKey, TemporalResourceState<Res>)>,
    k: Seq<char>,
) -> int {
    choose|i: int| 0 <= i < m.len() && m[i].0@ == k
}

/// Under unique keys, `key_index` recovers an entry's own position.
pub proof fn lemma_key_index_of<Res>(
    m: Seq<(TemporalResourceKey, TemporalResourceState<Res>)>,
    i: int,
)
    requires
        keys_unique(m),
        0 <= i < m.len(),
    ensures
        key_index(m, m[i].0@) == i,
{
    assert(map_has_key(m, m[i].0@));
    let j = key_index(m, m[i].0@);
    assert(0 <= j < m.len() && m[j].0@ == m[i].0@);
}

/// At most one entry per key.
pub open spec fn keys_unique<Res>(
    m: Seq<(TemporalResourceKey, TemporalResourceState<Res>)>,
) -> bool {
    forall|i: int, j: int| 0 <= i < j < m.len() ==> m[i].0@ != m[j].0@
}

/// Every entry rests between frames.
pub open spec fn map_all_inert<Res>(
    m: Seq<(TemporalResourceKey, TemporalResourceState<Res>)>,
) -> bool {
    forall|i: int| 0 <= i < m.len() ==> m[i].1 is Inert
}

/// What a state becomes when it crosses a ledger identity change: a resting
/// state keeps its recorded access type, anything else is downgraded to a
/// conservative "no known access".
pub open spec fn state_downgraded<Res>(
    s: TemporalResourceState<Res>,
) -> TemporalResourceState<Res> {
    match s {
        TemporalResourceState::Inert { .. } => s,
        TemporalResourceState::Imported { resource, .. } => TemporalResourceState::Inert {
            resource,
            access_type: AccessType::Nothing,
        },
        TemporalResourceState::Exported { resource, .. } => TemporalResourceState::Inert {
            resource,
            access_type: AccessType::Nothing,
        },
    }
}

/// The conservative copy of a state for `reuse_from`.
fn downgrade_state<Res: Copy>(s: TemporalResourceState<Res>) -> (r: TemporalResourceState<Res>)
    ensures
        r == state_downgraded(s),
{
    match s {
        TemporalResourceState::Inert { resource, access_type } => TemporalResourceState::Inert {
            resource,
            access_type,
        },
        TemporalResourceState::Imported { resource, .. } => TemporalResourceState::Inert {
            resource,
            access_type: AccessType::Nothing,
        },
        TemporalResourceState::Exported { resource, .. } => TemporalResourceState::Inert {
            resource,
            access_type: AccessType::Nothing,
        },
    }
}

/// The position of a key in a table, if it is there.
fn find_key<Res>(map: &ResMap<Res>, key: &TemporalResourceKey) -> (r: Option<usize>)
    ensures
        match r {
            Some(i) => i < map@.len() && map@[i as int].0@ == key@,
            None => !map_has_key(map@, key@),
        },
{
    let n = map.len();
    let mut i: usize = 0;
    while i < n
        invariant
            i <= n,
            n == map@.len(),
            forall|j: int| 0 <= j < i ==> map@[j].0@ != key@,
        decreases n - i,
    {
        if map[i].0.eq(key) {
            return Some(i);
        }
        i += 1;
    }
    None
}

/// The two ledgers a renderer keeps across frames, one per resource kind.
pub struct TemporalRenderGraphState {
    pub images: ResMap<Image>,
    pub buffers: ResMap<Buffer>,
}

impl TemporalRenderGraphState {
    /// Both tables are honest key-state tables.
    pub open spec fn wf(self) -> bool {
        &&& keys_unique(self.images@)
        &&& keys_unique(self.buffers@)
    }

    /// Every entry of both tables rests between frames.
    pub open spec fn all_inert(self) -> bool {
        &&& map_all_inert(self.images@)
        &&& map_all_inert(self.buffers@)
    }
}

impl Default for TemporalRenderGraphState {
    /// An empty ledger.
    fn default() -> (r: Self)
        ensures
            r.images@.len() == 0,
            r.buffers@.len() == 0,
            r.wf(),
            r.all_inert(),
    {
        TemporalRenderGraphState { images: Vec::new(), buffers: Vec::new() }
    }
}

impl TemporalRenderGraphState {
    /// A structural copy of one table. Only a ledger at rest may be copied:
    /// a claimed or exported entry here is a programming error, excluded by
    /// precondition.
    pub fn clone_assuming_inert_resources<Res: Copy>(resources: &ResMap<Res>) -> (r: ResMap<Res>)
        requires
            map_all_inert(resources@),
        ensures
            r@ == resources@,
    {
        let mut out: ResMap<Res> = Vec::new();
        let n = resources.len();
        let mut i: usize = 0;
        while i < n
            invariant
                i <= n,
                n == resources@.len(),
                map_all_inert(resources@),
                out@ == resources@.take(i as int),
            decreases n - i,
        {
            let state = match &resources[i].1 {
                TemporalResourceState::Inert { resource, access_type } => {
                    TemporalResourceState::Inert { resource: *resource, access_type: *access_type }
                },
                TemporalResourceState::Imported { .. } | TemporalResourceState::Exported {
                    ..
                } => unreached(),
            };
            out.push((resources[i].0.clone(), state));
            proof {
                assert(out@ =~= resources@.take(i + 1));
            }
            i += 1;
        }
        proof {
            assert(resources@.take(n as int) =~= resources@);
        }
        out
    }

    /// A structural copy of the whole ledger, for use as a fresh starting
    /// point. Well-defined only between frames.
    pub fn clone_assuming_inert(&self) -> (r: Self)
        requires
            self.all_inert(),
        ensures
            r.images@ == self.images@,
            r.buffers@ == self.buffers@,
    {
        TemporalRenderGraphState {
            images: Self::clone_assuming_inert_resources(&self.images),
            buffers: Self::clone_assuming_inert_resources(&self.buffers),
        }
    }
}

/// What `reuse_from_resources` does: entries already present stay exactly as
/// they were; every appended entry adopts an other-ledger key that was not
/// present, in its downgraded state; each such key is adopted; nothing else
/// appears.
pub open spec fn reuse_from_post<Res>(
    pre: Seq<(TemporalResourceKey, TemporalResourceState<Res>)>,
    post: Seq<(TemporalResourceKey, TemporalResourceState<Res>)>,
    other: Seq<(TemporalResourceKey, TemporalResourceState<Res>)>,
) -> bool {
    &&& keys_unique(post)
    &&& post.len() >= pre.len()
    &&& forall|j: int| 0 <= j < pre.len() ==> post[j] == pre[j]
    &&& forall|j: int|
        #![trigger post[j]]
        pre.len() <= j < post.len() ==> {
            &&& !map_has_key(pre, post[j].0@)
            &&& map_has_key(other, post[j].0@)
            &&& post[j] == (
                other[key_index(other, post[j].0@)].0,
                state_downgraded(other[key_index(other, post[j].0@)].1),
            )
        }
    &&& forall|t: int|
        0 <= t < other.len() && !map_has_key(pre, other[t].0@) ==> map_has_key(post, other[t].0@)
}

impl TemporalRenderGraphState {
    /// Adopts an old ledger's entries into this one, for keys not already
    /// present, downgrading any entry that was not at rest to a conservative
    /// "no known access" state. Physically reuses the old backing resources
    /// instead of reallocating them, without inheriting synchronization
    /// assumptions across the ledger identity change.
    #[verifier::loop_isolation(false)]
    pub fn reuse_from_resources<Res: Copy>(self_map: &mut ResMap<Res>, other: ResMap<Res>)
        requires
            keys_unique(old(self_map)@),
            keys_unique(other@),
        ensures
            reuse_from_post(old(self_map)@, final(self_map)@, other@),
    {
        let n = other.len();
        let mut t: usize = 0;
        while t < n
            invariant
                t <= n,
                n == other@.len(),
                keys_unique(self_map@),
                self_map@.len() >= old(self_map)@.len(),
                forall|j: int| 0 <= j < old(self_map)@.len() ==> self_map@[j] == old(self_map)@[j],
                forall|j: int|
                    #![trigger self_map@[j]]
                    old(self_map)@.len() <= j < self_map@.len() ==> {
                        &&& !map_has_key(old(self_map)@, self_map@[j].0@)
                        &&& map_has_key(other@, self_map@[j].0@)
                        &&& self_map@[j] == (
                            other@[key_index(other@, self_map@[j].0@)].0,
                            state_downgraded(other@[key_index(other@, self_map@[j].0@)].1),
                        )
                    },
                forall|u: int|
                    0 <= u < t && !map_has_key(old(self_map)@, other@[u].0@) ==> map_has_key(
                        self_map@,
                        other@[u].0@,
                    ),
            decreases n - t,
        {
            match find_key(self_map, &other[t].0) {
                None => {
                    proof {
                        assert(!map_has_key(old(self_map)@, other@[t as int].0@));
                    }
                    let ghost pre_push = self_map@;
                    let key = other[t].0.clone();
                    let state = downgrade_state(other[t].1);
                    self_map.push((key, state));
                    proof {
                        let m = self_map@;
                        let last = m.len() - 1;
                        assert(m[last] == (
                            other@[t as int].0,
                            state_downgraded(other@[t as int].1),
                        ));
                        lemma_key_index_of(other@, t as int);
                        assert(map_has_key(other@, m[last].0@));
                        assert(key_index(other@, m[last].0@) == t as int);
                        assert forall|u: int|
                            0 <= u < t + 1 && !map_has_key(old(self_map)@, other@[u].0@)
                                implies map_has_key(m, other@[u].0@) by {
                            if u < t {
                                let j = choose|j: int|
                                    0 <= j < pre_push.len() && pre_push[j].0@ == other@[u].0@;
                                assert(m[j].0@ == other@[u].0@);
                            } else {
                                assert(m[last].0@ == other@[u].0@);
                            }
                        }
                        assert forall|a: int, b: int|
                            0 <= a < b < m.len() implies m[a].0@ != m[b].0@ by {
                            if b < last {
                                assert(m[a] == pre_push[a] && m[b] == pre_push[b]);
                            } else {
                                assert(m[a] == pre_push[a]);
                                assert(!map_has_key(pre_push, other@[t as int].0@));
                            }
                        }
                    }
                },
                Some(found) => {
                    proof {
                        assert(self_map@[found as int].0@ == other@[t as int].0@);
                        assert forall|u: int|
                            0 <= u < t + 1 && !map_has_key(old(self_map)@, other@[u].0@)
                                implies map_has_key(self_map@, other@[u].0@) by {
                            if u == t {
                                assert(self_map@[found as int].0@ == other@[u].0@);
                            }
                        }
                    }
                },
            }
            t += 1;
        }
    }

    /// Adopts an old ledger whole, images and buffers alike.
    pub fn reuse_from(&mut self, temporal_rg_state: TemporalRenderGraphState)
        requires
            old(self).wf(),
            temporal_rg_state.wf(),
        ensures
            reuse_from_post(old(self).buffers@, final(self).buffers@, temporal_rg_state.buffers@),
            reuse_from_post(old(self).images@, final(self).images@, temporal_rg_state.images@),
    {
        let TemporalRenderGraphState { images, buffers } = temporal_rg_state;
        Self::reuse_from_resources(&mut self.buffers, buffers);
        Self::reuse_from_resources(&mut self.images, images);
    }
}

/// The raw graph handle of a claimed entry.
pub open spec fn imported_handle_raw<Res>(s: TemporalResourceState<Res>) -> int {
    match s {
        TemporalResourceState::Imported { handle, .. } => handle.raw as int,
        _ => arbitrary(),
    }
}

/// The raw export handle of an exported entry.
pub open spec fn exported_handle_raw<Res>(s: TemporalResourceState<Res>) -> int {
    match s {
        TemporalResourceState::Exported { handle, .. } => handle.raw as int,
        _ => arbitrary(),
    }
}

/// The recorded access type of a resting entry.
pub open spec fn inert_access<Res>(s: TemporalResourceState<Res>) -> AccessType {
    match s {
        TemporalResourceState::Inert { access_type, .. } => access_type,
        _ => arbitrary(),
    }
}

/// A recoverable fault of the ledger.
#[derive(Debug)]
pub enum TemporalError {
    /// The key was already claimed by this frame's graph: two passes may not
    /// alias one persistent resource unsynchronized within one frame.
    AlreadyClaimed { key: TemporalResourceKey },
}

/// One frame's pairing of the persistent ledger with a fresh render graph.
pub struct TemporalRenderGraph {
    pub rg: RenderGraph,
    pub device: Device,
    pub temporal_state: TemporalRenderGraphState,
}

impl TemporalRenderGraph {
    /// The graph is coherent and every claimed entry's handle names a real
    /// import of its kind.
    pub open spec fn wf(self) -> bool {
        &&& self.rg.wf()
        &&& self.temporal_state.wf()
        &&& forall|i: int|
            #![trigger self.temporal_state.images@[i]]
            0 <= i < self.temporal_state.images@.len() && self.temporal_state.images@[i].1
                is Imported ==> imported_handle_raw(self.temporal_state.images@[i].1)
                < self.rg.imported_images@.len()
        &&& forall|i: int|
            #![trigger self.temporal_state.buffers@[i]]
            0 <= i < self.temporal_state.buffers@.len() && self.temporal_state.buffers@[i].1
                is Imported ==> imported_handle_raw(self.temporal_state.buffers@[i].1)
                < self.rg.imported_buffers@.len()
    }

    /// Pairs a resting ledger with an empty graph for the next frame.
    pub fn new(state: TemporalRenderGraphState, device: Device) -> (r: Self)
        requires
            state.wf(),
            state.all_inert(),
        ensures
            r.wf(),
            r.rg.imported_images@.len() == 0,
            r.rg.imported_buffers@.len() == 0,
            r.rg.exported_images@.len() == 0,
            r.rg.exported_buffers@.len() == 0,
            r.device == device,
            r.temporal_state == state,
    {
        TemporalRenderGraph { rg: RenderGraph::new(), device, temporal_state: state }
    }

    /// The device this frame allocates from.
    pub fn device(&self) -> (r: &Device)
        ensures
            *r == self.device,
    {
        &self.device
    }
}

/// What claiming an image key does. Absent key: exactly one backing resource
/// is created and imported with no prior access, and the key is adopted as
/// claimed. Resting key: its resource is re-imported at the recorded access
/// type and the entry becomes claimed. Already claimed: the error names the
/// key and nothing changes.
pub open spec fn get_or_create_image_post(
    pre: TemporalRenderGraph,
    post: TemporalRenderGraph,
    key: TemporalResourceKey,
    desc: ImageDesc,
    r: Result<Handle<Image>, TemporalError>,
) -> bool {
    let m = pre.temporal_state.images@;
    let mp = post.temporal_state.images@;
    &&& post.temporal_state.buffers@ == pre.temporal_state.buffers@
    &&& post.rg.imported_buffers@ == pre.rg.imported_buffers@
    &&& post.rg.exported_images@ == pre.rg.exported_images@
    &&& post.rg.exported_buffers@ == pre.rg.exported_buffers@
    &&& if !map_has_key(m, key@) {
        let res = Image { id: pre.device.next_resource_id, desc };
        &&& post.device.next_resource_id == pre.device.next_resource_id + 1
        &&& r is Ok
        &&& r->Ok_0.raw == pre.rg.imported_images@.len()
        &&& post.rg.imported_images@ == pre.rg.imported_images@.push((res, AccessType::Nothing))
        &&& mp.len() == m.len() + 1
        &&& forall|j: int| 0 <= j < m.len() ==> mp[j] == m[j]
        &&& mp[m.len() as int].0@ == key@
        &&& mp[m.len() as int].1 is Imported
        &&& state_resource(mp[m.len() as int].1) == res
        &&& imported_handle_raw(mp[m.len() as int].1) == r->Ok_0.raw
    } else if m[key_index(m, key@)].1 is Inert {
        let i = key_index(m, key@);
        let res = state_resource(m[i].1);
        &&& post.device == pre.device
        &&& r is Ok
        &&& r->Ok_0.raw == pre.rg.imported_images@.len()
        &&& post.rg.imported_images@ == pre.rg.imported_images@.push((res, inert_access(m[i].1)))
        &&& mp.len() == m.len()
        &&& forall|j: int| 0 <= j < m.len() && j != i ==> mp[j] == m[j]
        &&& mp[i].0 == m[i].0
        &&& mp[i].1 is Imported
        &&& state_resource(mp[i].1) == res
        &&& imported_handle_raw(mp[i].1) == r->Ok_0.raw
    } else {
        &&& r matches Err(TemporalError::AlreadyClaimed { key: k }) && k@ == key@
        &&& post.device == pre.device
        &&& post.rg.imported_images@ == pre.rg.imported_images@
        &&& mp == m
    }
}

/// Buffer analogue of `get_or_create_image_post`.
pub open spec fn get_or_create_buffer_post(
    pre: TemporalRenderGraph,
    post: TemporalRenderGraph,
    key: TemporalResourceKey,
    desc: BufferDesc,
    r: Result<Handle<Buffer>, TemporalError>,
) -> bool {
    let m = pre.temporal_state.buffers@;
    let mp = post.temporal_state.buffers@;
    &&& post.temporal_state.images@ == pre.temporal_state.images@
    &&& post.rg.imported_images@ == pre.rg.imported_images@
    &&& post.rg.exported_images@ == pre.rg.exported_images@
    &&& post.rg.exported_buffers@ == pre.rg.exported_buffers@
    &&& if !map_has_key(m, key@) {
        let res = Buffer { id: pre.device.next_resource_id, desc };
        &&& post.device.next_resource_id == pre.device.next_resource_id + 1
        &&& r is Ok
        &&& r->Ok_0.raw == pre.rg.imported_buffers@.len()
        &&& post.rg.imported_buffers@ == pre.rg.imported_buffers@.push((res, AccessType::Nothing))
        &&& mp.len() == m.len() + 1
        &&& forall|j: int| 0 <= j < m.len() ==> mp[j] == m[j]
        &&& mp[m.len() as int].0@ == key@
        &&& mp[m.len() as int].1 is Imported
        &&& state_resource(mp[m.len() as int].1) == res
        &&& imported_handle_raw(mp[m.len() as int].1) == r->Ok_0.raw
    } else if m[key_index(m, key@)].1 is Inert {
        let i = key_index(m, key@);
        let res = state_resource(m[i].1);
        &&& post.device == pre.device
        &&& r is Ok
        &&& r->Ok_0.raw == pre.rg.imported_buffers@.len()
        &&& post.rg.imported_buffers@ == pre.rg.imported_buffers@.push((res, inert_access(m[i].1)))
        &&& mp.len() == m.len()
        &&& forall|j: int| 0 <= j < m.len() && j != i ==> mp[j] == m[j]
        &&& mp[i].0 == m[i].0
        &&& mp[i].1 is Imported
        &&& state_resource(mp[i].1) == res
        &&& imported_handle_raw(mp[i].1) == r->Ok_0.raw
    } else {
        &&& r matches Err(TemporalError::AlreadyClaimed { key: k }) && k@ == key@
        &&& post.device == pre.device
        &&& post.rg.imported_buffers@ == pre.rg.imported_buffers@
        &&& mp == m
    }
}

impl TemporalRenderGraph {
    /// Claims the image behind a stable key for this frame's graph, creating
    /// the backing image on first use of the key. Claiming a key twice in one
    /// frame fails with the key named; meeting an exported entry here is a
    /// caller protocol violation, excluded by precondition.
    pub fn get_or_create_temporal_image(
        &mut self,
        key: TemporalResourceKey,
        desc: ImageDesc,
    ) -> (r: Result<Handle<Image>, TemporalError>)
        requires
            old(self).wf(),
            old(self).device.next_resource_id < u64::MAX,
            forall|i: int|
                0 <= i < old(self).temporal_state.images@.len()
                    && old(self).temporal_state.images@[i].0@ == key@ ==> !(
                old(self).temporal_state.images@[i].1 is Exported),
        ensures
            final(self).wf(),
            get_or_create_image_post(*old(self), *final(self), key, desc, r),
    {
        match find_key(&self.temporal_state.images, &key) {
            Some(i) => {
                proof {
                    lemma_key_index_of(self.temporal_state.images@, i as int);
                }
                let entry_state = self.temporal_state.images[i].1;
                match entry_state {
                    TemporalResourceState::Inert { resource, access_type } => {
                        let handle = self.rg.import_image(resource, access_type);
                        let e = &mut self.temporal_state.images[i];
                        e.1 = TemporalResourceState::Imported { resource, handle };
                        Ok(handle)
                    },
                    TemporalResourceState::Imported { .. } => {
                        Err(TemporalError::AlreadyClaimed { key })
                    },
                    TemporalResourceState::Exported { .. } => {
                        proof {
                            assert(false);
                        }
                        unreached()
                    },
                }
            },
            None => {
                let resource = self.device.create_image(desc);
                let handle = self.rg.import_image(resource, AccessType::Nothing);
                self.temporal_state.images.push(
                    (key, TemporalResourceState::Imported { resource, handle }),
                );
                Ok(handle)
            },
        }
    }

    /// Buffer analogue of `get_or_create_temporal_image`.
    pub fn get_or_create_temporal_buffer(
        &mut self,
        key: TemporalResourceKey,
        desc: BufferDesc,
    ) -> (r: Result<Handle<Buffer>, TemporalError>)
        requires
            old(self).wf(),
            old(self).device.next_resource_id < u64::MAX,
            forall|i: int|
                0 <= i < old(self).temporal_state.buffers@.len()
                    && old(self).temporal_state.buffers@[i].0@ == key@ ==> !(
                old(self).temporal_state.buffers@[i].1 is Exported),
        ensures
            final(self).wf(),
            get_or_create_buffer_post(*old(self), *final(self), key, desc, r),
    {
        match find_key(&self.temporal_state.buffers, &key) {
            Some(i) => {
                proof {
                    lemma_key_index_of(self.temporal_state.buffers@, i as int);
                }
                let entry_state = self.temporal_state.buffers[i].1;
                match entry_state {
                    TemporalResourceState::Inert { resource, access_type } => {
                        let handle = self.rg.import_buffer(resource, access_type);
                        let e = &mut self.temporal_state.buffers[i];
                        e.1 = TemporalResourceState::Imported { resource, handle };
                        Ok(handle)
                    },
                    TemporalResourceState::Imported { .. } => {
                        Err(TemporalError::AlreadyClaimed { key })
                    },
                    TemporalResourceState::Exported { .. } => {
                        proof {
                            assert(false);
                        }
                        unreached()
                    },
                }
            },
            None => {
                let resource = self.device.create_buffer(desc);
                let handle = self.rg.import_buffer(resource, AccessType::Nothing);
                self.temporal_state.buffers.push(
                    (key, TemporalResourceState::Imported { resource, handle }),
                );
                Ok(handle)
            },
        }
    }
}

/// The one way render code asks for a persistent resource, shared by the
/// resource-description kinds.
pub trait GetOrCreateTemporal<Desc>: Sized {
    type Res;

    /// What a caller must establish before claiming.
    spec fn get_or_create_pre(self, key: TemporalResourceKey, desc: Desc) -> bool;

    /// What claiming does, stated by each implementation.
    spec fn get_or_create_post(
        self,
        post: Self,
        key: TemporalResourceKey,
        desc: Desc,
        r: Result<Handle<Self::Res>, TemporalError>,
    ) -> bool;

    fn get_or_create_temporal(&mut self, key: TemporalResourceKey, desc: Desc) -> (r: Result<
        Handle<Self::Res>,
        TemporalError,
    >)
        requires
            old(self).get_or_create_pre(key, desc),
        ensures
            old(self).get_or_create_post(*final(self), key, desc, r),
    ;
}

impl GetOrCreateTemporal<ImageDesc> for TemporalRenderGraph {
    type Res = Image;

    open spec fn get_or_create_pre(self, key: TemporalResourceKey, desc: ImageDesc) -> bool {
        &&& self.wf()
        &&& self.device.next_resource_id < u64::MAX
        &&& forall|i: int|
            0 <= i < self.temporal_state.images@.len() && self.temporal_state.images@[i].0@
                == key@ ==> !(self.temporal_state.images@[i].1 is Exported)
    }

    open spec fn get_or_create_post(
        self,
        post: Self,
        key: TemporalResourceKey,
        desc: ImageDesc,
        r: Result<Handle<Image>, TemporalError>,
    ) -> bool {
        &&& post.wf()
        &&& get_or_create_image_post(self, post, key, desc, r)
    }

    fn get_or_create_temporal(&mut self, key: TemporalResourceKey, desc: ImageDesc) -> (r: Result<
        Handle<Image>,
        TemporalError,
    >) {
        self.get_or_create_temporal_image(key, desc)
    }
}

impl GetOrCreateTemporal<BufferDesc> for TemporalRenderGraph {
    type Res = Buffer;

    open spec fn get_or_create_pre(self, key: TemporalResourceKey, desc: BufferDesc) -> bool {
        &&& self.wf()
        &&& self.device.next_resource_id < u64::MAX
        &&& forall|i: int|
            0 <= i < self.temporal_state.buffers@.len() && self.temporal_state.buffers@[i].0@
                == key@ ==> !(self.temporal_state.buffers@[i].1 is Exported)
    }

    open spec fn get_or_create_post(
        self,
        post: Self,
        key: TemporalResourceKey,
        desc: BufferDesc,
        r: Result<Handle<Buffer>, TemporalError>,
    ) -> bool {
        &&& post.wf()
        &&& get_or_create_buffer_post(self, post, key, desc, r)
    }

    fn get_or_create_temporal(&mut self, key: TemporalResourceKey, desc: BufferDesc) -> (r: Result<
        Handle<Buffer>,
        TemporalError,
    >) {
        self.get_or_create_temporal_buffer(key, desc)
    }
}

/// What exporting one table does: resting entries are untouched; each claimed
/// entry becomes exported under a fresh export slot that names its import
/// with a "no known access" intent; earlier export slots are untouched.
pub open spec fn export_resources_post<Res>(
    pre_map: Seq<(TemporalResourceKey, TemporalResourceState<Res>)>,
    post_map: Seq<(TemporalResourceKey, TemporalResourceState<Res>)>,
    pre_exports: Seq<(usize, AccessType)>,
    post_exports: Seq<(usize, AccessType)>,
) -> bool {
    &&& post_map.len() == pre_map.len()
    &&& post_exports.len() >= pre_exports.len()
    &&& forall|e: int| 0 <= e < pre_exports.len() ==> post_exports[e] == pre_exports[e]
    &&& forall|i: int|
        #![trigger post_map[i]]
        0 <= i < pre_map.len() ==> {
            &&& post_map[i].0 == pre_map[i].0
            &&& (pre_map[i].1 is Inert ==> post_map[i].1 == pre_map[i].1)
            &&& (pre_map[i].1 is Imported ==> {
                &&& post_map[i].1 is Exported
                &&& state_resource(post_map[i].1) == state_resource(pre_map[i].1)
                &&& pre_exports.len() <= exported_handle_raw(post_map[i].1) < post_exports.len()
                &&& post_exports[exported_handle_raw(post_map[i].1)] == (
                    imported_handle_raw(pre_map[i].1) as usize,
                    AccessType::Nothing,
                )
            })
        }
}

/// What retiring one table does: resting entries are untouched; each exported
/// entry returns to rest, keeping its resource, with the final access type
/// the executed graph reported for its export slot.
pub open spec fn retire_resources_post<Res>(
    states: Seq<(Res, AccessType)>,
    pre_map: Seq<(TemporalResourceKey, TemporalResourceState<Res>)>,
    post_map: Seq<(TemporalResourceKey, TemporalResourceState<Res>)>,
) -> bool {
    &&& post_map.len() == pre_map.len()
    &&& forall|i: int|
        #![trigger post_map[i]]
        0 <= i < pre_map.len() ==> {
            &&& post_map[i].0 == pre_map[i].0
            &&& (pre_map[i].1 is Inert ==> post_map[i].1 == pre_map[i].1)
            &&& (pre_map[i].1 is Exported ==> post_map[i].1 == (TemporalResourceState::Inert {
                resource: state_resource(pre_map[i].1),
                access_type: states[exported_handle_raw(pre_map[i].1)].1,
            }))
        }
}

impl TemporalRenderGraph {
    /// Converts every claimed entry of one table to exported, recording the
    /// export in the graph's export list for that kind. An entry already
    /// exported is a caller protocol violation, excluded by precondition.
    #[verifier::loop_isolation(false)]
    pub fn export_temporal_resources<Res: Copy>(
        imported_len: usize,
        exports: &mut Vec<(usize, AccessType)>,
        resources: &mut ResMap<Res>,
    )
        requires
            old(exports)@.len() <= usize::MAX - old(resources)@.len(),
            forall|i: int|
                0 <= i < old(resources)@.len() ==> !(old(resources)@[i].1 is Exported),
            forall|i: int|
                #![trigger old(resources)@[i]]
                0 <= i < old(resources)@.len() && old(resources)@[i].1 is Imported
                    ==> imported_handle_raw(old(resources)@[i].1) < imported_len,
            forall|e: int| 0 <= e < old(exports)@.len() ==> old(exports)@[e].0 < imported_len,
        ensures
            export_resources_post(
                old(resources)@,
                final(resources)@,
                old(exports)@,
                final(exports)@,
            ),
            forall|e: int| 0 <= e < final(exports)@.len() ==> final(exports)@[e].0 < imported_len,
    {
        let n = resources.len();
        let mut i: usize = 0;
        while i < n
            invariant
                i <= n,
                n == resources@.len(),
                exports@.len() >= old(exports)@.len(),
                exports@.len() <= old(exports)@.len() + i,
                forall|e: int| 0 <= e < old(exports)@.len() ==> exports@[e] == old(exports)@[e],
                forall|e: int| 0 <= e < exports@.len() ==> exports@[e].0 < imported_len,
                forall|j: int| i <= j < n ==> resources@[j] == old(resources)@[j],
                forall|j: int|
                    #![trigger resources@[j]]
                    0 <= j < i ==> {
                        &&& resources@[j].0 == old(resources)@[j].0
                        &&& (old(resources)@[j].1 is Inert ==> resources@[j].1 == old(
                            resources,
                        )@[j].1)
                        &&& (old(resources)@[j].1 is Imported ==> {
                            &&& resources@[j].1 is Exported
                            &&& state_resource(resources@[j].1) == state_resource(
                                old(resources)@[j].1,
                            )
                            &&& old(exports)@.len() <= exported_handle_raw(resources@[j].1)
                                < exports@.len()
                            &&& exports@[exported_handle_raw(resources@[j].1)] == (
                                imported_handle_raw(old(resources)@[j].1) as usize,
                                AccessType::Nothing,
                            )
                        })
                    },
            decreases n - i,
        {
            let s = resources[i].1;
            match s {
                TemporalResourceState::Inert { .. } => {},
                TemporalResourceState::Imported { resource, handle } => {
                    let eh_raw = exports.len();
                    exports.push((handle.raw, AccessType::Nothing));
                    let e = &mut resources[i];
                    e.1 = TemporalResourceState::Exported {
                        resource,
                        handle: ExportedHandle { raw: eh_raw, marker: PhantomData },
                    };
                },
                TemporalResourceState::Exported { .. } => {
                    proof {
                        assert(false);
                    }
                    unreached()
                },
            }
            i += 1;
        }
    }

    /// Closes the frame's claims: every claimed entry of either ledger is
    /// exported from the graph, and the ledger travels on beside the graph
    /// that will execute.
    pub fn export_temporal(self) -> (r: (RenderGraph, ExportedTemporalRenderGraphState))
        requires
            self.wf(),
            forall|i: int|
                0 <= i < self.temporal_state.images@.len() ==> !(self.temporal_state.images@[i].1
                    is Exported),
            forall|i: int|
                0 <= i < self.temporal_state.buffers@.len() ==> !(self.temporal_state.buffers@[i].1
                    is Exported),
            self.rg.exported_images@.len() <= usize::MAX - self.temporal_state.images@.len(),
            self.rg.exported_buffers@.len() <= usize::MAX - self.temporal_state.buffers@.len(),
        ensures
            r.0.wf(),
            r.0.imported_images@ == self.rg.imported_images@,
            r.0.imported_buffers@ == self.rg.imported_buffers@,
            export_resources_post(
                self.temporal_state.images@,
                r.1.0.images@,
                self.rg.exported_images@,
                r.0.exported_images@,
            ),
            export_resources_post(
                self.temporal_state.buffers@,
                r.1.0.buffers@,
                self.rg.exported_buffers@,
                r.0.exported_buffers@,
            ),
            r.1.0.wf(),
            forall|i: int|
                0 <= i < r.1.0.images@.len() && r.1.0.images@[i].1 is Exported
                    ==> exported_handle_raw(r.1.0.images@[i].1) < r.0.exported_images@.len(),
            forall|i: int|
                0 <= i < r.1.0.buffers@.len() && r.1.0.buffers@[i].1 is Exported
                    ==> exported_handle_raw(r.1.0.buffers@[i].1) < r.0.exported_buffers@.len(),
    {
        let mut rg = self.rg;
        let mut state = self.temporal_state;
        let ilen = rg.imported_images.len();
        Self::export_temporal_resources(ilen, &mut rg.exported_images, &mut state.images);
        let blen = rg.imported_buffers.len();
        Self::export_temporal_resources(blen, &mut rg.exported_buffers, &mut state.buffers);
        proof {
            assert forall|a: int, b: int|
                0 <= a < b < state.images@.len() implies state.images@[a].0@
                != state.images@[b].0@ by {
                assert(state.images@[a].0 == self.temporal_state.images@[a].0);
                assert(state.images@[b].0 == self.temporal_state.images@[b].0);
            }
            assert forall|a: int, b: int|
                0 <= a < b < state.buffers@.len() implies state.buffers@[a].0@
                != state.buffers@[b].0@ by {
                assert(state.buffers@[a].0 == self.temporal_state.buffers@[a].0);
                assert(state.buffers@[b].0 == self.temporal_state.buffers@[b].0);
            }
        }
        (rg, ExportedTemporalRenderGraphState(state))
    }
}

/// The ledger between frame close and graph retirement: every claim of the
/// frame has been exported, and the final access types are not yet known.
pub struct ExportedTemporalRenderGraphState(pub TemporalRenderGraphState);

impl ExportedTemporalRenderGraphState {
    /// Returns every exported entry of one table to rest, reading its final
    /// access type back from the executed graph. An entry still claimed is a
    /// caller protocol violation (export must precede retire), excluded by
    /// precondition.
    #[verifier::loop_isolation(false)]
    pub fn retire_temporal_resources<Res: Copy>(
        exported_states: &Vec<(Res, AccessType)>,
        resources: &mut ResMap<Res>,
    )
        requires
            forall|i: int|
                0 <= i < old(resources)@.len() ==> !(old(resources)@[i].1 is Imported),
            forall|i: int|
                #![trigger old(resources)@[i]]
                0 <= i < old(resources)@.len() && old(resources)@[i].1 is Exported
                    ==> exported_handle_raw(old(resources)@[i].1) < exported_states@.len(),
        ensures
            retire_resources_post(exported_states@, old(resources)@, final(resources)@),
    {
        let n = resources.len();
        let mut i: usize = 0;
        while i < n
            invariant
                i <= n,
                n == resources@.len(),
                forall|j: int| i <= j < n ==> resources@[j] == old(resources)@[j],
                forall|j: int|
                    #![trigger resources@[j]]
                    0 <= j < i ==> {
                        &&& resources@[j].0 == old(resources)@[j].0
                        &&& (old(resources)@[j].1 is Inert ==> resources@[j].1 == old(
                            resources,
                        )@[j].1)
                        &&& (old(resources)@[j].1 is Exported ==> resources@[j].1 == (
                        TemporalResourceState::Inert {
                            resource: state_resource(old(resources)@[j].1),
                            access_type: exported_states@[exported_handle_raw(
                                old(resources)@[j].1,
                            )].1,
                        }))
                    },
            decreases n - i,
        {
            let s = resources[i].1;
            match s {
                TemporalResourceState::Inert { .. } => {},
                TemporalResourceState::Imported { .. } => {
                    proof {
                        assert(false);
                    }
                    unreached()
                },
                TemporalResourceState::Exported { resource, handle } => {
                    let access_type = exported_states[handle.raw].1;
                    let e = &mut resources[i];
                    e.1 = TemporalResourceState::Inert { resource, access_type };
                },
            }
            i += 1;
        }
    }

    /// Folds the executed graph's final access types back into the ledger,
    /// leaving every key at rest for the next frame's claims.
    pub fn retire_temporal(self, rg: &RetiredRenderGraph) -> (r: TemporalRenderGraphState)
        requires
            self.0.wf(),
            forall|i: int| 0 <= i < self.0.images@.len() ==> !(self.0.images@[i].1 is Imported),
            forall|i: int| 0 <= i < self.0.buffers@.len() ==> !(self.0.buffers@[i].1 is Imported),
            forall|i: int|
                #![trigger self.0.images@[i]]
                0 <= i < self.0.images@.len() && self.0.images@[i].1 is Exported
                    ==> exported_handle_raw(self.0.images@[i].1) < rg.exported_images@.len(),
            forall|i: int|
                #![trigger self.0.buffers@[i]]
                0 <= i < self.0.buffers@.len() && self.0.buffers@[i].1 is Exported
                    ==> exported_handle_raw(self.0.buffers@[i].1) < rg.exported_buffers@.len(),
        ensures
            retire_resources_post(rg.exported_images@, self.0.images@, r.images@),
            retire_resources_post(rg.exported_buffers@, self.0.buffers@, r.buffers@),
            r.wf(),
            r.all_inert(),
    {
        let mut state = self.0;
        Self::retire_temporal_resources(&rg.exported_images, &mut state.images);
        Self::retire_temporal_resources(&rg.exported_buffers, &mut state.buffers);
        proof {
            assert forall|a: int, b: int|
                0 <= a < b < state.images@.len() implies state.images@[a].0@
                != state.images@[b].0@ by {
                assert(state.images@[a].0 == self.0.images@[a].0);
                assert(state.images@[b].0 == self.0.images@[b].0);
            }
            assert forall|a: int, b: int|
                0 <= a < b < state.buffers@.len() implies state.buffers@[a].0@
                != state.buffers@[b].0@ by {
                assert(state.buffers@[a].0 == self.0.buffers@[a].0);
                assert(state.buffers@[b].0 == self.0.buffers@[b].0);
            }
        }
        state
    }
}

/// Law: claiming a key a second time within the same frame fails with that
/// key named, creates no second backing resource, and leaves the frame
/// exactly as the first claim left it.
pub proof fn lemma_image_double_claim(
    s0: TemporalRenderGraph,
    s1: TemporalRenderGraph,
    s2: TemporalRenderGraph,
    k1: TemporalResourceKey,
    k2: TemporalResourceKey,
    d1: ImageDesc,
    d2: ImageDesc,
    r1: Result<Handle<Image>, TemporalError>,
    r2: Result<Handle<Image>, TemporalError>,
)
    requires
        s0.wf(),
        s1.wf(),
        k1@ == k2@,
        get_or_create_image_post(s0, s1, k1, d1, r1),
        get_or_create_image_post(s1, s2, k2, d2, r2),
        r1 is Ok,
    ensures
        r2 matches Err(TemporalError::AlreadyClaimed { key: k }) && k@ == k1@,
        s2.device == s1.device,
        s2.temporal_state.images@ == s1.temporal_state.images@,
        s2.rg.imported_images@ == s1.rg.imported_images@,
{
    let m0 = s0.temporal_state.images@;
    let m1 = s1.temporal_state.images@;
    let idx: int = if !map_has_key(m0, k1@) {
        m0.len() as int
    } else {
        key_index(m0, k1@)
    };
    assert(0 <= idx < m1.len() && m1[idx].0@ == k1@ && m1[idx].1 is Imported);
    assert(map_has_key(m1, k2@));
    lemma_key_index_of(m1, idx);
    assert(key_index(m1, k2@) == idx);
}

/// Law: claiming a buffer key a second time within the same frame fails with
/// that key named, creates no second backing resource, and leaves the frame
/// exactly as the first claim left it.
pub proof fn lemma_buffer_double_claim(
    s0: TemporalRenderGraph,
    s1: TemporalRenderGraph,
    s2: TemporalRenderGraph,
    k1: TemporalResourceKey,
    k2: TemporalResourceKey,
    d1: BufferDesc,
    d2: BufferDesc,
    r1: Result<Handle<Buffer>, TemporalError>,
    r2: Result<Handle<Buffer>, TemporalError>,
)
    requires
        s0.wf(),
        s1.wf(),
        k1@ == k2@,
        get_or_create_buffer_post(s0, s1, k1, d1, r1),
        get_or_create_buffer_post(s1, s2, k2, d2, r2),
        r1 is Ok,
    ensures
        r2 matches Err(TemporalError::AlreadyClaimed { key: k }) && k@ == k1@,
        s2.device == s1.device,
        s2.temporal_state.buffers@ == s1.temporal_state.buffers@,
        s2.rg.imported_buffers@ == s1.rg.imported_buffers@,
{
    let m0 = s0.temporal_state.buffers@;
    let m1 = s1.temporal_state.buffers@;
    let idx: int = if !map_has_key(m0, k1@) {
        m0.len() as int
    } else {
        key_index(m0, k1@)
    };
    assert(0 <= idx < m1.len() && m1[idx].0@ == k1@ && m1[idx].1 is Imported);
    assert(map_has_key(m1, k2@));
    lemma_key_index_of(m1, idx);
    assert(key_index(m1, k2@) == idx);
}

/// Law: exporting the whole ledger and retiring it against the executed
/// graph returns every claimed key to rest with the access type the graph's
/// retirement reported, and leaves a key that rested all along untouched by
/// both steps.
pub proof fn lemma_export_retire_roundtrip<Res>(
    m0: Seq<(TemporalResourceKey, TemporalResourceState<Res>)>,
    m1: Seq<(TemporalResourceKey, TemporalResourceState<Res>)>,
    m2: Seq<(TemporalResourceKey, TemporalResourceState<Res>)>,
    ex0: Seq<(usize, AccessType)>,
    ex1: Seq<(usize, AccessType)>,
    states: Seq<(Res, AccessType)>,
    i: int,
)
    requires
        forall|j: int| 0 <= j < m0.len() ==> !(m0[j].1 is Exported),
        export_resources_post(m0, m1, ex0, ex1),
        retire_resources_post(states, m1, m2),
        0 <= i < m0.len(),
    ensures
        m2.len() == m0.len(),
        m2[i].0 == m0[i].0,
        m0[i].1 is Inert ==> m2[i] == m0[i],
        m0[i].1 is Imported ==> m2[i].1 == (TemporalResourceState::Inert {
            resource: state_resource(m0[i].1),
            access_type: states[exported_handle_raw(m1[i].1)].1,
        }),
{
    assert(m1[i].0 == m0[i].0);
    if m0[i].1 is Inert {
        assert(m1[i].1 == m0[i].1);
        assert(m2[i].1 == m1[i].1);
        assert(m2[i] == m0[i]);
    }
}

} // verus!
