use vstd::prelude::*;

use crate::error::EditorError;

verus! {

/// The output tracks a clip contributes to.
#[derive(Clone, Copy, Debug, PartialEq, Eq, Structural)]
pub struct TrackMask {
    pub video: bool,
    pub audio: bool,
}

impl TrackMask {
    /// Both the video and the audio track.
    pub fn audio_video() -> (m: TrackMask)
        ensures
            m == (TrackMask { video: true, audio: true }),
    {
        TrackMask { video: true, audio: true }
    }
}

/// A timed placement of a media source on a layer.
#[derive(Clone, Debug)]
pub struct Clip {
    /// The file the clip's asset was resolved from.
    pub source: String,
    /// Offset of the clip from the timeline origin.
    pub start_ns: u64,
    /// Offset into the source at which the clip begins.
    pub in_point_ns: u64,
    /// Length of the clip on the timeline; never zero.
    pub duration_ns: u64,
    pub tracks: TrackMask,
}

/// Where `Timeline::add_clip` put a clip: its layer and its index there.
#[derive(Clone, Copy, Debug, PartialEq, Eq, Structural)]
pub struct ClipId {
    pub layer_priority: u32,
    pub index: usize,
}

/// A priority-ordered container of clips.
struct Layer {
    priority: u32,
    clips: Vec<Clip>,
}

/// The clip that `Timeline::add_clip` places for these arguments.
pub open spec fn placed_clip(
    source: String,
    start_ns: u64,
    duration_ns: u64,
    tracks: TrackMask,
) -> Clip {
    Clip { source, start_ns, in_point_ns: 0, duration_ns, tracks }
}

/// The clips of the layer at `priority`, or none where there is no such layer.
pub open spec fn clips_at(m: Map<u32, Seq<Clip>>, priority: u32) -> Seq<Clip> {
    if m.contains_key(priority) {
        m[priority]
    } else {
        Seq::empty()
    }
}

/// `m` with the layer at `priority` created where it was missing.
pub open spec fn with_layer(m: Map<u32, Seq<Clip>>, priority: u32) -> Map<u32, Seq<Clip>> {
    m.insert(priority, clips_at(m, priority))
}

/// `m` with `c` appended to the layer at `priority`, which is created where missing.
pub open spec fn with_clip(m: Map<u32, Seq<Clip>>, priority: u32, c: Clip) -> Map<u32, Seq<Clip>> {
    m.insert(priority, clips_at(m, priority).push(c))
}

/// How many layers of `m` have a priority below `priority`: the place of that
/// priority among layers numbered without gaps.
pub open spec fn layer_rank(m: Map<u32, Seq<Clip>>, priority: u32) -> nat {
    m.dom().filter(|q: u32| q < priority).len()
}

/// The edit timeline: layers keyed by priority, each an ordered list of clips.
/// Its view maps each layer's priority to the layer's clips.
pub struct Timeline {
    layers: Vec<Layer>,
    model: Ghost<Map<u32, Seq<Clip>>>,
}

impl View for Timeline {
    type V = Map<u32, Seq<Clip>>;

    closed spec fn view(&self) -> Map<u32, Seq<Clip>> {
        self.model@
    }
}

impl Timeline {
    /// The layers are held in ascending priority order, one per priority of the view.
    pub closed spec fn wf(&self) -> bool {
        &&& forall|i: int, j: int|
            0 <= i < j < self.layers@.len() ==> self.layers@[i].priority
                < self.layers@[j].priority
        &&& forall|i: int|
            0 <= i < self.layers@.len() ==> {
                &&& self.model@.contains_key(#[trigger] self.layers@[i].priority)
                &&& self.model@[self.layers@[i].priority] == self.layers@[i].clips@
            }
        &&& forall|p: u32| #[trigger]
            self.model@.contains_key(p) ==> exists|i: int|
                0 <= i < self.layers@.len() && self.layers@[i].priority == p
        &&& self.model@.dom().finite()
        &&& self.model@.dom().len() == self.layers@.len()
    }

    /// An empty timeline, with no layers.
    pub fn new() -> (t: Timeline)
        ensures
            t.wf(),
            t@ == Map::<u32, Seq<Clip>>::empty(),
    {
        Timeline { layers: Vec::new(), model: Ghost(Map::empty()) }
    }

    /// The number of layers.
    pub fn layer_count(&self) -> (n: usize)
        requires
            self.wf(),
        ensures
            n == self@.dom().len(),
    {
        self.layers.len()
    }

    /// The priorities of the layers, in ascending order.
    pub fn priorities(&self) -> (r: Vec<u32>)
        requires
            self.wf(),
        ensures
            forall|i: int, j: int| 0 <= i < j < r@.len() ==> r@[i] < r@[j],
            forall|p: u32| self@.contains_key(p) <==> r@.contains(p),
    {
        let mut r: Vec<u32> = Vec::new();
        let mut i: usize = 0;
        while i < self.layers.len()
            invariant
                self.wf(),
                i <= self.layers@.len(),
                r@.len() == i,
                forall|k: int| 0 <= k < i ==> r@[k] == self.layers@[k].priority,
            decreases self.layers@.len() - i,
        {
            r.push(self.layers[i].priority);
            i = i + 1;
        }
        assert forall|p: u32| self@.contains_key(p) <==> r@.contains(p) by {
            if self@.contains_key(p) {
                let k = choose|k: int| 0 <= k < self.layers@.len() && self.layers@[k].priority == p;
                assert(r@[k] == p);
            }
            if r@.contains(p) {
                let k = choose|k: int| 0 <= k < r@.len() && r@[k] == p;
                assert(self.model@.contains_key(self.layers@[k].priority));
            }
        }
        r
    }

    /// The clips of the layer at `priority`, in the order they were added;
    /// `None` where there is no such layer.
    pub fn layer_clips(&self, priority: u32) -> (r: Option<&Vec<Clip>>)
        requires
            self.wf(),
        ensures
            r is None <==> !self@.contains_key(priority),
            r matches Some(v) ==> v@ == self@[priority],
    {
        let (found, i) = self.find_layer(priority);
        if found {
            Some(&self.layers[i].clips)
        } else {
            None
        }
    }

    /// Where the layer at `priority` is, or where it would be inserted.
    fn find_layer(&self, priority: u32) -> (r: (bool, usize))
        requires
            self.wf(),
        ensures
            r.1 <= self.layers@.len(),
            forall|k: int| 0 <= k < r.1 ==> self.layers@[k].priority < priority,
            r.0 ==> r.1 < self.layers@.len() && self.layers@[r.1 as int].priority == priority,
            !r.0 ==> r.1 < self.layers@.len() ==> self.layers@[r.1 as int].priority > priority,
            r.0 <==> self@.contains_key(priority),
    {
        let mut i: usize = 0;
        while i < self.layers.len() && self.layers[i].priority < priority
            invariant
                self.wf(),
                i <= self.layers@.len(),
                forall|k: int| 0 <= k < i ==> self.layers@[k].priority < priority,
            decreases self.layers@.len() - i,
        {
            i = i + 1;
        }
        let found = i < self.layers.len() && self.layers[i].priority == priority;
        proof {
            if self@.contains_key(priority) {
                let k = choose|k: int|
                    0 <= k < self.layers@.len() && self.layers@[k].priority == priority;
                if k > i {
                    assert(self.layers@[i as int].priority < self.layers@[k].priority);
                }
                assert(found);
            }
            if found {
                assert(self.model@.contains_key(self.layers@[i as int].priority));
            }
        }
        (found, i)
    }

    /// How many layers have a priority below `priority`.
    pub fn layer_position(&self, priority: u32) -> (r: usize)
        requires
            self.wf(),
        ensures
            r == layer_rank(self@, priority),
    {
        let (_, i) = self.find_layer(priority);
        proof {
            let ps = self.layers@.subrange(0, i as int).map_values(|l: Layer| l.priority);
            let below = self@.dom().filter(|q: u32| q < priority);
            assert(ps.no_duplicates()) by {
                assert forall|a: int, b: int| 0 <= a < ps.len() && 0 <= b < ps.len() && a != b
                    implies ps[a] != ps[b] by {
                    if a < b {
                        assert(self.layers@[a].priority < self.layers@[b].priority);
                    } else {
                        assert(self.layers@[b].priority < self.layers@[a].priority);
                    }
                }
            }
            assert forall|q: u32| ps.to_set().contains(q) <==> below.contains(q) by {
                if ps.to_set().contains(q) {
                    let k = choose|k: int| 0 <= k < ps.len() && ps[k] == q;
                    assert(self.model@.contains_key(self.layers@[k].priority));
                }
                if below.contains(q) {
                    assert(self.model@.contains_key(q));
                    let k = choose|k: int|
                        0 <= k < self.layers@.len() && self.layers@[k].priority == q;
                    if k >= i {
                        if k > i {
                            assert(self.layers@[i as int].priority < self.layers@[k].priority);
                        }
                    }
                    assert(ps[k] == q);
                }
            }
            assert(ps.to_set() =~= below);
            ps.unique_seq_to_set();
        }
        i
    }

    /// The index of the layer at `priority`, which is created empty where missing.
    fn layer_index(&mut self, priority: u32) -> (i: usize)
        requires
            old(self).wf(),
        ensures
            final(self).wf(),
            final(self)@ == with_layer(old(self)@, priority),
            i < final(self).layers@.len(),
            final(self).layers@[i as int].priority == priority,
    {
        let (found, i) = self.find_layer(priority);
        if found {
            proof {
                assert(self@ =~= with_layer(self@, priority));
            }
            return i;
        }
        let ghost old_layers = self.layers@;
        let ghost old_model = self.model@;
        self.layers.insert(i, Layer { priority, clips: Vec::new() });
        self.model = Ghost(old_model.insert(priority, Seq::empty()));
        proof {
            let layers = self.layers@;
            assert forall|a: int, b: int| 0 <= a < b < layers.len() implies layers[a].priority
                < layers[b].priority by {
                if b < i {
                } else if b == i {
                } else if a < i {
                    assert(old_layers[a].priority < old_layers[b - 1].priority || a == b - 1);
                } else if a == i {
                    assert(old_layers[b - 1].priority > priority || b - 1 == i);
                    if b - 1 > i {
                        assert(old_layers[i as int].priority < old_layers[b - 1].priority);
                    }
                } else {
                    assert(old_layers[a - 1].priority < old_layers[b - 1].priority);
                }
            }
            assert forall|k: int| 0 <= k < layers.len() implies {
                &&& self.model@.contains_key(#[trigger] layers[k].priority)
                &&& self.model@[layers[k].priority] == layers[k].clips@
            } by {
                if k < i {
                    assert(old_model.contains_key(old_layers[k].priority));
                } else if k > i {
                    assert(old_model.contains_key(old_layers[k - 1].priority));
                }
            }
            assert forall|p: u32| #[trigger]
                self.model@.contains_key(p) implies exists|k: int|
                    0 <= k < layers.len() && layers[k].priority == p by {
                if p == priority {
                    assert(layers[i as int].priority == p);
                } else {
                    assert(old_model.contains_key(p));
                    let k = choose|k: int|
                        0 <= k < old_layers.len() && old_layers[k].priority == p;
                    if k < i {
                        assert(layers[k].priority == p);
                    } else {
                        assert(layers[k + 1].priority == p);
                    }
                }
            }
            assert(self@ =~= with_layer(old_model, priority));
        }
        i
    }

    /// Creates an empty layer at `priority` unless one is there already.
    pub fn get_or_create_layer(&mut self, priority: u32)
        requires
            old(self).wf(),
        ensures
            final(self).wf(),
            final(self)@ == with_layer(old(self)@, priority),
    {
        self.layer_index(priority);
    }

    /// Appends a clip of `source` to the layer at `priority`, creating the
    /// layer where missing. A zero duration is refused and changes nothing.
    /// Overlap with other clips is allowed.
    pub fn add_clip(
        &mut self,
        priority: u32,
        source: String,
        start_ns: u64,
        duration_ns: u64,
        tracks: TrackMask,
    ) -> (r: Result<ClipId, EditorError>)
        requires
            old(self).wf(),
        ensures
            final(self).wf(),
            duration_ns == 0 ==> r == Err::<ClipId, EditorError>(EditorError::InvalidPlacement)
                && final(self)@ == old(self)@,
            duration_ns > 0 ==> r == Ok::<ClipId, EditorError>(
                ClipId { layer_priority: priority, index: clips_at(old(self)@, priority).len() as usize },
            ) && final(self)@ == with_clip(
                old(self)@,
                priority,
                placed_clip(source, start_ns, duration_ns, tracks),
            ),
    {
        if duration_ns == 0 {
            return Err(EditorError::InvalidPlacement);
        }
        let ghost before = self@;
        let i = self.layer_index(priority);
        let clip = Clip { source, start_ns, in_point_ns: 0, duration_ns, tracks };
        let ghost mid_layers = self.layers@;
        let ghost mid_model = self.model@;
        let mut layer = self.layers.remove(i);
        let index = layer.clips.len();
        layer.clips.push(clip);
        self.layers.insert(i, layer);
        self.model = Ghost(mid_model.insert(priority, mid_model[priority].push(clip)));
        proof {
            let layers = self.layers@;
            assert(layers =~= mid_layers.update(i as int, layers[i as int]));
            assert forall|k: int| 0 <= k < layers.len() implies {
                &&& self.model@.contains_key(#[trigger] layers[k].priority)
                &&& self.model@[layers[k].priority] == layers[k].clips@
            } by {
                if k != i {
                    assert(mid_model.contains_key(mid_layers[k].priority));
                    assert(mid_layers[k].priority != priority);
                }
            }
            assert forall|p: u32| #[trigger]
                self.model@.contains_key(p) implies exists|k: int|
                    0 <= k < layers.len() && layers[k].priority == p by {
                if p == priority {
                    assert(layers[i as int].priority == p);
                } else {
                    assert(mid_model.contains_key(p));
                    let k = choose|k: int|
                        0 <= k < mid_layers.len() && mid_layers[k].priority == p;
                    assert(layers[k].priority == p);
                }
            }
            assert(self.model@.dom() =~= mid_model.dom());
            assert(self@ =~= with_clip(before, priority, clip));
        }
        Ok(ClipId { layer_priority: priority, index })
    }
}

} // verus!
