//! Paint lists: the shapes recorded for each layer during one pass.

use vstd::prelude::*;
use crate::geom::Rect;
use crate::id::{as_map, find, lemma_as_map_push, lemma_as_map_update, lemma_find_skip, Id};
use crate::shape::Shape;

verus! {

/// The coarse drawing order of a layer, back to front.
#[derive(Clone, Copy, Debug, PartialEq, Eq, Hash, Structural)]
pub enum Order {
    Background,
    Middle,
    Foreground,
    Tooltip,
    Debug,
}

/// The key under which shapes are collected and later composited.
#[derive(Clone, Copy, Debug, PartialEq, Eq, Hash, Structural)]
pub struct LayerId {
    pub order: Order,
    pub id: Id,
}

impl LayerId {
    /// The layer of the given order and identifier.
    pub open spec fn spec_new(order: Order, id: Id) -> LayerId {
        LayerId { order, id }
    }

    /// The layer of the given order and identifier.
    #[verifier::when_used_as_spec(spec_new)]
    pub fn new(order: Order, id: Id) -> (l: LayerId)
        ensures
            l == LayerId::spec_new(order, id),
    {
        LayerId { order, id }
    }

    /// The layer behind everything else, on which top-level panels paint.
    pub open spec fn spec_background() -> LayerId {
        LayerId { order: Order::Background, id: Id { key: 0, path: 0 } }
    }

    /// The layer behind everything else, on which top-level panels paint.
    #[verifier::when_used_as_spec(spec_background)]
    pub fn background() -> (l: LayerId)
        ensures
            l == LayerId::spec_background(),
    {
        LayerId { order: Order::Background, id: Id::new(0) }
    }
}

/// A shape together with the rectangle outside which it is not shown.
#[derive(Debug, PartialEq, Eq)]
pub struct ClippedShape {
    pub clip_rect: Rect,
    pub shape: Shape,
}

/// The position of a shape in its paint list. It is valid for the pass in
/// which it was handed out.
#[derive(Clone, Copy, Debug, PartialEq, Eq, Structural)]
pub struct ShapeIdx(pub usize);

/// The shapes of one layer, in the order in which they were added: later
/// shapes are drawn over earlier ones.
#[derive(Debug, PartialEq, Eq)]
pub struct PaintList {
    pub shapes: Vec<ClippedShape>,
}

/// Each shape of `shapes` paired with `clip_rect`, in order.
pub open spec fn clipped(clip_rect: Rect, shapes: Seq<Shape>) -> Seq<ClippedShape> {
    Seq::new(shapes.len(), |i: int| ClippedShape { clip_rect, shape: shapes[i] })
}

impl View for PaintList {
    type V = Seq<ClippedShape>;

    open spec fn view(&self) -> Seq<ClippedShape> {
        self.shapes@
    }
}

impl PaintList {
    /// The empty list.
    pub fn new() -> (list: PaintList)
        ensures
            list@ == Seq::<ClippedShape>::empty(),
    {
        PaintList { shapes: Vec::new() }
    }

    /// Whether no shape has been added.
    pub fn is_empty(&self) -> (r: bool)
        ensures
            r == (self@.len() == 0),
    {
        self.shapes.len() == 0
    }

    /// The number of shapes.
    pub fn len(&self) -> (n: usize)
        ensures
            n == self@.len(),
    {
        self.shapes.len()
    }

    /// Appends a shape and returns its position.
    pub fn add(&mut self, clip_rect: Rect, shape: Shape) -> (idx: ShapeIdx)
        ensures
            final(self)@ == old(self)@.push(ClippedShape { clip_rect, shape }),
            idx.0 == old(self)@.len(),
    {
        let idx = ShapeIdx(self.shapes.len());
        self.shapes.push(ClippedShape { clip_rect, shape });
        idx
    }

    /// Appends many shapes, as repeated calls of `add` would.
    pub fn extend(&mut self, clip_rect: Rect, shapes: Vec<Shape>)
        ensures
            final(self)@ == old(self)@ + clipped(clip_rect, shapes@),
    {
        let mut shapes = shapes;
        let ghost given = shapes@;
        let n: usize = shapes.len();
        let mut i: usize = 0;
        while i < n
            invariant
                i <= n,
                n == given.len(),
                shapes@.len() == n,
                forall|j: int| i <= j < n ==> shapes@[j] == given[j],
                self@ == old(self)@ + clipped(clip_rect, given.subrange(0, i as int)),
            decreases n - i,
        {
            let mut shape = Shape::Noop;
            core::mem::swap(&mut shapes[i], &mut shape);
            self.shapes.push(ClippedShape { clip_rect, shape });
            proof {
                assert(clipped(clip_rect, given.subrange(0, i + 1)) =~= clipped(
                    clip_rect,
                    given.subrange(0, i as int),
                ).push(ClippedShape { clip_rect, shape: given[i as int] }));
                assert(self@ =~= old(self)@ + clipped(clip_rect, given.subrange(0, i + 1)));
            }
            i += 1;
        }
        proof {
            assert(given.subrange(0, n as int) =~= given);
        }
    }

    /// Replaces the shape at `idx`. A position that the list does not have is
    /// ignored.
    pub fn set(&mut self, idx: ShapeIdx, clip_rect: Rect, shape: Shape)
        ensures
            idx.0 < old(self)@.len() ==> final(self)@ == old(self)@.update(
                idx.0 as int,
                ClippedShape { clip_rect, shape },
            ),
            idx.0 >= old(self)@.len() ==> final(self)@ == old(self)@,
    {
        if self.shapes.len() <= idx.0 {
            return ;
        }
        self.shapes[idx.0] = ClippedShape { clip_rect, shape };
    }
}

/// The paint lists of all layers, each created when it is first painted to.
#[derive(Debug, PartialEq, Eq)]
pub struct GraphicLayers {
    pub layers: Vec<(LayerId, PaintList)>,
}

/// The shapes recorded for `layer` in a map of paint lists; none if the
/// layer was never painted to.
pub open spec fn shapes_of(lists: Map<LayerId, Seq<ClippedShape>>, layer: LayerId) -> Seq<ClippedShape> {
    if lists.dom().contains(layer) {
        lists[layer]
    } else {
        Seq::empty()
    }
}

impl View for GraphicLayers {
    type V = Map<LayerId, Seq<ClippedShape>>;

    open spec fn view(&self) -> Map<LayerId, Seq<ClippedShape>> {
        as_map(self.layers@).map_values(|list: PaintList| list@)
    }
}

impl GraphicLayers {
    /// No layers.
    pub fn new() -> (g: GraphicLayers)
        ensures
            g@ == Map::<LayerId, Seq<ClippedShape>>::empty(),
    {
        let g = GraphicLayers { layers: Vec::new() };
        proof {
            assert(g@ =~= Map::<LayerId, Seq<ClippedShape>>::empty());
        }
        g
    }

    /// The index of the first list kept for `layer`.
    fn position(&self, layer: LayerId) -> (at: Option<usize>)
        ensures
            match at {
                Some(i) => i < self.layers.len() && self.layers[i as int].0 == layer && find(
                    self.layers@,
                    layer,
                ) == Some(self.layers[i as int].1) && forall|j: int|
                    0 <= j < i ==> self.layers[j].0 != layer,
                None => find(self.layers@, layer).is_none() && forall|j: int|
                    0 <= j < self.layers.len() ==> self.layers[j].0 != layer,
            },
    {
        let mut i: usize = 0;
        while i < self.layers.len()
            invariant
                i <= self.layers.len(),
                forall|j: int| 0 <= j < i ==> self.layers[j].0 != layer,
            decreases self.layers.len() - i,
        {
            if self.layers[i].0 == layer {
                proof {
                    lemma_find_skip(self.layers@, layer, i as int);
                }
                return Some(i);
            }
            i += 1;
        }
        proof {
            lemma_find_skip(self.layers@, layer, self.layers.len() as int);
        }
        None
    }

    /// The list kept for `layer`, if it was painted to.
    pub fn get(&self, layer: LayerId) -> (list: Option<&PaintList>)
        ensures
            match list {
                Some(l) => self@.dom().contains(layer) && l@ == self@[layer],
                None => !self@.dom().contains(layer),
            },
    {
        match self.position(layer) {
            Some(i) => Some(&self.layers[i].1),
            None => None,
        }
    }

    /// The index of the list of `layer`, which is created empty if missing.
    fn entry(&mut self, layer: LayerId) -> (i: usize)
        ensures
            i < final(self).layers.len(),
            final(self).layers[i as int].0 == layer,
            forall|j: int| 0 <= j < i ==> final(self).layers[j].0 != layer,
            final(self).layers[i as int].1@ == shapes_of(old(self)@, layer),
            final(self)@ == old(self)@.insert(layer, shapes_of(old(self)@, layer)),
    {
        match self.position(layer) {
            Some(i) => {
                proof {
                    assert(self@ =~= self@.insert(layer, shapes_of(self@, layer)));
                }
                i
            },
            None => {
                let i: usize = self.layers.len();
                let list = PaintList::new();
                proof {
                    lemma_as_map_push(self.layers@, layer, list);
                    assert(as_map(self.layers@).insert(layer, list).map_values(|l: PaintList| l@)
                        =~= self@.insert(layer, shapes_of(self@, layer)));
                }
                self.layers.push((layer, list));
                i
            },
        }
    }

    /// What the view becomes when the list at the first entry of its layer
    /// is replaced.
    proof fn lemma_replace(before: Seq<(LayerId, PaintList)>, at: int, list: PaintList)
        requires
            0 <= at < before.len(),
            forall|j: int| 0 <= j < at ==> before[j].0 != before[at].0,
        ensures
            as_map(before.update(at, (before[at].0, list))).map_values(|l: PaintList| l@) == as_map(
                before,
            ).map_values(|l: PaintList| l@).insert(before[at].0, list@),
    {
        lemma_as_map_update(before, at, list);
        assert(as_map(before).insert(before[at].0, list).map_values(|l: PaintList| l@) =~= as_map(
            before,
        ).map_values(|l: PaintList| l@).insert(before[at].0, list@));
    }

    /// Appends a shape to the list of `layer` and returns its position there.
    pub fn add(&mut self, layer: LayerId, clip_rect: Rect, shape: Shape) -> (idx: ShapeIdx)
        ensures
            final(self)@ == old(self)@.insert(
                layer,
                shapes_of(old(self)@, layer).push(ClippedShape { clip_rect, shape }),
            ),
            idx.0 == shapes_of(old(self)@, layer).len(),
    {
        let i = self.entry(layer);
        let ghost mid = self.layers@;
        let idx = self.layers[i].1.add(clip_rect, shape);
        proof {
            assert(self.layers@ =~= mid.update(i as int, (layer, self.layers[i as int].1)));
            Self::lemma_replace(mid, i as int, self.layers[i as int].1);
            assert(self@ =~= old(self)@.insert(
                layer,
                shapes_of(old(self)@, layer).push(ClippedShape { clip_rect, shape }),
            ));
        }
        idx
    }

    /// Appends many shapes to the list of `layer`.
    pub fn extend(&mut self, layer: LayerId, clip_rect: Rect, shapes: Vec<Shape>)
        ensures
            final(self)@ == old(self)@.insert(
                layer,
                shapes_of(old(self)@, layer) + clipped(clip_rect, shapes@),
            ),
    {
        let i = self.entry(layer);
        let ghost mid = self.layers@;
        self.layers[i].1.extend(clip_rect, shapes);
        proof {
            assert(self.layers@ =~= mid.update(i as int, (layer, self.layers[i as int].1)));
            Self::lemma_replace(mid, i as int, self.layers[i as int].1);
            assert(self@ =~= old(self)@.insert(
                layer,
                shapes_of(old(self)@, layer) + clipped(clip_rect, shapes@),
            ));
        }
    }

    /// The list of a layer after the shape at `idx` is replaced. A position
    /// that the list does not have leaves it as it is.
    pub open spec fn replaced(
        list: Seq<ClippedShape>,
        idx: ShapeIdx,
        clip_rect: Rect,
        shape: Shape,
    ) -> Seq<ClippedShape> {
        if idx.0 < list.len() {
            list.update(idx.0 as int, ClippedShape { clip_rect, shape })
        } else {
            list
        }
    }

    /// Replaces the shape at `idx` in the list of `layer`. A position that
    /// the list does not have is ignored.
    pub fn set(&mut self, layer: LayerId, idx: ShapeIdx, clip_rect: Rect, shape: Shape)
        ensures
            final(self)@ == old(self)@.insert(
                layer,
                Self::replaced(shapes_of(old(self)@, layer), idx, clip_rect, shape),
            ),
    {
        let i = self.entry(layer);
        let ghost mid = self.layers@;
        self.layers[i].1.set(idx, clip_rect, shape);
        proof {
            assert(self.layers@ =~= mid.update(i as int, (layer, self.layers[i as int].1)));
            Self::lemma_replace(mid, i as int, self.layers[i as int].1);
            assert(self@ =~= old(self)@.insert(
                layer,
                Self::replaced(shapes_of(old(self)@, layer), idx, clip_rect, shape),
            ));
        }
    }
}

} // verus!
