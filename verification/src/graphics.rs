//! The shapes painted during a frame, layer by layer.

use vstd::prelude::*;
use crate::ids::{LayerId, Order};
use epaint::ClippedShape;

verus! {

/// The shapes of one layer, in the order they were painted.
pub struct PaintList {
    pub layer_id: LayerId,
    pub shapes: Vec<ClippedShape>,
}

/// The paint lists of all layers that were painted on, in the order the
/// layers were first painted on.
pub struct GraphicLayers {
    pub lists: Vec<PaintList>,
}

/// Which layers to gather the shapes of.
#[derive(Clone, Copy, Debug, PartialEq, Eq, Structural)]
pub enum Pick {
    /// One layer.
    Layer(LayerId),
    /// All layers of one stacking class.
    Class(Order),
}

impl Pick {
    pub open spec fn spec_picks(self, layer: LayerId) -> bool {
        match self {
            Pick::Layer(l) => layer == l,
            Pick::Class(c) => layer.order == c,
        }
    }

    /// Whether `layer` is among the picked.
    #[verifier::when_used_as_spec(spec_picks)]
    pub fn picks(self, layer: LayerId) -> (picked: bool)
        ensures
            picked == self.spec_picks(layer),
    {
        match self {
            Pick::Layer(l) => layer == l,
            Pick::Class(c) => layer.order == c,
        }
    }
}

/// The shapes of the picked layers, list after list.
pub open spec fn gathered(m: Seq<(LayerId, Seq<ClippedShape>)>, pick: Pick) -> Seq<ClippedShape>
    decreases m.len(),
{
    if m.len() == 0 {
        Seq::empty()
    } else if pick.spec_picks(m.last().0) {
        gathered(m.drop_last(), pick) + m.last().1
    } else {
        gathered(m.drop_last(), pick)
    }
}

/// The lists with those of the picked layers emptied.
pub open spec fn emptied(m: Seq<(LayerId, Seq<ClippedShape>)>, pick: Pick) -> Seq<
    (LayerId, Seq<ClippedShape>),
> {
    Seq::new(
        m.len(),
        |i: int| if pick.spec_picks(m[i].0) { (m[i].0, Seq::<ClippedShape>::empty()) } else { m[i] },
    )
}

/// The shapes of the stacking class `class` in paint order: first those of
/// the layers in `layers` that belong to the class, layer after layer in that
/// order, then those of the remaining layers of the class.
pub open spec fn class_shapes(
    m: Seq<(LayerId, Seq<ClippedShape>)>,
    class: Order,
    layers: Seq<LayerId>,
) -> Seq<ClippedShape>
    decreases layers.len(),
{
    if layers.len() == 0 {
        gathered(m, Pick::Class(class))
    } else if layers.first().order == class {
        gathered(m, Pick::Layer(layers.first())) + class_shapes(
            emptied(m, Pick::Layer(layers.first())),
            class,
            layers.drop_first(),
        )
    } else {
        class_shapes(m, class, layers.drop_first())
    }
}

/// The lists once the shapes of the stacking class `class` are taken out.
pub open spec fn without_class(
    m: Seq<(LayerId, Seq<ClippedShape>)>,
    class: Order,
    layers: Seq<LayerId>,
) -> Seq<(LayerId, Seq<ClippedShape>)>
    decreases layers.len(),
{
    if layers.len() == 0 {
        emptied(m, Pick::Class(class))
    } else if layers.first().order == class {
        without_class(emptied(m, Pick::Layer(layers.first())), class, layers.drop_first())
    } else {
        without_class(m, class, layers.drop_first())
    }
}

/// All shapes in paint order: the stacking classes from back to front, and
/// within each class the layers as `layers` orders them.
pub open spec fn paint_order(m: Seq<(LayerId, Seq<ClippedShape>)>, layers: Seq<LayerId>) -> Seq<
    ClippedShape,
> {
    let m1 = without_class(m, Order::Background, layers);
    let m2 = without_class(m1, Order::Middle, layers);
    let m3 = without_class(m2, Order::Foreground, layers);
    let m4 = without_class(m3, Order::Tooltip, layers);
    class_shapes(m, Order::Background, layers) + class_shapes(m1, Order::Middle, layers)
        + class_shapes(m2, Order::Foreground, layers) + class_shapes(m3, Order::Tooltip, layers)
        + class_shapes(m4, Order::Debug, layers)
}

/// The index of the first list on `layer`, or the number of lists.
pub open spec fn list_index(m: Seq<(LayerId, Seq<ClippedShape>)>, layer: LayerId) -> int
    decreases m.len(),
{
    if m.len() == 0 {
        0
    } else if m.first().0 == layer {
        0
    } else {
        1 + list_index(m.drop_first(), layer)
    }
}

/// The lists with `shape` added to the first list on `layer`, or to a new
/// list behind all others where there is none.
pub open spec fn with_shape(
    m: Seq<(LayerId, Seq<ClippedShape>)>,
    layer: LayerId,
    shape: ClippedShape,
) -> Seq<(LayerId, Seq<ClippedShape>)> {
    let i = list_index(m, layer);
    if 0 <= i < m.len() {
        m.update(i, (layer, m[i].1.push(shape)))
    } else {
        m.push((layer, seq![shape]))
    }
}

proof fn lemma_list_index_is(m: Seq<(LayerId, Seq<ClippedShape>)>, layer: LayerId, n: int)
    requires
        0 <= n <= m.len(),
        forall|j: int| 0 <= j < n ==> (#[trigger] m[j]).0 != layer,
        n < m.len() ==> m[n].0 == layer,
    ensures
        list_index(m, layer) == n,
    decreases m.len(),
{
    if m.len() > 0 && n > 0 {
        assert(m[0].0 != layer);
        let rest = m.drop_first();
        assert forall|j: int| 0 <= j < n - 1 implies (#[trigger] rest[j]).0 != layer by {
            assert(rest[j] == m[j + 1]);
        }
        lemma_list_index_is(rest, layer, n - 1);
    }
}

impl GraphicLayers {
    /// The lists as pairs of a layer and its shapes.
    pub open spec fn view(&self) -> Seq<(LayerId, Seq<ClippedShape>)> {
        Seq::new(self.lists@.len(), |i: int| (self.lists@[i].layer_id, self.lists@[i].shapes@))
    }

    pub fn new() -> (g: GraphicLayers)
        ensures
            g@.len() == 0,
    {
        GraphicLayers { lists: Vec::new() }
    }

    /// Paints `shape` on `layer`, on top of what the layer holds.
    pub fn add(&mut self, layer: LayerId, shape: ClippedShape)
        ensures
            final(self)@ == with_shape(old(self)@, layer, shape),
    {
        let mut i: usize = 0;
        while i < self.lists.len()
            invariant
                i <= self.lists@.len(),
                *self == *old(self),
                forall|j: int| 0 <= j < i ==> (#[trigger] self@[j]).0 != layer,
            decreases self.lists@.len() - i,
        {
            if self.lists[i].layer_id == layer {
                proof {
                    lemma_list_index_is(self@, layer, i as int);
                }
                self.lists[i].shapes.push(shape);
                assert(self@ =~= with_shape(old(self)@, layer, shape));
                return;
            }
            i += 1;
        }
        proof {
            lemma_list_index_is(self@, layer, i as int);
        }
        let mut shapes: Vec<ClippedShape> = Vec::new();
        shapes.push(shape);
        self.lists.push(PaintList { layer_id: layer, shapes });
        assert(self@ =~= with_shape(old(self)@, layer, shape));
    }

    /// Takes the shapes of the picked layers out, list after list.
    pub fn gather(&mut self, pick: Pick) -> (shapes: Vec<ClippedShape>)
        ensures
            shapes@ == gathered(old(self)@, pick),
            final(self)@ == emptied(old(self)@, pick),
    {
        let mut shapes: Vec<ClippedShape> = Vec::new();
        let mut i: usize = 0;
        while i < self.lists.len()
            invariant
                i <= self.lists@.len(),
                self.lists@.len() == old(self).lists@.len(),
                shapes@ == gathered(old(self)@.take(i as int), pick),
                forall|k: int|
                    0 <= k < self.lists@.len() ==> #[trigger] self@[k] == (if k < i
                        && pick.spec_picks(old(self)@[k].0) {
                        (old(self)@[k].0, Seq::<ClippedShape>::empty())
                    } else {
                        old(self)@[k]
                    }),
            decreases self.lists@.len() - i,
        {
            proof {
                assert(old(self)@.take(i + 1).drop_last() == old(self)@.take(i as int));
                assert(old(self)@.take(i + 1).last() == old(self)@[i as int]);
                assert(self@[i as int] == old(self)@[i as int]);
            }
            let ghost before = self@;
            if pick.picks(self.lists[i].layer_id) {
                shapes.append(&mut self.lists[i].shapes);
            }
            proof {
                assert forall|k: int| 0 <= k < self.lists@.len() implies #[trigger] self@[k] == (
                if k < i + 1 && pick.spec_picks(old(self)@[k].0) {
                    (old(self)@[k].0, Seq::<ClippedShape>::empty())
                } else {
                    old(self)@[k]
                }) by {
                    if k != i {
                        assert(self@[k] == before[k]);
                    }
                }
            }
            i += 1;
        }
        proof {
            assert(old(self)@.take(i as int) == old(self)@);
            assert(self@ =~= emptied(old(self)@, pick));
        }
        shapes
    }

    /// Takes the shapes of the stacking class `class` out, in paint order.
    pub fn drain_class(&mut self, class: Order, layers: &Vec<LayerId>) -> (shapes: Vec<
        ClippedShape,
    >)
        ensures
            shapes@ == class_shapes(old(self)@, class, layers@),
            final(self)@ == without_class(old(self)@, class, layers@),
    {
        let mut shapes: Vec<ClippedShape> = Vec::new();
        let mut i: usize = 0;
        proof {
            assert(layers@.skip(0) == layers@);
            assert(shapes@ + class_shapes(self@, class, layers@) == class_shapes(
                self@,
                class,
                layers@,
            ));
        }
        while i < layers.len()
            invariant
                i <= layers@.len(),
                shapes@ + class_shapes(self@, class, layers@.skip(i as int)) == class_shapes(
                    old(self)@,
                    class,
                    layers@,
                ),
                without_class(self@, class, layers@.skip(i as int)) == without_class(
                    old(self)@,
                    class,
                    layers@,
                ),
            decreases layers@.len() - i,
        {
            let layer = layers[i];
            proof {
                assert(layers@.skip(i as int).first() == layer);
                assert(layers@.skip(i as int).drop_first() == layers@.skip(i + 1));
            }
            if layer.order == class {
                let ghost found = gathered(self@, Pick::Layer(layer));
                let ghost rest = class_shapes(
                    emptied(self@, Pick::Layer(layer)),
                    class,
                    layers@.skip(i + 1),
                );
                let ghost so_far = shapes@;
                let mut more = self.gather(Pick::Layer(layer));
                shapes.append(&mut more);
                assert(shapes@ + rest == so_far + (found + rest));
            }
            i += 1;
        }
        let mut more = self.gather(Pick::Class(class));
        shapes.append(&mut more);
        shapes
    }

    /// Takes all shapes out, in paint order, and forgets the layers.
    pub fn drain(&mut self, layers: &Vec<LayerId>) -> (shapes: Vec<ClippedShape>)
        ensures
            shapes@ == paint_order(old(self)@, layers@),
            final(self)@.len() == 0,
    {
        let mut shapes = self.drain_class(Order::Background, layers);
        let mut more = self.drain_class(Order::Middle, layers);
        shapes.append(&mut more);
        let mut more = self.drain_class(Order::Foreground, layers);
        shapes.append(&mut more);
        let mut more = self.drain_class(Order::Tooltip, layers);
        shapes.append(&mut more);
        let mut more = self.drain_class(Order::Debug, layers);
        shapes.append(&mut more);
        self.lists.clear();
        shapes
    }
}

/// `ClippedShape` of epaint: a shape with its clip rectangle. The core
/// hands such values on and never looks inside.
#[verifier::external_type_specification]
#[verifier::external_body]
pub struct ExClippedShape(ClippedShape);

} // verus!
