use crate::extract::{
    ExtractedTextModeSprites, TextModeExtractedSprite, TextModeSpriteAssetEvents,
};
use crate::image::{invalidated_images, AssetEvent, ImageId, ImageMap, ImageSize};
use crate::instance::TextModeSpriteQuad;
use crate::sprite::EntityId;
use vstd::prelude::*;

verus! {

/// One contiguous run of instances that share a source texture: the
/// instances from `start` up to, but not including, `end`.
#[derive(Clone, Copy, Debug, PartialEq, Eq, Structural)]
pub struct TextModeSpriteBatch {
    pub image_handle_id: ImageId,
    pub start: u32,
    pub end: u32,
}

/// A batch together with the draw item that opens it.
#[derive(Clone, Copy, Debug, PartialEq, Eq, Structural)]
pub struct TextModeBatchEntry {
    /// Position of the view's phase among the phases that were prepared.
    pub phase: usize,
    /// Position of the opening draw item in its phase.
    pub item: usize,
    /// Entity of the opening draw item.
    pub entity: EntityId,
    pub batch: TextModeSpriteBatch,
}

/// A sprite is drawn when it was extracted and its texture is resident on
/// the GPU.
pub open spec fn is_drawable(
    sprites: Map<EntityId, TextModeExtractedSprite>,
    images: Map<ImageId, ImageSize>,
    entity: EntityId,
) -> bool {
    sprites.contains_key(entity) && images.contains_key(sprites[entity].image_handle_id)
}

/// The texture of the batch that is open after the first `n` draw items of a
/// phase: that of the last drawn sprite, unless a draw item that is no
/// extracted sprite has come after it.
pub open spec fn batch_image_before(
    sprites: Map<EntityId, TextModeExtractedSprite>,
    images: Map<ImageId, ImageSize>,
    items: Seq<EntityId>,
    n: int,
) -> Option<ImageId>
    decreases n,
{
    if n <= 0 {
        None
    } else if !sprites.contains_key(items[n - 1]) {
        None
    } else if images.contains_key(sprites[items[n - 1]].image_handle_id) {
        Some(sprites[items[n - 1]].image_handle_id)
    } else {
        batch_image_before(sprites, images, items, n - 1)
    }
}

/// Whether draw item `i` of a phase opens a batch: it is drawn, and the batch
/// that is open before it is of another texture or there is none.
pub open spec fn opens_batch(
    sprites: Map<EntityId, TextModeExtractedSprite>,
    images: Map<ImageId, ImageSize>,
    items: Seq<EntityId>,
    i: int,
) -> bool {
    &&& is_drawable(sprites, images, items[i])
    &&& batch_image_before(sprites, images, items, i) != Some(
        sprites[items[i]].image_handle_id,
    )
}

/// The quads of the drawn sprites among the first `n` draw items of a phase,
/// in the order of the draw items.
pub open spec fn phase_quads(
    sprites: Map<EntityId, TextModeExtractedSprite>,
    images: Map<ImageId, ImageSize>,
    items: Seq<EntityId>,
    n: int,
) -> Seq<TextModeSpriteQuad>
    decreases n,
{
    if n <= 0 {
        Seq::empty()
    } else if is_drawable(sprites, images, items[n - 1]) {
        phase_quads(sprites, images, items, n - 1).push(
            TextModeSpriteQuad::spec_new(
                sprites[items[n - 1]],
                images[sprites[items[n - 1]].image_handle_id],
            ),
        )
    } else {
        phase_quads(sprites, images, items, n - 1)
    }
}

/// The batch that a drawn item opens when `instance` instances precede it.
pub open spec fn opened_batch(
    phase: usize,
    item: int,
    entity: EntityId,
    image: ImageId,
    instance: int,
) -> TextModeBatchEntry {
    TextModeBatchEntry {
        phase,
        item: item as usize,
        entity,
        batch: TextModeSpriteBatch {
            image_handle_id: image,
            start: instance as u32,
            end: (instance + 1) as u32,
        },
    }
}

/// The batch `entry` grown by one instance.
pub open spec fn grown_batch(entry: TextModeBatchEntry) -> TextModeBatchEntry {
    TextModeBatchEntry {
        batch: TextModeSpriteBatch { end: (entry.batch.end + 1) as u32, ..entry.batch },
        ..entry
    }
}

/// The batches of the first `n` draw items of a phase whose first instance
/// is instance number `first`: every drawn item either opens a batch of one
/// instance or grows the batch that is open.
pub open spec fn phase_batches(
    sprites: Map<EntityId, TextModeExtractedSprite>,
    images: Map<ImageId, ImageSize>,
    phase: usize,
    items: Seq<EntityId>,
    first: int,
    n: int,
) -> Seq<TextModeBatchEntry>
    decreases n,
{
    if n <= 0 {
        Seq::empty()
    } else {
        let before = phase_batches(sprites, images, phase, items, first, n - 1);
        if !is_drawable(sprites, images, items[n - 1]) {
            before
        } else if opens_batch(sprites, images, items, n - 1) {
            before.push(
                opened_batch(
                    phase,
                    n - 1,
                    items[n - 1],
                    sprites[items[n - 1]].image_handle_id,
                    first + phase_quads(sprites, images, items, n - 1).len(),
                ),
            )
        } else {
            before.update(before.len() - 1, grown_batch(before.last()))
        }
    }
}

/// No more quads than draw items.
pub proof fn lemma_phase_quads_len(
    sprites: Map<EntityId, TextModeExtractedSprite>,
    images: Map<ImageId, ImageSize>,
    items: Seq<EntityId>,
    n: int,
)
    requires
        0 <= n,
    ensures
        phase_quads(sprites, images, items, n).len() <= n,
    decreases n,
{
    if n > 0 {
        lemma_phase_quads_len(sprites, images, items, n - 1);
    }
}

/// Appends to `instances` the quads of one phase and to `batches` its
/// batches.
pub fn prepare_phase(
    sprites: &ExtractedTextModeSprites,
    images: &ImageMap<ImageSize>,
    phase: usize,
    items: &Vec<EntityId>,
    instances: &mut Vec<TextModeSpriteQuad>,
    batches: &mut Vec<TextModeBatchEntry>,
)
    requires
        sprites.wf(),
        images.wf(),
        old(instances)@.len() + items@.len() <= u32::MAX,
    ensures
        final(instances)@ == old(instances)@ + phase_quads(
            sprites@,
            images@,
            items@,
            items@.len() as int,
        ),
        final(batches)@ == old(batches)@ + phase_batches(
            sprites@,
            images@,
            phase,
            items@,
            old(instances)@.len() as int,
            items@.len() as int,
        ),
{
    let ghost instances0 = instances@;
    let ghost batches0 = batches@;
    let ghost first = instances@.len() as int;
    let mut batch_image: Option<ImageId> = None;
    let mut batch_image_size = ImageSize { width: 0, height: 0 };
    let mut i: usize = 0;
    while i < items.len()
        invariant
            i <= items@.len(),
            sprites.wf(),
            images.wf(),
            first == instances0.len(),
            first + items@.len() <= u32::MAX,
            instances@ == instances0 + phase_quads(sprites@, images@, items@, i as int),
            batches@ == batches0 + phase_batches(sprites@, images@, phase, items@, first, i as int),
            phase_quads(sprites@, images@, items@, i as int).len() <= i,
            batch_image == batch_image_before(sprites@, images@, items@, i as int),
            batch_image matches Some(image) ==> {
                let open = phase_batches(sprites@, images@, phase, items@, first, i as int);
                &&& images@.contains_key(image)
                &&& images@[image] == batch_image_size
                &&& open.len() > 0
                &&& open.last().batch.end == first + phase_quads(
                    sprites@,
                    images@,
                    items@,
                    i as int,
                ).len()
            },
        decreases items@.len() - i,
    {
        let entity = items[i];
        let ghost quads_before = phase_quads(sprites@, images@, items@, i as int);
        let ghost open_before = phase_batches(sprites@, images@, phase, items@, first, i as int);
        match sprites.get(entity) {
            None => {
                batch_image = None;
            },
            Some(sprite) => {
                let image = sprite.image_handle_id;
                let unchanged = match batch_image {
                    Some(current) => current == image,
                    None => false,
                };
                let mut resident = unchanged;
                if !unchanged {
                    match images.get(image) {
                        Some(size) => {
                            batch_image_size = *size;
                            batch_image = Some(image);
                            resident = true;
                        },
                        None => {},
                    }
                }
                if resident {
                    let instance = instances.len();
                    instances.push(TextModeSpriteQuad::new(sprite, batch_image_size));
                    if !unchanged {
                        let start = instance as u32;
                        batches.push(
                            TextModeBatchEntry {
                                phase,
                                item: i,
                                entity,
                                batch: TextModeSpriteBatch {
                                    image_handle_id: image,
                                    start,
                                    end: start + 1,
                                },
                            },
                        );
                        proof {
                            assert(batches@ =~= batches0 + open_before.push(
                                opened_batch(
                                    phase,
                                    i as int,
                                    entity,
                                    image,
                                    first + quads_before.len(),
                                ),
                            ));
                        }
                    } else {
                        let last = batches.len() - 1;
                        let mut entry = batches[last];
                        entry.batch.end = entry.batch.end + 1;
                        batches.set(last, entry);
                        proof {
                            assert(batches@ =~= batches0 + open_before.update(
                                open_before.len() - 1,
                                grown_batch(open_before.last()),
                            ));
                        }
                    }
                    proof {
                        assert(instances@ =~= instances0 + quads_before.push(
                            TextModeSpriteQuad::spec_new(*sprite, batch_image_size),
                        ));
                    }
                }
            },
        }
        i += 1;
    }
}

/// The cache of shader-resource binding sets, one per source texture.
///
/// `V` is the binding set as the graphics layer hands it out; the cache
/// stores it and never looks inside.
pub struct TextModeImageBindGroups<V> {
    values: ImageMap<V>,
}

impl<V> View for TextModeImageBindGroups<V> {
    type V = Map<ImageId, V>;

    closed spec fn view(&self) -> Map<ImageId, V> {
        self.values@
    }
}

impl<V> TextModeImageBindGroups<V> {
    /// The cache holds one binding set per texture.
    pub closed spec fn wf(&self) -> bool {
        self.values.wf()
    }

    /// An empty cache.
    pub fn new() -> (cache: Self)
        ensures
            cache.wf(),
            cache@ == Map::<ImageId, V>::empty(),
    {
        TextModeImageBindGroups { values: ImageMap::new() }
    }

    /// The binding set cached for `image`, if there is one.
    pub fn get(&self, image: ImageId) -> (value: Option<&V>)
        requires
            self.wf(),
        ensures
            match value {
                Some(v) => self@.contains_key(image) && *v == self@[image],
                None => !self@.contains_key(image),
            },
    {
        self.values.get(image)
    }

    /// Whether a binding set is cached for `image`.
    pub fn contains(&self, image: ImageId) -> (cached: bool)
        requires
            self.wf(),
        ensures
            cached == self@.contains_key(image),
    {
        self.values.contains_key(image)
    }

    /// Caches `value` as the binding set of `image`.
    pub fn insert(&mut self, image: ImageId, value: V)
        requires
            old(self).wf(),
        ensures
            final(self).wf(),
            final(self)@ == old(self)@.insert(image, value),
    {
        self.values.insert(image, value);
    }

    /// Drops the binding set of every texture that `events` report as
    /// modified, removed or unused, and keeps the others as they are.
    pub fn invalidate(&mut self, events: &Vec<AssetEvent>)
        requires
            old(self).wf(),
        ensures
            final(self).wf(),
            final(self)@ == old(self)@.remove_keys(invalidated_images(events@)),
    {
        let ghost before = self@;
        let mut i: usize = 0;
        assert(self@ =~= before.remove_keys(invalidated_images(events@.take(0))));
        while i < events.len()
            invariant
                i <= events@.len(),
                self.wf(),
                self@ == before.remove_keys(invalidated_images(events@.take(i as int))),
            decreases events@.len() - i,
        {
            let ghost seen = invalidated_images(events@.take(i as int));
            let ghost seen_next = invalidated_images(events@.take(i + 1));
            proof {
                assert forall|id: ImageId| seen_next.contains(id) <==> (seen.contains(id)
                    || events@[i as int].spec_invalidated() == Some(id)) by {
                    if seen.contains(id) {
                        let j = choose|j: int|
                            0 <= j < events@.take(i as int).len() && (#[trigger] events@.take(
                                i as int,
                            )[j]).spec_invalidated() == Some(id);
                        assert(events@.take(i + 1)[j].spec_invalidated() == Some(id));
                    }
                    if events@[i as int].spec_invalidated() == Some(id) {
                        assert(events@.take(i + 1)[i as int].spec_invalidated() == Some(id));
                    }
                    if seen_next.contains(id) {
                        let j = choose|j: int|
                            0 <= j < events@.take(i + 1).len() && (#[trigger] events@.take(
                                i + 1,
                            )[j]).spec_invalidated() == Some(id);
                        if j < i {
                            assert(events@.take(i as int)[j].spec_invalidated() == Some(id));
                        }
                    }
                }
            }
            match events[i].invalidated() {
                Some(id) => {
                    self.values.remove(id);
                    assert(self@ =~= before.remove_keys(seen_next));
                },
                None => {
                    assert(self@ =~= before.remove_keys(seen_next));
                },
            }
            i += 1;
        }
        assert(events@.take(events@.len() as int) =~= events@);
    }
}

impl<V> Default for TextModeImageBindGroups<V> {
    fn default() -> (cache: TextModeImageBindGroups<V>)
        ensures
            cache.wf(),
            cache@ == Map::<ImageId, V>::empty(),
    {
        TextModeImageBindGroups::new()
    }
}

/// The textures among those of the first `n` batches that have no cached
/// binding set, each once, in the order in which the batches first use them.
pub open spec fn missing_bind_groups(
    cached: Set<ImageId>,
    batches: Seq<TextModeBatchEntry>,
    n: int,
) -> Seq<ImageId>
    decreases n,
{
    if n <= 0 {
        Seq::empty()
    } else {
        let before = missing_bind_groups(cached, batches, n - 1);
        let image = batches[n - 1].batch.image_handle_id;
        if cached.contains(image) || before.contains(image) {
            before
        } else {
            before.push(image)
        }
    }
}

/// Every texture of a batch has a cached binding set or is listed as missing
/// exactly once, and no listed texture has a cached binding set.
pub proof fn lemma_missing_bind_groups(
    cached: Set<ImageId>,
    batches: Seq<TextModeBatchEntry>,
    n: int,
)
    requires
        0 <= n <= batches.len(),
    ensures
        missing_bind_groups(cached, batches, n).no_duplicates(),
        forall|image: ImageId| #[trigger]
            missing_bind_groups(cached, batches, n).contains(image) ==> !cached.contains(image),
        forall|k: int|
            0 <= k < n ==> cached.contains((#[trigger] batches[k]).batch.image_handle_id)
                || missing_bind_groups(cached, batches, n).contains(
                batches[k].batch.image_handle_id,
            ),
        forall|image: ImageId| #[trigger]
            missing_bind_groups(cached, batches, n).contains(image) ==> exists|k: int|
                0 <= k < n && (#[trigger] batches[k]).batch.image_handle_id == image,
    decreases n,
{
    if n > 0 {
        lemma_missing_bind_groups(cached, batches, n - 1);
        let before = missing_bind_groups(cached, batches, n - 1);
        let after = missing_bind_groups(cached, batches, n);
        let image = batches[n - 1].batch.image_handle_id;
        if !(cached.contains(image) || before.contains(image)) {
            assert(after == before.push(image));
            assert(after[before.len() as int] == image);
            assert forall|other: ImageId| #[trigger] after.contains(other) implies before.contains(
                other,
            ) || other == image by {
                let j = choose|j: int| 0 <= j < after.len() && after[j] == other;
                if j < before.len() {
                    assert(before[j] == other);
                }
            }
            assert forall|other: ImageId| before.contains(other) implies #[trigger] after.contains(
                other,
            ) by {
                let j = choose|j: int| 0 <= j < before.len() && before[j] == other;
                assert(after[j] == other);
            }
        }
        assert forall|other: ImageId| #[trigger]
            missing_bind_groups(cached, batches, n).contains(other) implies exists|k: int|
            0 <= k < n && (#[trigger] batches[k]).batch.image_handle_id == other by {
            if before.contains(other) {
                let k = choose|k: int|
                    0 <= k < n - 1 && (#[trigger] batches[k]).batch.image_handle_id == other;
                assert(0 <= k < n && batches[k].batch.image_handle_id == other);
            } else {
                assert(batches[n - 1].batch.image_handle_id == other);
            }
        }
    }
}

fn lists_image(images: &Vec<ImageId>, image: ImageId) -> (listed: bool)
    ensures
        listed == images@.contains(image),
{
    let mut i: usize = 0;
    while i < images.len()
        invariant
            i <= images@.len(),
            forall|j: int| 0 <= j < i ==> images@[j] != image,
        decreases images@.len() - i,
    {
        if images[i] == image {
            return true;
        }
        i += 1;
    }
    false
}

/// Lists the textures of `batches` that have no binding set in `cache`.
pub fn find_missing_bind_groups<V>(
    cache: &TextModeImageBindGroups<V>,
    batches: &Vec<TextModeBatchEntry>,
) -> (missing: Vec<ImageId>)
    requires
        cache.wf(),
    ensures
        missing@ == missing_bind_groups(cache@.dom(), batches@, batches@.len() as int),
{
    let mut missing: Vec<ImageId> = Vec::new();
    let mut i: usize = 0;
    while i < batches.len()
        invariant
            i <= batches@.len(),
            cache.wf(),
            missing@ == missing_bind_groups(cache@.dom(), batches@, i as int),
        decreases batches@.len() - i,
    {
        let image = batches[i].batch.image_handle_id;
        if !cache.contains(image) && !lists_image(&missing, image) {
            missing.push(image);
        }
        i += 1;
    }
    missing
}

/// The index pattern of the unit quad: two triangles over the corners
/// `00`, `01`, `10` and `11`, which every batch shares.
pub open spec fn quad_indices() -> Seq<u32> {
    seq![2u32, 0u32, 1u32, 1u32, 3u32, 2u32]
}

/// The buffers that the draw pass reads: the quad's indices and one record
/// per drawn sprite.
pub struct TextModeSpriteMeta {
    sprite_index_buffer: Vec<u32>,
    sprite_instance_buffer: Vec<TextModeSpriteQuad>,
}

impl TextModeSpriteMeta {
    /// The contents of the index buffer.
    pub closed spec fn spec_index_buffer(&self) -> Seq<u32> {
        self.sprite_index_buffer@
    }

    /// The contents of the instance buffer.
    pub closed spec fn spec_instance_buffer(&self) -> Seq<TextModeSpriteQuad> {
        self.sprite_instance_buffer@
    }

    /// The index buffer is still empty or holds the quad's index pattern.
    pub open spec fn wf(&self) -> bool {
        self.spec_index_buffer().len() == 6 ==> self.spec_index_buffer() == quad_indices()
    }

    /// Two empty buffers.
    pub fn new() -> (meta: Self)
        ensures
            meta.wf(),
            meta.spec_index_buffer() == Seq::<u32>::empty(),
            meta.spec_instance_buffer() == Seq::<TextModeSpriteQuad>::empty(),
    {
        TextModeSpriteMeta { sprite_index_buffer: Vec::new(), sprite_instance_buffer: Vec::new() }
    }

    /// The index buffer.
    pub fn index_buffer(&self) -> (indices: &Vec<u32>)
        ensures
            indices@ == self.spec_index_buffer(),
    {
        &self.sprite_index_buffer
    }

    /// The instance buffer.
    pub fn instance_buffer(&self) -> (instances: &Vec<TextModeSpriteQuad>)
        ensures
            instances@ == self.spec_instance_buffer(),
    {
        &self.sprite_instance_buffer
    }

    /// Fills the index buffer with the quad's index pattern unless it holds
    /// six indices already, and says whether it wrote.
    fn write_quad_indices(&mut self) -> (written: bool)
        requires
            old(self).wf(),
        ensures
            final(self).wf(),
            final(self).spec_index_buffer() == quad_indices(),
            final(self).spec_instance_buffer() == old(self).spec_instance_buffer(),
            written == (old(self).spec_index_buffer().len() != 6),
    {
        if self.sprite_index_buffer.len() != 6 {
            self.sprite_index_buffer.clear();
            self.sprite_index_buffer.push(2);
            self.sprite_index_buffer.push(0);
            self.sprite_index_buffer.push(1);
            self.sprite_index_buffer.push(1);
            self.sprite_index_buffer.push(3);
            self.sprite_index_buffer.push(2);
            assert(self.sprite_index_buffer@ =~= quad_indices());
            true
        } else {
            false
        }
    }
}

impl Default for TextModeSpriteMeta {
    fn default() -> (meta: TextModeSpriteMeta)
        ensures
            meta.wf(),
            meta.spec_index_buffer() == Seq::<u32>::empty(),
            meta.spec_instance_buffer() == Seq::<TextModeSpriteQuad>::empty(),
    {
        TextModeSpriteMeta::new()
    }
}

/// Number of draw items in the first `p` phases.
pub open spec fn total_items(phases: Seq<Vec<EntityId>>, p: int) -> int
    decreases p,
{
    if p <= 0 {
        0
    } else {
        total_items(phases, p - 1) + phases[p - 1]@.len()
    }
}

/// The quads of the first `p` phases, phase after phase.
pub open spec fn all_quads(
    sprites: Map<EntityId, TextModeExtractedSprite>,
    images: Map<ImageId, ImageSize>,
    phases: Seq<Vec<EntityId>>,
    p: int,
) -> Seq<TextModeSpriteQuad>
    decreases p,
{
    if p <= 0 {
        Seq::empty()
    } else {
        all_quads(sprites, images, phases, p - 1) + phase_quads(
            sprites,
            images,
            phases[p - 1]@,
            phases[p - 1]@.len() as int,
        )
    }
}

/// The batches of the first `p` phases, phase after phase; the instances of
/// a phase follow those of the phases before it.
pub open spec fn all_batches(
    sprites: Map<EntityId, TextModeExtractedSprite>,
    images: Map<ImageId, ImageSize>,
    phases: Seq<Vec<EntityId>>,
    p: int,
) -> Seq<TextModeBatchEntry>
    decreases p,
{
    if p <= 0 {
        Seq::empty()
    } else {
        all_batches(sprites, images, phases, p - 1) + phase_batches(
            sprites,
            images,
            (p - 1) as usize,
            phases[p - 1]@,
            all_quads(sprites, images, phases, p - 1).len() as int,
            phases[p - 1]@.len() as int,
        )
    }
}

/// No more quads than draw items, over several phases.
pub proof fn lemma_all_quads_len(
    sprites: Map<EntityId, TextModeExtractedSprite>,
    images: Map<ImageId, ImageSize>,
    phases: Seq<Vec<EntityId>>,
    p: int,
)
    requires
        0 <= p <= phases.len(),
    ensures
        all_quads(sprites, images, phases, p).len() <= total_items(phases, p),
        0 <= total_items(phases, p),
    decreases p,
{
    if p > 0 {
        lemma_all_quads_len(sprites, images, phases, p - 1);
        lemma_phase_quads_len(sprites, images, phases[p - 1]@, phases[p - 1]@.len() as int);
    }
}

/// `total_items` grows with the number of phases.
pub proof fn lemma_total_items_monotone(phases: Seq<Vec<EntityId>>, p: int, q: int)
    requires
        0 <= p <= q,
    ensures
        total_items(phases, p) <= total_items(phases, q),
    decreases q - p,
{
    if p < q {
        lemma_total_items_monotone(phases, p, q - 1);
    }
}

/// What one frame's preparation hands to the draw pass.
pub struct TextModePreparedSprites {
    /// The batches in drawing order.
    pub batches: Vec<TextModeBatchEntry>,
    /// The textures for which a binding set has to be created and cached
    /// before the batches are drawn.
    pub missing_bind_groups: Vec<ImageId>,
    /// Whether the index buffer was written and has to be uploaded.
    pub index_buffer_changed: bool,
}

/// Prepares one frame for drawing.
///
/// Drops the binding sets that `events` make stale, rebuilds the instance
/// buffer and the batches from the sorted draw items of every phase, lists
/// the textures that still need a binding set, and makes sure that the index
/// buffer holds the quad's index pattern.
pub fn prepare_text_mode_sprite_image_bind_groups<V>(
    previous_len: &mut usize,
    sprite_meta: &mut TextModeSpriteMeta,
    image_bind_groups: &mut TextModeImageBindGroups<V>,
    gpu_images: &ImageMap<ImageSize>,
    extracted_sprites: &ExtractedTextModeSprites,
    phases: &Vec<Vec<EntityId>>,
    events: &TextModeSpriteAssetEvents,
) -> (prepared: TextModePreparedSprites)
    requires
        old(sprite_meta).wf(),
        old(image_bind_groups).wf(),
        gpu_images.wf(),
        extracted_sprites.wf(),
        total_items(phases@, phases@.len() as int) <= u32::MAX,
    ensures
        final(image_bind_groups).wf(),
        final(image_bind_groups)@ == old(image_bind_groups)@.remove_keys(
            invalidated_images(events.images@),
        ),
        final(sprite_meta).wf(),
        final(sprite_meta).spec_index_buffer() == quad_indices(),
        final(sprite_meta).spec_instance_buffer() == all_quads(
            extracted_sprites@,
            gpu_images@,
            phases@,
            phases@.len() as int,
        ),
        prepared.batches@ == all_batches(
            extracted_sprites@,
            gpu_images@,
            phases@,
            phases@.len() as int,
        ),
        prepared.missing_bind_groups@ == missing_bind_groups(
            final(image_bind_groups)@.dom(),
            prepared.batches@,
            prepared.batches@.len() as int,
        ),
        prepared.index_buffer_changed == (old(sprite_meta).spec_index_buffer().len() != 6),
        *final(previous_len) == prepared.batches@.len(),
{
    image_bind_groups.invalidate(&events.images);

    let mut batches: Vec<TextModeBatchEntry> = Vec::with_capacity(*previous_len);
    sprite_meta.sprite_instance_buffer.clear();

    let mut p: usize = 0;
    while p < phases.len()
        invariant
            p <= phases@.len(),
            gpu_images.wf(),
            extracted_sprites.wf(),
            total_items(phases@, phases@.len() as int) <= u32::MAX,
            sprite_meta.sprite_index_buffer@ == old(sprite_meta).sprite_index_buffer@,
            sprite_meta.sprite_instance_buffer@ == all_quads(
                extracted_sprites@,
                gpu_images@,
                phases@,
                p as int,
            ),
            batches@ == all_batches(extracted_sprites@, gpu_images@, phases@, p as int),
        decreases phases@.len() - p,
    {
        proof {
            lemma_all_quads_len(extracted_sprites@, gpu_images@, phases@, p as int);
            lemma_total_items_monotone(phases@, p + 1, phases@.len() as int);
        }
        prepare_phase(
            extracted_sprites,
            gpu_images,
            p,
            &phases[p],
            &mut sprite_meta.sprite_instance_buffer,
            &mut batches,
        );
        p += 1;
    }
    let index_buffer_changed = sprite_meta.write_quad_indices();
    let missing = find_missing_bind_groups(image_bind_groups, &batches);
    *previous_len = batches.len();
    TextModePreparedSprites { batches, missing_bind_groups: missing, index_buffer_changed }
}

} // verus!
