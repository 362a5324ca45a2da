use crate::image::{AssetEvent, ImageId};
use crate::slices::ComputedTextModeTextureSlices;
use crate::sprite::{
    EntityId, GlobalTransform, LinearRgba, Rect, TexelRect, TextModeSprite, URect, Vec2,
};
use std::collections::HashMap;
use vstd::prelude::*;

verus! {

broadcast use vstd::std_specs::hash::group_hash_axioms;

/// The render-side snapshot of one sprite, rebuilt every frame.
#[derive(Clone, Copy, Debug, PartialEq, Eq, Structural)]
pub struct TextModeExtractedSprite {
    pub transform: GlobalTransform,
    pub bg: LinearRgba,
    pub fg: LinearRgba,
    /// Blend alpha, a single-precision bit pattern.
    pub alpha: u32,
    pub custom_size: Option<Vec2>,
    /// Source rectangle; `None` stands for the whole texture.
    pub rect: Option<TexelRect>,
    pub image_handle_id: ImageId,
    pub flip_x: bool,
    pub flip_y: bool,
    pub rotation: u8,
    pub anchor: Vec2,
    /// The scene entity that this sprite was generated from, where one
    /// authored sprite fans out into several extracted ones.
    pub original_entity: Option<EntityId>,
}

impl TextModeExtractedSprite {
    /// The scene entity whose visibility decides whether the sprite is drawn:
    /// the entity it was generated from, or else the entity it is keyed by.
    pub open spec fn spec_source_entity(self, key: EntityId) -> EntityId {
        match self.original_entity {
            Some(original) => original,
            None => key,
        }
    }

    /// Computes `spec_source_entity`.
    pub fn source_entity(&self, key: EntityId) -> (entity: EntityId)
        ensures
            entity == self.spec_source_entity(key),
    {
        match self.original_entity {
            Some(original) => original,
            None => key,
        }
    }

    /// World-space depth: the z component of the translation, as a
    /// single-precision bit pattern.
    pub open spec fn spec_depth(self) -> u32 {
        self.transform.translation.z
    }

    /// Computes `spec_depth`.
    pub fn depth(&self) -> (z: u32)
        ensures
            z == self.spec_depth(),
    {
        self.transform.translation.z
    }
}

/// The texture events of the current frame.
pub struct TextModeSpriteAssetEvents {
    pub images: Vec<AssetEvent>,
}

impl Default for TextModeSpriteAssetEvents {
    fn default() -> (events: TextModeSpriteAssetEvents)
        ensures
            events.images@ == Seq::<AssetEvent>::empty(),
    {
        TextModeSpriteAssetEvents { images: Vec::new() }
    }
}

/// Replaces the events of the previous frame by `image_events`.
pub fn extract_text_mode_sprite_events(
    events: &mut TextModeSpriteAssetEvents,
    image_events: &Vec<AssetEvent>,
)
    ensures
        final(events).images@ == image_events@,
{
    events.images.clear();
    let mut i: usize = 0;
    while i < image_events.len()
        invariant
            i <= image_events@.len(),
            events.images@ == image_events@.take(i as int),
        decreases image_events@.len() - i,
    {
        events.images.push(image_events[i]);
        assert(events.images@ =~= image_events@.take(i + 1));
        i += 1;
    }
    assert(image_events@.take(image_events@.len() as int) =~= image_events@);
}

/// The sprites extracted for the current frame, one per key.
pub struct ExtractedTextModeSprites {
    entries: Vec<(EntityId, TextModeExtractedSprite)>,
    slots: HashMap<u64, usize>,
}

impl View for ExtractedTextModeSprites {
    type V = Map<EntityId, TextModeExtractedSprite>;

    closed spec fn view(&self) -> Map<EntityId, TextModeExtractedSprite> {
        Map::new(
            |e: EntityId| self.slots@.contains_key(e.spec_bits()),
            |e: EntityId| self.entries@[self.slots@[e.spec_bits()] as int].1,
        )
    }
}

impl ExtractedTextModeSprites {
    /// Every sprite is stored once, and the slot table finds each by its key.
    pub closed spec fn wf(&self) -> bool {
        &&& forall|i: int|
            0 <= i < self.entries@.len() ==> {
                &&& self.slots@.contains_key(#[trigger] self.entries@[i].0.spec_bits())
                &&& self.slots@[self.entries@[i].0.spec_bits()] == i
            }
        &&& forall|bits: u64| #[trigger]
            self.slots@.contains_key(bits) ==> {
                &&& self.slots@[bits] < self.entries@.len()
                &&& self.entries@[self.slots@[bits] as int].0.spec_bits() == bits
            }
    }

    /// The keys in the order in which they were first inserted.
    pub closed spec fn keys(&self) -> Seq<EntityId> {
        self.entries@.map_values(|entry: (EntityId, TextModeExtractedSprite)| entry.0)
    }

    /// `keys` lists every key of the map exactly once, so the map has as
    /// many sprites as `keys` has entries.
    pub proof fn lemma_keys(&self)
        requires
            self.wf(),
        ensures
            self.keys().no_duplicates(),
            forall|e: EntityId| self.keys().contains(e) <==> self@.contains_key(e),
            self@.dom().finite(),
            self@.dom().len() == self.keys().len(),
    {
        let keys = self.keys();
        assert forall|i: int, j: int|
            0 <= i < keys.len() && 0 <= j < keys.len() && i != j implies keys[i] != keys[j] by {
            assert(self.slots@[self.entries@[i].0.spec_bits()] == i);
            assert(self.slots@[self.entries@[j].0.spec_bits()] == j);
        }
        assert forall|e: EntityId| keys.contains(e) <==> self@.contains_key(e) by {
            if keys.contains(e) {
                let i = choose|i: int| 0 <= i < keys.len() && keys[i] == e;
                assert(self.slots@.contains_key(self.entries@[i].0.spec_bits()));
            }
            if self@.contains_key(e) {
                let i = self.slots@[e.spec_bits()] as int;
                EntityId::lemma_bits_injective(self.entries@[i].0, e);
                assert(keys[i] == e);
            }
        }
        assert(self@.dom() =~= keys.to_set());
        keys.unique_seq_to_set();
    }

    /// No sprites.
    pub fn new() -> (sprites: Self)
        ensures
            sprites.wf(),
            sprites@ == Map::<EntityId, TextModeExtractedSprite>::empty(),
    {
        let sprites = ExtractedTextModeSprites { entries: Vec::new(), slots: HashMap::new() };
        assert(sprites@ =~= Map::<EntityId, TextModeExtractedSprite>::empty());
        sprites
    }

    /// Forgets every sprite.
    pub fn clear(&mut self)
        ensures
            final(self).wf(),
            final(self)@ == Map::<EntityId, TextModeExtractedSprite>::empty(),
    {
        self.entries.clear();
        self.slots.clear();
        assert(self@ =~= Map::<EntityId, TextModeExtractedSprite>::empty());
    }

    /// Number of sprites.
    pub fn len(&self) -> (n: usize)
        requires
            self.wf(),
        ensures
            n == self.keys().len(),
            n == self@.dom().len(),
    {
        proof {
            self.lemma_keys();
        }
        self.entries.len()
    }

    /// The `i`-th key in insertion order, with its sprite.
    pub fn entry(&self, i: usize) -> (entry: (EntityId, &TextModeExtractedSprite))
        requires
            self.wf(),
            i < self.keys().len(),
        ensures
            entry.0 == self.keys()[i as int],
            self@.contains_key(entry.0),
            *entry.1 == self@[entry.0],
    {
        let entry = &self.entries[i];
        proof {
            assert(self.slots@[self.entries@[i as int].0.spec_bits()] == i);
        }
        (entry.0, &entry.1)
    }

    /// The sprite stored for `entity`, if there is one.
    pub fn get(&self, entity: EntityId) -> (sprite: Option<&TextModeExtractedSprite>)
        requires
            self.wf(),
        ensures
            match sprite {
                Some(s) => self@.contains_key(entity) && *s == self@[entity],
                None => !self@.contains_key(entity),
            },
    {
        let bits = entity.to_bits();
        match self.slots.get(&bits) {
            Some(slot) => Some(&self.entries[*slot].1),
            None => None,
        }
    }

    /// Stores `sprite` for `entity`, replacing the sprite that `entity` had.
    pub fn insert(&mut self, entity: EntityId, sprite: TextModeExtractedSprite)
        requires
            old(self).wf(),
        ensures
            final(self).wf(),
            final(self)@ == old(self)@.insert(entity, sprite),
    {
        let ghost before = *self;
        let bits = entity.to_bits();
        let found: Option<usize> = match self.slots.get(&bits) {
            Some(slot) => Some(*slot),
            None => None,
        };
        match found {
            Some(slot) => {
                proof {
                    EntityId::lemma_bits_injective(self.entries@[slot as int].0, entity);
                }
                self.entries.set(slot, (entity, sprite));
                proof {
                    let after = *self;
                    assert forall|e: EntityId| after@.contains_key(e) implies after@[e]
                        == before@.insert(entity, sprite)[e] by {
                        EntityId::lemma_bits_injective(e, entity);
                    }
                    assert(after@ =~= before@.insert(entity, sprite));
                }
            },
            None => {
                let slot = self.entries.len();
                self.entries.push((entity, sprite));
                self.slots.insert(bits, slot);
                proof {
                    let after = *self;
                    assert forall|e: EntityId| #[trigger]
                        after@.contains_key(e) == before@.insert(entity, sprite).contains_key(
                            e,
                        ) by {
                        EntityId::lemma_bits_injective(e, entity);
                    }
                    assert forall|e: EntityId| after@.contains_key(e) implies after@[e]
                        == before@.insert(entity, sprite)[e] by {
                        EntityId::lemma_bits_injective(e, entity);
                    }
                    assert(after@ =~= before@.insert(entity, sprite));
                }
            },
        }
    }
}

/// The regions of a texture atlas.
pub struct TextureAtlasLayout {
    pub textures: Vec<URect>,
}

/// A sprite's choice of one region of an atlas.
#[derive(Clone, Copy, Debug, PartialEq, Eq, Structural)]
pub struct TextureAtlas {
    /// Position of the atlas among the loaded layouts; `None` while the
    /// atlas is not loaded.
    pub layout: Option<usize>,
    /// Position of the region in the atlas.
    pub index: usize,
}

impl Default for ExtractedTextModeSprites {
    fn default() -> (sprites: ExtractedTextModeSprites)
        ensures
            sprites.wf(),
            sprites@ == Map::<EntityId, TextModeExtractedSprite>::empty(),
    {
        ExtractedTextModeSprites::new()
    }
}

impl TextureAtlas {
    /// The atlas is not loaded, or it is one of `layouts` and has the region
    /// that the sprite chooses.
    pub open spec fn is_valid(self, layouts: Seq<TextureAtlasLayout>) -> bool {
        match self.layout {
            Some(layout) => layout < layouts.len() && self.index
                < layouts[layout as int].textures@.len(),
            None => true,
        }
    }

    /// The chosen region, or `None` while the atlas is not loaded.
    pub open spec fn spec_texture_rect(self, layouts: Seq<TextureAtlasLayout>) -> Option<URect> {
        match self.layout {
            Some(layout) => Some(layouts[layout as int].textures@[self.index as int]),
            None => None,
        }
    }

    /// Computes `spec_texture_rect`.
    pub fn texture_rect(&self, layouts: &Vec<TextureAtlasLayout>) -> (region: Option<URect>)
        requires
            self.is_valid(layouts@),
        ensures
            region == self.spec_texture_rect(layouts@),
    {
        match self.layout {
            Some(layout) => Some(layouts[layout].textures[self.index]),
            None => None,
        }
    }
}

/// What the scene holds of one sprite entity when a frame is extracted.
pub struct TextModeSpriteSource {
    pub entity: EntityId,
    /// Whether the entity passed the visibility test.
    pub view_visibility: bool,
    pub sprite: TextModeSprite,
    pub transform: GlobalTransform,
    /// The sprite's source texture.
    pub image: ImageId,
    /// The sprite's region of an atlas, if it uses one.
    pub atlas: Option<TextureAtlas>,
    /// The parts of the sprite, if it is drawn in several parts.
    pub slices: Option<ComputedTextModeTextureSlices>,
}

impl TextModeSpriteSource {
    /// A visible sprite that is drawn in one part and uses an atlas names a
    /// region that the atlas has.
    pub open spec fn is_valid(&self, layouts: Seq<TextureAtlasLayout>) -> bool {
        self.view_visibility && self.slices.is_none() && self.atlas.is_some()
            ==> self.atlas.unwrap().is_valid(layouts)
    }
}

/// The source rectangle of a sprite: its own rectangle moved by the origin
/// of its atlas region where it has both, else the one that it has, else
/// none, which stands for the whole texture.
pub open spec fn spec_resolve_rect(region: Option<URect>, rect: Option<Rect>) -> Option<
    TexelRect,
> {
    match (region, rect) {
        (None, None) => None,
        (None, Some(rect)) => Some(TexelRect::spec_from_rect(rect)),
        (Some(region), None) => Some(TexelRect::spec_from_region(region)),
        (Some(region), Some(rect)) => Some(TexelRect::spec_within_region(region, rect)),
    }
}

/// Computes `spec_resolve_rect`.
pub fn resolve_rect(region: Option<URect>, rect: Option<Rect>) -> (resolved: Option<TexelRect>)
    ensures
        resolved == spec_resolve_rect(region, rect),
{
    match (region, rect) {
        (None, None) => None,
        (None, Some(rect)) => Some(TexelRect::from_rect(rect)),
        (Some(region), None) => Some(TexelRect::from_region(region)),
        (Some(region), Some(rect)) => Some(TexelRect::within_region(region, rect)),
    }
}

/// The extracted sprite of a source that is drawn in one part, with the
/// source rectangle `rect`.
pub open spec fn spec_extracted_sprite(
    source: TextModeSpriteSource,
    rect: Option<TexelRect>,
) -> TextModeExtractedSprite {
    TextModeExtractedSprite {
        transform: source.transform,
        bg: source.sprite.bg,
        fg: source.sprite.fg,
        alpha: source.sprite.alpha,
        custom_size: source.sprite.custom_size,
        rect,
        image_handle_id: source.image,
        flip_x: source.sprite.flip_x,
        flip_y: source.sprite.flip_y,
        rotation: source.sprite.rotation,
        anchor: source.sprite.anchor.spec_as_vec(),
        original_entity: None,
    }
}

/// The sprites that one source contributes, each with its key.
///
/// An entity that is not visible contributes nothing. A sprite in several
/// parts contributes one sprite per part. A sprite whose atlas is not loaded
/// contributes nothing in this frame. Any other sprite contributes itself.
pub open spec fn spec_source_sprites(
    layouts: Seq<TextureAtlasLayout>,
    source: TextModeSpriteSource,
) -> Seq<(EntityId, TextModeExtractedSprite)> {
    if !source.view_visibility {
        Seq::empty()
    } else {
        match source.slices {
            Some(slices) => slices.spec_extract_text_mode_sprites(
                source.entity,
                source.sprite,
                source.image,
            ),
            None => match source.atlas {
                Some(atlas) => match atlas.spec_texture_rect(layouts) {
                    Some(region) => seq![
                        (
                            source.entity,
                            spec_extracted_sprite(
                                source,
                                spec_resolve_rect(Some(region), source.sprite.rect),
                            ),
                        ),
                    ],
                    None => Seq::empty(),
                },
                None => seq![
                    (
                        source.entity,
                        spec_extracted_sprite(source, spec_resolve_rect(None, source.sprite.rect)),
                    ),
                ],
            },
        }
    }
}

/// The map `sprites` after the first `n` of `records` were stored in turn;
/// of two records with one key the later one stays.
pub open spec fn spec_insert_all(
    sprites: Map<EntityId, TextModeExtractedSprite>,
    records: Seq<(EntityId, TextModeExtractedSprite)>,
    n: int,
) -> Map<EntityId, TextModeExtractedSprite>
    decreases n,
{
    if n <= 0 {
        sprites
    } else {
        spec_insert_all(sprites, records, n - 1).insert(records[n - 1].0, records[n - 1].1)
    }
}

/// The sprites extracted from the first `n` sources.
pub open spec fn spec_extracted(
    layouts: Seq<TextureAtlasLayout>,
    sources: Seq<TextModeSpriteSource>,
    n: int,
) -> Map<EntityId, TextModeExtractedSprite>
    decreases n,
{
    if n <= 0 {
        Map::empty()
    } else {
        let records = spec_source_sprites(layouts, sources[n - 1]);
        spec_insert_all(spec_extracted(layouts, sources, n - 1), records, records.len() as int)
    }
}

/// A key is extracted only if a source contributes it.
pub proof fn lemma_extracted_keys_have_sources(
    layouts: Seq<TextureAtlasLayout>,
    sources: Seq<TextModeSpriteSource>,
    n: int,
    entity: EntityId,
)
    requires
        0 <= n <= sources.len(),
        spec_extracted(layouts, sources, n).contains_key(entity),
    ensures
        exists|i: int, k: int|
            0 <= i < n && 0 <= k < spec_source_sprites(layouts, sources[i]).len()
                && #[trigger] spec_source_sprites(layouts, sources[i])[k].0 == entity,
    decreases n,
{
    if n > 0 {
        let records = spec_source_sprites(layouts, sources[n - 1]);
        let before = spec_extracted(layouts, sources, n - 1);
        lemma_insert_all_keys(before, records, records.len() as int, entity);
        if before.contains_key(entity) {
            lemma_extracted_keys_have_sources(layouts, sources, n - 1, entity);
            let (i, k) = choose|i: int, k: int|
                0 <= i < n - 1 && 0 <= k < spec_source_sprites(layouts, sources[i]).len()
                    && #[trigger] spec_source_sprites(layouts, sources[i])[k].0 == entity;
            assert(0 <= i < n && spec_source_sprites(layouts, sources[i])[k].0 == entity);
        } else {
            let k = choose|k: int| 0 <= k < records.len() && (#[trigger] records[k]).0 == entity;
            assert(spec_source_sprites(layouts, sources[n - 1])[k].0 == entity);
        }
    }
}

/// After records were stored, a key is in the map if it was there before or
/// a record has it, and a key that no record has keeps its sprite.
pub proof fn lemma_insert_all_keys(
    sprites: Map<EntityId, TextModeExtractedSprite>,
    records: Seq<(EntityId, TextModeExtractedSprite)>,
    n: int,
    entity: EntityId,
)
    requires
        0 <= n <= records.len(),
    ensures
        spec_insert_all(sprites, records, n).contains_key(entity) <==> sprites.contains_key(entity)
            || exists|k: int| 0 <= k < n && (#[trigger] records[k]).0 == entity,
        (forall|k: int| 0 <= k < n ==> (#[trigger] records[k]).0 != entity) && sprites.contains_key(
            entity,
        ) ==> spec_insert_all(sprites, records, n)[entity] == sprites[entity],
    decreases n,
{
    if n > 0 {
        lemma_insert_all_keys(sprites, records, n - 1, entity);
        if exists|k: int| 0 <= k < n - 1 && (#[trigger] records[k]).0 == entity {
            let k = choose|k: int| 0 <= k < n - 1 && (#[trigger] records[k]).0 == entity;
            assert(0 <= k < n && records[k].0 == entity);
        }
        if records[n - 1].0 == entity {
            assert(0 <= n - 1 < n && records[n - 1].0 == entity);
        }
    }
}

/// Where every entity occurs once among the sources and every sprite is
/// drawn in one part, each source that contributes a sprite has exactly that
/// sprite extracted under its entity, and a source that contributes none has
/// nothing extracted.
pub proof fn lemma_extracted_one_sprite_per_entity(
    layouts: Seq<TextureAtlasLayout>,
    sources: Seq<TextModeSpriteSource>,
    n: int,
    i: int,
)
    requires
        0 <= i < n <= sources.len(),
        forall|a: int, b: int|
            0 <= a < b < n ==> (#[trigger] sources[a]).entity != (#[trigger] sources[b]).entity,
        forall|a: int| 0 <= a < n ==> (#[trigger] sources[a]).slices.is_none(),
    ensures
        ({
            let records = spec_source_sprites(layouts, sources[i]);
            let extracted = spec_extracted(layouts, sources, n);
            &&& records.len() <= 1
            &&& records.len() == 1 ==> records[0].0 == sources[i].entity && extracted.contains_key(
                sources[i].entity,
            ) && extracted[sources[i].entity] == records[0].1
            &&& records.len() == 0 ==> !extracted.contains_key(sources[i].entity)
        }),
    decreases n,
{
    let entity = sources[i].entity;
    let last = spec_source_sprites(layouts, sources[n - 1]);
    let before = spec_extracted(layouts, sources, n - 1);
    assert(last.len() <= 1);
    assert(last.len() == 1 ==> last[0].0 == sources[n - 1].entity);
    assert(spec_insert_all(before, last, 0) == before);
    if i < n - 1 {
        lemma_extracted_one_sprite_per_entity(layouts, sources, n - 1, i);
        assert(sources[i].entity != sources[n - 1].entity);
    } else {
        if before.contains_key(entity) {
            lemma_extracted_keys_have_sources(layouts, sources, n - 1, entity);
            let (a, k) = choose|a: int, k: int|
                0 <= a < n - 1 && 0 <= k < spec_source_sprites(layouts, sources[a]).len()
                    && #[trigger] spec_source_sprites(layouts, sources[a])[k].0 == entity;
            assert(spec_source_sprites(layouts, sources[a]).len() <= 1);
            assert(sources[a].entity != sources[n - 1].entity);
        }
    }
}

impl ExtractedTextModeSprites {
    /// Stores every record of `records`, in order.
    pub fn extend(&mut self, records: &Vec<(EntityId, TextModeExtractedSprite)>)
        requires
            old(self).wf(),
        ensures
            final(self).wf(),
            final(self)@ == spec_insert_all(old(self)@, records@, records@.len() as int),
    {
        let mut i: usize = 0;
        while i < records.len()
            invariant
                i <= records@.len(),
                self.wf(),
                self@ == spec_insert_all(old(self)@, records@, i as int),
            decreases records@.len() - i,
        {
            let record = &records[i];
            self.insert(record.0, record.1);
            i += 1;
        }
    }
}

/// Rebuilds the extracted sprites from the scene.
///
/// Whatever the previous frame extracted is dropped. Then every source
/// contributes its sprites, in the order of `sources`.
pub fn extract_text_mode_sprites(
    extracted_sprites: &mut ExtractedTextModeSprites,
    texture_atlases: &Vec<TextureAtlasLayout>,
    sprite_query: &Vec<TextModeSpriteSource>,
)
    requires
        forall|i: int|
            0 <= i < sprite_query@.len() ==> (#[trigger] sprite_query@[i]).is_valid(
                texture_atlases@,
            ),
    ensures
        final(extracted_sprites).wf(),
        final(extracted_sprites)@ == spec_extracted(
            texture_atlases@,
            sprite_query@,
            sprite_query@.len() as int,
        ),
{
    extracted_sprites.clear();
    let mut i: usize = 0;
    while i < sprite_query.len()
        invariant
            i <= sprite_query@.len(),
            extracted_sprites.wf(),
            forall|j: int|
                0 <= j < sprite_query@.len() ==> (#[trigger] sprite_query@[j]).is_valid(
                    texture_atlases@,
                ),
            extracted_sprites@ == spec_extracted(texture_atlases@, sprite_query@, i as int),
        decreases sprite_query@.len() - i,
    {
        let source = &sprite_query[i];
        assert(source.is_valid(texture_atlases@));
        if source.view_visibility {
            match &source.slices {
                Some(slices) => {
                    let records = slices.extract_text_mode_sprites(
                        source.entity,
                        &source.sprite,
                        source.image,
                    );
                    extracted_sprites.extend(&records);
                },
                None => {
                    let region: Option<Option<URect>> = match source.atlas {
                        Some(atlas) => match atlas.texture_rect(texture_atlases) {
                            Some(region) => Some(Some(region)),
                            None => None,
                        },
                        None => Some(None),
                    };
                    if let Some(region) = region {
                        let rect = resolve_rect(region, source.sprite.rect);
                        let sprite = TextModeExtractedSprite {
                            transform: source.transform,
                            bg: source.sprite.bg,
                            fg: source.sprite.fg,
                            alpha: source.sprite.alpha,
                            custom_size: source.sprite.custom_size,
                            rect,
                            image_handle_id: source.image,
                            flip_x: source.sprite.flip_x,
                            flip_y: source.sprite.flip_y,
                            rotation: source.sprite.rotation,
                            anchor: source.sprite.anchor.as_vec(),
                            original_entity: None,
                        };
                        let ghost before = extracted_sprites@;
                        extracted_sprites.insert(source.entity, sprite);
                        proof {
                            let records = spec_source_sprites(texture_atlases@, *source);
                            assert(records.len() == 1);
                            assert(spec_insert_all(before, records, 0) == before);
                            assert(spec_insert_all(before, records, 1) == before.insert(
                                records[0].0,
                                records[0].1,
                            ));
                        }
                    }
                },
            }
        }
        i += 1;
    }
}

} // verus!
