//! The mesh painter: owns the texture cache and turns a frame's tessellated
//! meshes into an ordered plan of scissor-bounded draw calls, plus the
//! decision whether the font atlas must be (re-)uploaded.
//!
//! GPU textures are opaque integer capabilities: the host shell uploads and
//! binds them; this module decides, per mesh, which texture is bound and
//! which scissor rectangle applies, or that the mesh is skipped.

use crate::geom::Rect;
use crate::geom::Scale;
use crate::geom::Scissor;
use crate::geom::lemma_offscreen_clip_has_no_scissor;
use crate::geom::scissor_for;
use crate::geom::scissor_spec;
use vstd::prelude::*;

verus! {

/// What a mesh samples from: the GUI's font atlas, or a texture the host
/// registered under an id of its own choosing.
#[derive(Clone, Copy, PartialEq, Eq, Structural, Debug)]
pub enum TextureId {
    Atlas,
    User(u64),
}

/// A tessellated mesh as the painter sees it: its clip rectangle in logical
/// points and the texture it samples. Vertex and index data stay with the
/// host shell, keyed by the mesh's position in the frame's list.
#[derive(Clone, Copy, PartialEq, Eq, Structural, Debug)]
pub struct ClippedMesh {
    pub clip: Rect,
    pub texture: TextureId,
}

/// The font atlas as the painter sees it: a version counter that changes
/// whenever the bitmap does, and the bitmap's size in pixels.
#[derive(Clone, Copy, PartialEq, Eq, Structural, Debug)]
pub struct AtlasInfo {
    pub version: u64,
    pub width_px: u32,
    pub height_px: u32,
}

/// The texture a draw call binds: the painter's atlas texture, or a host
/// texture by its opaque native handle.
#[derive(Clone, Copy, PartialEq, Eq, Structural, Debug)]
pub enum BoundTexture {
    Atlas,
    Native(u64),
}

/// One alpha-blended, scissor-bounded triangle draw call: the mesh at
/// `mesh_index` in the frame's list, drawn with `texture` bound, writing
/// only inside `scissor`.
#[derive(Clone, Copy, PartialEq, Eq, Structural, Debug)]
pub struct DrawCall {
    pub mesh_index: usize,
    pub scissor: Scissor,
    pub texture: BoundTexture,
}

/// One frame's paint plan: whether the atlas bitmap must be uploaded first,
/// then the draw calls in input order.
#[derive(Debug)]
pub struct PaintPlan {
    pub upload_atlas: bool,
    pub draws: Vec<DrawCall>,
}

/// The first handle registered under `id`, scanning left to right.
pub open spec fn lookup_spec(cache: Seq<(u64, u64)>, id: u64) -> Option<u64>
    decreases cache.len(),
{
    if cache.len() == 0 {
        None
    } else if cache[0].0 == id {
        Some(cache[0].1)
    } else {
        lookup_spec(cache.subrange(1, cache.len() as int), id)
    }
}

/// Whether the atlas on the GPU (if any) is stale for `version`.
pub open spec fn needs_upload_spec(uploaded: Option<u64>, version: u64) -> bool {
    uploaded != Some(version)
}

/// The draw call (if any) that one mesh contributes: skipped when its clip
/// rectangle leaves no scissor area, or when it names a user texture that is
/// not in the cache.
pub open spec fn draw_for_spec(
    cache: Seq<(u64, u64)>,
    m: ClippedMesh,
    i: usize,
    num: int,
    den: int,
    w: int,
    h: int,
) -> Option<DrawCall> {
    match scissor_spec(m.clip, num, den, w, h) {
        None => None,
        Some(scissor) => match m.texture {
            TextureId::Atlas => Some(
                DrawCall { mesh_index: i, scissor, texture: BoundTexture::Atlas },
            ),
            TextureId::User(id) => match lookup_spec(cache, id) {
                None => None,
                Some(native) => Some(
                    DrawCall { mesh_index: i, scissor, texture: BoundTexture::Native(native) },
                ),
            },
        },
    }
}

/// The draw calls of a whole frame, in mesh order.
pub open spec fn draws_spec(
    cache: Seq<(u64, u64)>,
    meshes: Seq<ClippedMesh>,
    num: int,
    den: int,
    w: int,
    h: int,
) -> Seq<DrawCall>
    decreases meshes.len(),
{
    if meshes.len() == 0 {
        Seq::empty()
    } else {
        let prior = draws_spec(cache, meshes.drop_last(), num, den, w, h);
        match draw_for_spec(
            cache,
            meshes.last(),
            (meshes.len() - 1) as usize,
            num,
            den,
            w,
            h,
        ) {
            None => prior,
            Some(dc) => prior + seq![dc],
        }
    }
}

/// Owns the mapping from texture ids to GPU texture capabilities and plans
/// each frame's draw calls.
pub struct Painter {
    /// Host-registered textures: `(id, native handle)` pairs, ids unique.
    pub user_textures: Vec<(u64, u64)>,
    /// The atlas version currently uploaded to the GPU, if any.
    pub atlas_version: Option<u64>,
}

impl Painter {
    /// Ids in the cache are unique, so a lookup is unambiguous.
    pub open spec fn wf(self) -> bool {
        forall|i: int, j: int|
            0 <= i < j < self.user_textures@.len() ==> (#[trigger] self.user_textures@[i]).0 != (
            #[trigger] self.user_textures@[j]).0
    }

    /// A fresh painter: nothing registered, no atlas uploaded.
    pub fn new() -> (r: Painter)
        ensures
            r.wf(),
            r.user_textures@.len() == 0,
            r.atlas_version is None,
    {
        Painter { user_textures: Vec::new(), atlas_version: None }
    }

    /// The number of host-registered textures the cache holds.
    pub fn user_texture_count(&self) -> (n: usize)
        ensures
            n == self.user_textures@.len(),
    {
        self.user_textures.len()
    }

    /// The native handle registered under `id`, if any.
    #[verifier::loop_isolation(false)]
    pub fn find_user_texture(&self, id: u64) -> (r: Option<u64>)
        ensures
            r == lookup_spec(self.user_textures@, id),
    {
        let mut i: usize = 0;
        proof {
            assert(self.user_textures@.subrange(0, self.user_textures@.len() as int)
                =~= self.user_textures@);
        }
        while i < self.user_textures.len()
            invariant
                0 <= i <= self.user_textures@.len(),
                lookup_spec(self.user_textures@, id) == lookup_spec(
                    self.user_textures@.subrange(i as int, self.user_textures@.len() as int),
                    id,
                ),
            decreases self.user_textures@.len() - i,
        {
            let entry = self.user_textures[i];
            proof {
                assert(self.user_textures@.subrange(
                    i as int,
                    self.user_textures@.len() as int,
                )[0] == self.user_textures@[i as int]);
                assert(self.user_textures@.subrange(
                    i as int,
                    self.user_textures@.len() as int,
                ).subrange(
                    1,
                    self.user_textures@.len() - i as int,
                ) =~= self.user_textures@.subrange(
                    i as int + 1,
                    self.user_textures@.len() as int,
                ));
            }
            if entry.0 == id {
                return Some(entry.1);
            }
            i = i + 1;
        }
        proof {
            assert(self.user_textures@.subrange(
                i as int,
                self.user_textures@.len() as int,
            ).len() == 0);
        }
        None
    }

    /// Registers (or re-registers) a host texture under `id`. Re-registering
    /// an id replaces its handle in place: the cache does not grow, and the
    /// old handle leaves the mapping. The handle is borrowed from the host,
    /// never destroyed by the painter.
    #[verifier::loop_isolation(false)]
    pub fn register_texture(&mut self, id: u64, native: u64)
        requires
            old(self).wf(),
        ensures
            final(self).wf(),
            final(self).atlas_version == old(self).atlas_version,
            lookup_spec(final(self).user_textures@, id) == Some(native),
            forall|other: u64|
                other != id ==> #[trigger] lookup_spec(final(self).user_textures@, other)
                    == lookup_spec(old(self).user_textures@, other),
            final(self).user_textures@.len() == if lookup_spec(old(self).user_textures@, id)
                is Some {
                old(self).user_textures@.len()
            } else {
                old(self).user_textures@.len() + 1
            },
    {
        let ghost cache0 = self.user_textures@;
        let mut i: usize = 0;
        while i < self.user_textures.len()
            invariant
                0 <= i <= self.user_textures@.len(),
                self.user_textures@ == cache0,
                self.atlas_version == old(self).atlas_version,
                forall|k: int| 0 <= k < i ==> (#[trigger] cache0[k]).0 != id,
            decreases self.user_textures@.len() - i,
        {
            let entry = self.user_textures[i];
            if entry.0 == id {
                self.user_textures[i] = (id, native);
                proof {
                    lemma_lookup_after_set(cache0, self.user_textures@, i as int, id, native);
                    lemma_lookup_found_at(cache0, i as int, id);
                }
                return ;
            }
            i = i + 1;
        }
        self.user_textures.push((id, native));
        proof {
            lemma_lookup_absent(cache0, id);
            lemma_lookup_after_push(cache0, id, native);
        }
    }

    /// Removes the mapping for `id`, if present. Only the mapping entry goes:
    /// the handle was borrowed from the host and is not destroyed.
    #[verifier::loop_isolation(false)]
    pub fn unregister_texture(&mut self, id: u64)
        requires
            old(self).wf(),
        ensures
            final(self).wf(),
            final(self).atlas_version == old(self).atlas_version,
            lookup_spec(final(self).user_textures@, id) is None,
            forall|other: u64|
                other != id ==> #[trigger] lookup_spec(final(self).user_textures@, other)
                    == lookup_spec(old(self).user_textures@, other),
            final(self).user_textures@.len() == if lookup_spec(old(self).user_textures@, id)
                is Some {
                old(self).user_textures@.len() - 1
            } else {
                old(self).user_textures@.len() as int
            },
    {
        let ghost cache0 = self.user_textures@;
        let mut i: usize = 0;
        while i < self.user_textures.len()
            invariant
                0 <= i <= self.user_textures@.len(),
                self.user_textures@ == cache0,
                self.atlas_version == old(self).atlas_version,
                forall|k: int| 0 <= k < i ==> (#[trigger] cache0[k]).0 != id,
            decreases self.user_textures@.len() - i,
        {
            let entry = self.user_textures[i];
            if entry.0 == id {
                self.user_textures.remove(i);
                proof {
                    assert(old(self).wf());
                    lemma_lookup_after_remove(cache0, self.user_textures@, i as int, id);
                    lemma_lookup_found_at(cache0, i as int, id);
                }
                return ;
            }
            i = i + 1;
        }
        proof {
            lemma_lookup_absent(cache0, id);
        }
    }

    /// Plans one frame: decides whether the atlas bitmap must be uploaded
    /// (it must exactly when the version on the GPU differs), then lists,
    /// in input order, one scissor-bounded draw call per mesh — except that
    /// a mesh whose clip rectangle leaves no scissor area, or whose user
    /// texture is unknown, is skipped and the rest of the frame still draws.
    #[verifier::loop_isolation(false)]
    pub fn paint_meshes(
        &mut self,
        width_px: u32,
        height_px: u32,
        scale: Scale,
        meshes: &Vec<ClippedMesh>,
        atlas: &AtlasInfo,
    ) -> (plan: PaintPlan)
        requires
            old(self).wf(),
            scale.wf(),
        ensures
            final(self).wf(),
            final(self).user_textures == old(self).user_textures,
            final(self).atlas_version == Some(atlas.version),
            plan.upload_atlas == needs_upload_spec(old(self).atlas_version, atlas.version),
            plan.draws@ == draws_spec(
                old(self).user_textures@,
                meshes@,
                scale.num as int,
                scale.den as int,
                width_px as int,
                height_px as int,
            ),
    {
        let upload_atlas = match self.atlas_version {
            Some(v) => v != atlas.version,
            None => true,
        };
        self.atlas_version = Some(atlas.version);
        let ghost cache = self.user_textures@;
        let ghost num = scale.num as int;
        let ghost den = scale.den as int;
        let ghost w = width_px as int;
        let ghost h = height_px as int;
        let mut draws: Vec<DrawCall> = Vec::new();
        let mut i: usize = 0;
        while i < meshes.len()
            invariant
                0 <= i <= meshes@.len(),
                self.user_textures@ == cache,
                self.wf(),
                scale.wf(),
                num == scale.num as int,
                den == scale.den as int,
                w == width_px as int,
                h == height_px as int,
                draws@ == draws_spec(cache, meshes@.subrange(0, i as int), num, den, w, h),
            decreases meshes@.len() - i,
        {
            let m = meshes[i];
            let ghost prefix = meshes@.subrange(0, i as int);
            match scissor_for(&m.clip, scale, width_px, height_px) {
                None => {},
                Some(scissor) => {
                    match m.texture {
                        TextureId::Atlas => {
                            draws.push(
                                DrawCall { mesh_index: i, scissor, texture: BoundTexture::Atlas },
                            );
                        },
                        TextureId::User(id) => {
                            match self.find_user_texture(id) {
                                None => {},
                                Some(native) => {
                                    draws.push(
                                        DrawCall {
                                            mesh_index: i,
                                            scissor,
                                            texture: BoundTexture::Native(native),
                                        },
                                    );
                                },
                            }
                        },
                    }
                },
            }
            proof {
                let next = meshes@.subrange(0, i as int + 1);
                assert(next.drop_last() =~= prefix);
                assert(next.last() == meshes@[i as int]);
                assert(draws@ =~= draws_spec(cache, next, num, den, w, h));
            }
            i = i + 1;
        }
        proof {
            assert(meshes@.subrange(0, meshes@.len() as int) =~= meshes@);
        }
        PaintPlan { upload_atlas, draws }
    }
}

/// After a write at position `i`, lookups for the written id find the new
/// handle, and (when ids are unique and position `i` held `id`) lookups for
/// every other id are unchanged.
proof fn lemma_lookup_after_set(
    cache0: Seq<(u64, u64)>,
    cache1: Seq<(u64, u64)>,
    i: int,
    id: u64,
    native: u64,
)
    requires
        0 <= i < cache0.len(),
        cache1 == cache0.update(i, (id, native)),
        cache0[i].0 == id,
        forall|k: int| 0 <= k < i ==> (#[trigger] cache0[k]).0 != id,
    ensures
        lookup_spec(cache1, id) == Some(native),
        forall|other: u64|
            other != id ==> #[trigger] lookup_spec(cache1, other) == lookup_spec(cache0, other),
        cache1.len() == cache0.len(),
    decreases cache0.len(),
{
    let sub0 = cache0.subrange(1, cache0.len() as int);
    let sub1 = cache1.subrange(1, cache1.len() as int);
    if i == 0 {
        assert(cache1[0] == (id, native));
        assert(lookup_spec(cache1, id) == Some(native));
        assert forall|other: u64| other != id implies #[trigger] lookup_spec(cache1, other)
            == lookup_spec(cache0, other) by {
            assert(sub1 =~= sub0);
            assert(lookup_spec(cache1, other) == lookup_spec(sub1, other));
            assert(lookup_spec(cache0, other) == lookup_spec(sub0, other));
        }
    } else {
        assert(sub1 =~= sub0.update(i - 1, (id, native)));
        assert(cache0[0].0 != id);
        assert(cache1[0] == cache0[0]);
        assert forall|k: int| 0 <= k < i - 1 implies (#[trigger] sub0[k]).0 != id by {
            assert(sub0[k] == cache0[k + 1]);
        }
        assert(sub0[i - 1] == cache0[i]);
        lemma_lookup_after_set(sub0, sub1, i - 1, id, native);
        assert(lookup_spec(cache1, id) == lookup_spec(sub1, id));
        assert forall|other: u64| other != id implies #[trigger] lookup_spec(cache1, other)
            == lookup_spec(cache0, other) by {
            if cache0[0].0 == other {
                assert(lookup_spec(cache1, other) == Some(cache1[0].1));
                assert(lookup_spec(cache0, other) == Some(cache0[0].1));
            } else {
                assert(lookup_spec(cache1, other) == lookup_spec(sub1, other));
                assert(lookup_spec(cache0, other) == lookup_spec(sub0, other));
            }
        }
    }
}

/// When ids are unique up to `i` and position `i` holds `id`, the lookup for
/// `id` finds exactly that entry.
proof fn lemma_lookup_found_at(cache: Seq<(u64, u64)>, i: int, id: u64)
    requires
        0 <= i < cache.len(),
        cache[i].0 == id,
        forall|k: int| 0 <= k < i ==> (#[trigger] cache[k]).0 != id,
    ensures
        lookup_spec(cache, id) == Some(cache[i].1),
    decreases i,
{
    if i > 0 {
        let sub = cache.subrange(1, cache.len() as int);
        assert forall|k: int| 0 <= k < i - 1 implies (#[trigger] sub[k]).0 != id by {
            assert(sub[k] == cache[k + 1]);
        }
        assert(sub[i - 1] == cache[i]);
        lemma_lookup_found_at(sub, i - 1, id);
        assert(cache[0].0 != id);
        assert(lookup_spec(cache, id) == lookup_spec(sub, id));
    }
}

/// When no entry holds `id`, the lookup misses.
proof fn lemma_lookup_absent(cache: Seq<(u64, u64)>, id: u64)
    requires
        forall|k: int| 0 <= k < cache.len() ==> (#[trigger] cache[k]).0 != id,
    ensures
        lookup_spec(cache, id) is None,
    decreases cache.len(),
{
    if cache.len() > 0 {
        let sub = cache.subrange(1, cache.len() as int);
        assert forall|k: int| 0 <= k < sub.len() implies (#[trigger] sub[k]).0 != id by {
            assert(sub[k] == cache[k + 1]);
        }
        lemma_lookup_absent(sub, id);
        assert(cache[0].0 != id);
        assert(lookup_spec(cache, id) == lookup_spec(sub, id));
    }
}

/// Appending a fresh id: its lookup finds the new handle, every other
/// lookup is unchanged.
proof fn lemma_lookup_after_push(cache: Seq<(u64, u64)>, id: u64, native: u64)
    requires
        forall|k: int| 0 <= k < cache.len() ==> (#[trigger] cache[k]).0 != id,
    ensures
        lookup_spec(cache.push((id, native)), id) == Some(native),
        forall|other: u64|
            other != id ==> #[trigger] lookup_spec(cache.push((id, native)), other) == lookup_spec(
                cache,
                other,
            ),
    decreases cache.len(),
{
    let pushed = cache.push((id, native));
    if cache.len() == 0 {
        assert(pushed[0] == (id, native));
        assert(lookup_spec(pushed, id) == Some(native));
        assert forall|other: u64| other != id implies #[trigger] lookup_spec(pushed, other)
            == lookup_spec(cache, other) by {
            let subp = pushed.subrange(1, pushed.len() as int);
            assert(subp =~= Seq::<(u64, u64)>::empty());
            assert(lookup_spec(pushed, other) == lookup_spec(subp, other));
            assert(lookup_spec(subp, other) is None);
            assert(lookup_spec(cache, other) is None);
        }
    } else {
        let sub = cache.subrange(1, cache.len() as int);
        let subp = pushed.subrange(1, pushed.len() as int);
        assert(subp =~= sub.push((id, native)));
        assert forall|k: int| 0 <= k < sub.len() implies (#[trigger] sub[k]).0 != id by {
            assert(sub[k] == cache[k + 1]);
        }
        lemma_lookup_after_push(sub, id, native);
        assert(pushed[0] == cache[0]);
        assert(cache[0].0 != id);
        assert(lookup_spec(pushed, id) == lookup_spec(subp, id));
        assert forall|other: u64| other != id implies #[trigger] lookup_spec(pushed, other)
            == lookup_spec(cache, other) by {
            if cache[0].0 == other {
                assert(lookup_spec(pushed, other) == Some(pushed[0].1));
                assert(lookup_spec(cache, other) == Some(cache[0].1));
            } else {
                assert(lookup_spec(pushed, other) == lookup_spec(subp, other));
                assert(lookup_spec(cache, other) == lookup_spec(sub, other));
            }
        }
    }
}

/// After removing position `i` (which held `id`, ids unique up to `i`), the
/// lookup for `id` misses when ids were unique overall, and every other
/// lookup is unchanged.
proof fn lemma_lookup_after_remove(cache0: Seq<(u64, u64)>, cache1: Seq<(u64, u64)>, i: int, id: u64)
    requires
        0 <= i < cache0.len(),
        cache1 == cache0.remove(i),
        cache0[i].0 == id,
        forall|k: int| 0 <= k < i ==> (#[trigger] cache0[k]).0 != id,
        forall|p: int, q: int|
            0 <= p < q < cache0.len() ==> (#[trigger] cache0[p]).0 != (#[trigger] cache0[q]).0,
    ensures
        lookup_spec(cache1, id) is None,
        forall|other: u64|
            other != id ==> #[trigger] lookup_spec(cache1, other) == lookup_spec(cache0, other),
        forall|p: int, q: int|
            0 <= p < q < cache1.len() ==> (#[trigger] cache1[p]).0 != (#[trigger] cache1[q]).0,
    decreases cache0.len(),
{
    assert forall|p: int, q: int| 0 <= p < q < cache1.len() implies (#[trigger] cache1[p]).0 != (
    #[trigger] cache1[q]).0 by {
        let p0 = if p < i {
            p
        } else {
            p + 1
        };
        let q0 = if q < i {
            q
        } else {
            q + 1
        };
        assert(cache1[p] == cache0[p0]);
        assert(cache1[q] == cache0[q0]);
    }
    if i == 0 {
        assert(cache1 =~= cache0.subrange(1, cache0.len() as int));
        assert forall|k: int| 0 <= k < cache1.len() implies (#[trigger] cache1[k]).0 != id by {
            assert(cache1[k] == cache0[k + 1]);
        }
        lemma_lookup_absent(cache1, id);
        assert forall|other: u64| other != id implies #[trigger] lookup_spec(cache1, other)
            == lookup_spec(cache0, other) by {
            assert(cache0[0].0 == id);
            assert(lookup_spec(cache0, other) == lookup_spec(
                cache0.subrange(1, cache0.len() as int),
                other,
            ));
        }
    } else {
        let sub0 = cache0.subrange(1, cache0.len() as int);
        let sub1 = cache1.subrange(1, cache1.len() as int);
        assert(sub1 =~= sub0.remove(i - 1));
        assert forall|k: int| 0 <= k < i - 1 implies (#[trigger] sub0[k]).0 != id by {
            assert(sub0[k] == cache0[k + 1]);
        }
        assert(sub0[i - 1] == cache0[i]);
        assert forall|p: int, q: int| 0 <= p < q < sub0.len() implies (#[trigger] sub0[p]).0 != (
        #[trigger] sub0[q]).0 by {
            assert(sub0[p] == cache0[p + 1]);
            assert(sub0[q] == cache0[q + 1]);
        }
        lemma_lookup_after_remove(sub0, sub1, i - 1, id);
        assert(cache1[0] == cache0[0]);
        assert(cache0[0].0 != id);
        assert(lookup_spec(cache1, id) == lookup_spec(sub1, id));
        assert forall|other: u64| other != id implies #[trigger] lookup_spec(cache1, other)
            == lookup_spec(cache0, other) by {
            if cache0[0].0 == other {
                assert(lookup_spec(cache1, other) == Some(cache1[0].1));
                assert(lookup_spec(cache0, other) == Some(cache0[0].1));
            } else {
                assert(lookup_spec(cache1, other) == lookup_spec(sub1, other));
                assert(lookup_spec(cache0, other) == lookup_spec(sub0, other));
            }
        }
    }
}

/// Every planned draw call points back into the mesh list.
pub proof fn lemma_draw_indices_bounded(
    cache: Seq<(u64, u64)>,
    meshes: Seq<ClippedMesh>,
    num: int,
    den: int,
    w: int,
    h: int,
)
    requires
        meshes.len() <= usize::MAX,
    ensures
        forall|j: int|
            0 <= j < draws_spec(cache, meshes, num, den, w, h).len() ==> (#[trigger] draws_spec(
                cache,
                meshes,
                num,
                den,
                w,
                h,
            )[j]).mesh_index < meshes.len(),
    decreases meshes.len(),
{
    if meshes.len() > 0 {
        lemma_draw_indices_bounded(cache, meshes.drop_last(), num, den, w, h);
    }
}

/// A mesh whose clip rectangle leaves no scissor area contributes no draw
/// call: no entry of the plan points at its position.
pub proof fn lemma_skipped_mesh_not_drawn(
    cache: Seq<(u64, u64)>,
    meshes: Seq<ClippedMesh>,
    num: int,
    den: int,
    w: int,
    h: int,
    i: int,
)
    requires
        meshes.len() <= usize::MAX,
        0 <= i < meshes.len(),
        scissor_spec(meshes[i].clip, num, den, w, h) is None,
    ensures
        forall|j: int|
            0 <= j < draws_spec(cache, meshes, num, den, w, h).len() ==> (#[trigger] draws_spec(
                cache,
                meshes,
                num,
                den,
                w,
                h,
            )[j]).mesh_index != i,
    decreases meshes.len(),
{
    let full = draws_spec(cache, meshes, num, den, w, h);
    let prior = draws_spec(cache, meshes.drop_last(), num, den, w, h);
    if i == meshes.len() - 1 {
        lemma_draw_indices_bounded(cache, meshes.drop_last(), num, den, w, h);
        assert(full == prior);
    } else {
        assert(meshes.drop_last()[i] == meshes[i]);
        lemma_skipped_mesh_not_drawn(cache, meshes.drop_last(), num, den, w, h, i);
    }
}

/// A mesh whose clip rectangle lies entirely outside the target contributes
/// no draw call.
pub proof fn lemma_offscreen_mesh_not_drawn(
    cache: Seq<(u64, u64)>,
    meshes: Seq<ClippedMesh>,
    num: int,
    den: int,
    w: int,
    h: int,
    i: int,
)
    requires
        meshes.len() <= usize::MAX,
        num >= 1,
        den >= 1,
        w >= 1,
        h >= 1,
        0 <= i < meshes.len(),
        meshes[i].clip.max_x <= 0 || meshes[i].clip.max_y <= 0 || meshes[i].clip.min_x * num >= w
            * den || meshes[i].clip.min_y * num >= h * den,
    ensures
        forall|j: int|
            0 <= j < draws_spec(cache, meshes, num, den, w, h).len() ==> (#[trigger] draws_spec(
                cache,
                meshes,
                num,
                den,
                w,
                h,
            )[j]).mesh_index != i,
{
    lemma_offscreen_clip_has_no_scissor(meshes[i].clip, num, den, w, h);
    lemma_skipped_mesh_not_drawn(cache, meshes, num, den, w, h, i);
}

/// A frame with no meshes plans no draw calls at all.
pub proof fn lemma_empty_frame_draws_nothing(
    cache: Seq<(u64, u64)>,
    num: int,
    den: int,
    w: int,
    h: int,
)
    ensures
        draws_spec(cache, Seq::<ClippedMesh>::empty(), num, den, w, h).len() == 0,
{
}

/// Once the atlas at some version is on the GPU, planning another frame at
/// the same version uploads nothing.
pub proof fn lemma_atlas_upload_idempotent(version: u64)
    ensures
        !needs_upload_spec(Some(version), version),
{
}

} // verus!
