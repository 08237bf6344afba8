//! Decisions of the GPU cell renderer: target and atlas sizes, when GPU
//! resources must be recreated, the padded row pitch of the read-back
//! buffer, and the uniforms handed to the shader. The GPU calls themselves
//! are made by the caller, which follows the returned plan.
use crate::gpu_cells::GpuCell;
use vstd::prelude::*;

verus! {

/// Sizes of the render target and its read-back buffer for one frame.
#[derive(Clone, Copy, Debug, PartialEq, Eq)]
pub struct RenderTargets {
    pub content_w: u32,
    pub content_h: u32,
    /// Bytes per row of the image (4 per pixel).
    pub unpadded: u32,
    /// Bytes per row of the read-back buffer, a multiple of the copy alignment.
    pub padded: u32,
    /// The target texture and read-back buffer must be (re)created.
    pub recreate_bg: bool,
}

/// What the renderer holds of its render target.
#[derive(Clone, Copy, Debug, PartialEq, Eq)]
pub struct TargetState {
    pub target_width: u32,
    pub target_height: u32,
    pub has_texture: bool,
}

/// What the renderer holds of its glyph atlas texture.
#[derive(Clone, Copy, Debug, PartialEq, Eq)]
pub struct AtlasState {
    pub atlas_width: usize,
    pub atlas_height: usize,
    pub has_texture: bool,
}

/// What to do with the glyph atlas this frame.
#[derive(Clone, Copy, Debug, PartialEq, Eq)]
pub struct AtlasPlan {
    /// The atlas texture must be (re)created at the new size.
    pub recreate: bool,
    /// The atlas image must be uploaded.
    pub upload: bool,
    pub width: usize,
    pub height: usize,
}

/// Shader uniforms.
#[derive(Clone, Copy, Debug, PartialEq, Eq)]
pub struct Uniforms {
    pub cols: u32,
    pub rows: u32,
    pub cell_width: u32,
    pub cell_height: u32,
    pub atlas_cols: u32,
    pub atlas_rows: u32,
    pub scanlines: u32,
    pub padding: u32,
}

/// Everything the renderer decides for one frame.
#[derive(Clone, Copy, Debug, PartialEq, Eq)]
pub struct FramePlan {
    pub targets: RenderTargets,
    pub atlas: AtlasPlan,
    /// The atlas image must be uploaded.
    pub upload_atlas: bool,
    /// The bind group must be rebuilt.
    pub rebuild_bind_group: bool,
    pub uniforms: Uniforms,
    /// Number of instances to draw: one per cell.
    pub instance_count: u32,
}

/// Bytes needed to reach the next multiple of `align` from `n`.
pub open spec fn row_pad(n: int, align: int) -> int {
    (align - n % align) % align
}

/// Render-target width: the grid width in pixels, truncated to 32 bits.
pub open spec fn content_width(cols: usize, cell_width: usize) -> u32 {
    (cols * cell_width) as u32
}

/// Render-target height: the grid height in pixels, truncated to 32 bits.
pub open spec fn content_height(rows: usize, cell_height: usize) -> u32 {
    (rows * cell_height) as u32
}

/// The arithmetic of target planning stays within the machine types.
pub open spec fn targets_fit(cols: usize, rows: usize, cell_width: usize, cell_height: usize, align: u32) -> bool {
    let w = content_width(cols, cell_width);
    let h = content_height(rows, cell_height);
    &&& cols * cell_width <= usize::MAX
    &&& rows * cell_height <= usize::MAX
    &&& (w != 0 && h != 0) ==> {
        &&& align > 0
        &&& w * 4 <= u32::MAX
        &&& w * 4 + row_pad(w * 4, align as int) <= u32::MAX
    }
}

/// The targets for a frame of the given size, given the current target state.
pub open spec fn targets_for(
    state: TargetState,
    cols: usize,
    rows: usize,
    cell_width: usize,
    cell_height: usize,
    align: u32,
) -> Option<RenderTargets> {
    let w = content_width(cols, cell_width);
    let h = content_height(rows, cell_height);
    if w == 0 || h == 0 {
        None
    } else {
        Some(
            RenderTargets {
                content_w: w,
                content_h: h,
                unpadded: (w * 4) as u32,
                padded: (w * 4 + row_pad(w * 4, align as int)) as u32,
                recreate_bg: state.target_width != w || state.target_height != h || !state.has_texture,
            },
        )
    }
}

/// Padding `n` up with `row_pad` gives the least multiple of `align` that is at least `n`.
pub proof fn lemma_row_pad(n: int, align: int)
    requires
        n >= 0,
        align > 0,
    ensures
        0 <= row_pad(n, align) < align,
        (n + row_pad(n, align)) % align == 0,
        forall|m: int| #![trigger m % align] n <= m && m % align == 0 ==> n + row_pad(n, align) <= m,
{
    let r = n % align;
    let q = n / align;
    vstd::arithmetic::div_mod::lemma_fundamental_div_mod(n, align);
    vstd::arithmetic::div_mod::lemma_mod_bound(n, align);
    if r == 0 {
        vstd::arithmetic::div_mod::lemma_mod_self_0(align);
        assert(row_pad(n, align) == 0);
    } else {
        vstd::arithmetic::div_mod::lemma_small_mod((align - r) as nat, align as nat);
        assert(row_pad(n, align) == align - r);
        assert(n + row_pad(n, align) == align * (q + 1)) by (nonlinear_arith)
            requires
                n == align * q + r,
                row_pad(n, align) == align - r,
        ;
        vstd::arithmetic::div_mod::lemma_mod_multiples_basic(q + 1, align);
        assert((q + 1) * align == align * (q + 1)) by (nonlinear_arith);
    }
    assert forall|m: int| #![trigger m % align] n <= m && m % align == 0 implies n + row_pad(n, align) <= m by {
        vstd::arithmetic::div_mod::lemma_fundamental_div_mod(m, align);
        let qm = m / align;
        if r != 0 {
            assert(n + row_pad(n, align) <= m) by (nonlinear_arith)
                requires
                    n == align * q + r,
                    0 < r < align,
                    m == align * qm,
                    n <= m,
                    row_pad(n, align) == align - r,
                    n + row_pad(n, align) == align * (q + 1),
            ;
        }
    }
}

impl TargetState {
    /// Sizes the render target for a `cols` x `rows` grid of `cell_width` x
    /// `cell_height` pixel cells. Returns `None` for an empty frame, leaving
    /// the state alone; otherwise records the new size and says whether the
    /// caller must recreate the target texture and read-back buffer.
    pub fn prepare_targets(
        &mut self,
        cols: usize,
        rows: usize,
        cell_width: usize,
        cell_height: usize,
        align: u32,
    ) -> (r: Option<RenderTargets>)
        requires
            targets_fit(cols, rows, cell_width, cell_height, align),
        ensures
            r == targets_for(*old(self), cols, rows, cell_width, cell_height, align),
            r is None ==> *final(self) == *old(self),
            r is Some ==> *final(self) == (TargetState {
                target_width: r->Some_0.content_w,
                target_height: r->Some_0.content_h,
                has_texture: true,
            }),
    {
        let content_w = (cols * cell_width) as u32;
        let content_h = (rows * cell_height) as u32;
        if content_w == 0 || content_h == 0 {
            return None;
        }
        let unpadded = content_w * 4;
        let padded = unpadded + (align - unpadded % align) % align;
        let recreate_bg = self.target_width != content_w || self.target_height != content_h
            || !self.has_texture;
        if recreate_bg {
            self.target_width = content_w;
            self.target_height = content_h;
            self.has_texture = true;
        }
        Some(RenderTargets { content_w, content_h, unpadded, padded, recreate_bg })
    }
}

/// The atlas plan for the given request and current atlas state.
pub open spec fn atlas_plan_for(
    state: AtlasState,
    atlas_dirty: bool,
    atlas_cols: usize,
    atlas_rows: usize,
    cell_width: usize,
    cell_height: usize,
) -> AtlasPlan {
    let w = (atlas_cols * cell_width) as usize;
    let h = (atlas_rows * cell_height) as usize;
    let recreate = atlas_dirty || !state.has_texture || state.atlas_width != w || state.atlas_height != h;
    AtlasPlan { recreate, upload: atlas_dirty || recreate, width: w, height: h }
}

impl AtlasState {
    /// Sizes the glyph atlas; the texture is recreated when the atlas is
    /// dirty, missing or resized, and uploaded whenever it is dirty or new.
    pub fn prepare_atlas(
        &mut self,
        atlas_dirty: bool,
        atlas_cols: usize,
        atlas_rows: usize,
        cell_width: usize,
        cell_height: usize,
    ) -> (plan: AtlasPlan)
        requires
            atlas_cols * cell_width <= usize::MAX,
            atlas_rows * cell_height <= usize::MAX,
        ensures
            plan == atlas_plan_for(*old(self), atlas_dirty, atlas_cols, atlas_rows, cell_width, cell_height),
            *final(self) == (AtlasState {
                atlas_width: plan.width,
                atlas_height: plan.height,
                has_texture: true,
            }),
            plan.recreate ==> *final(self) == (AtlasState {
                atlas_width: plan.width,
                atlas_height: plan.height,
                has_texture: true,
            }),
            !plan.recreate ==> *final(self) == *old(self),
    {
        let atlas_w = atlas_cols * cell_width;
        let atlas_h = atlas_rows * cell_height;
        let recreate = atlas_dirty || !self.has_texture || self.atlas_width != atlas_w
            || self.atlas_height != atlas_h;
        if recreate {
            self.atlas_width = atlas_w;
            self.atlas_height = atlas_h;
            self.has_texture = true;
        }
        AtlasPlan { recreate, upload: atlas_dirty || recreate, width: atlas_w, height: atlas_h }
    }
}

/// Whether the bind group must be (re)built: when asked to, or when there is
/// none; never without an atlas texture to bind.
pub fn needs_bind_group(recreate: bool, has_bind_group: bool, has_atlas_texture: bool) -> (r: bool)
    ensures
        r == ((recreate || !has_bind_group) && has_atlas_texture),
{
    if !recreate && has_bind_group {
        return false;
    }
    has_atlas_texture
}

/// Shader uniforms for a frame; each size is truncated to 32 bits.
pub fn build_uniforms(
    cols: usize,
    rows: usize,
    cell_width: usize,
    cell_height: usize,
    atlas_cols: usize,
    atlas_rows: usize,
    scanlines: bool,
) -> (u: Uniforms)
    ensures
        u == (Uniforms {
            cols: cols as u32,
            rows: rows as u32,
            cell_width: cell_width as u32,
            cell_height: cell_height as u32,
            atlas_cols: atlas_cols as u32,
            atlas_rows: atlas_rows as u32,
            scanlines: if scanlines {
                1
            } else {
                0
            },
            padding: 0,
        }),
{
    Uniforms {
        cols: cols as u32,
        rows: rows as u32,
        cell_width: cell_width as u32,
        cell_height: cell_height as u32,
        atlas_cols: atlas_cols as u32,
        atlas_rows: atlas_rows as u32,
        scanlines: if scanlines {
            1
        } else {
            0
        },
        padding: 0,
    }
}

/// Bytes of the per-cell storage buffer for a `cols` x `rows` grid.
pub fn cells_buffer_size(cols: usize, rows: usize) -> (n: u64)
    requires
        cols * rows * vstd::layout::size_of::<GpuCell>() <= usize::MAX,
        cols * rows <= usize::MAX,
    ensures
        n == (cols * rows * vstd::layout::size_of::<GpuCell>()) as u64,
{
    let cell = core::mem::size_of::<GpuCell>();
    (cols * rows * cell) as u64
}

/// Plans the rest of a frame once its targets are known: the atlas, whether
/// the atlas is uploaded and the bind group rebuilt, and the uniforms.
/// `cells_recreated` and `uniforms_recreated` say whether the caller had to
/// allocate new cell and uniform buffers for this frame.
pub fn plan_frame(
    targets: RenderTargets,
    atlas: &mut AtlasState,
    has_bind_group: bool,
    cells_recreated: bool,
    uniforms_recreated: bool,
    cols: usize,
    rows: usize,
    cell_width: usize,
    cell_height: usize,
    atlas_cols: usize,
    atlas_rows: usize,
    atlas_dirty: bool,
    scanlines: bool,
) -> (plan: FramePlan)
    requires
        atlas_cols * cell_width <= usize::MAX,
        atlas_rows * cell_height <= usize::MAX,
        cols * rows <= usize::MAX,
    ensures
        ({
            let a = atlas_plan_for(*old(atlas), atlas_dirty, atlas_cols, atlas_rows, cell_width, cell_height);
            let recreate_bind = targets.recreate_bg || cells_recreated || uniforms_recreated || a.recreate;
            &&& plan.targets == targets
            &&& plan.atlas == a
            &&& plan.upload_atlas == (atlas_dirty || recreate_bind)
            &&& plan.rebuild_bind_group == (recreate_bind || !has_bind_group)
            &&& plan.instance_count == (cols * rows) as u32
            &&& plan.uniforms == (Uniforms {
                cols: cols as u32,
                rows: rows as u32,
                cell_width: cell_width as u32,
                cell_height: cell_height as u32,
                atlas_cols: atlas_cols as u32,
                atlas_rows: atlas_rows as u32,
                scanlines: if scanlines { 1 } else { 0 },
                padding: 0,
            })
            &&& a.recreate ==> *final(atlas) == (AtlasState {
                atlas_width: a.width,
                atlas_height: a.height,
                has_texture: true,
            })
            &&& !a.recreate ==> *final(atlas) == *old(atlas)
        }),
{
    let atlas_plan = atlas.prepare_atlas(atlas_dirty, atlas_cols, atlas_rows, cell_width, cell_height);
    let recreate_bind = targets.recreate_bg || cells_recreated || uniforms_recreated
        || atlas_plan.recreate;
    let uniforms = build_uniforms(cols, rows, cell_width, cell_height, atlas_cols, atlas_rows, scanlines);
    FramePlan {
        targets,
        atlas: atlas_plan,
        upload_atlas: atlas_dirty || recreate_bind,
        rebuild_bind_group: recreate_bind || !has_bind_group,
        uniforms,
        instance_count: (cols * rows) as u32,
    }
}

/// A planned read-back row pitch is a multiple of the alignment, holds a full
/// image row, and is the least such pitch.
pub proof fn lemma_targets_row_pitch(
    state: TargetState,
    cols: usize,
    rows: usize,
    cell_width: usize,
    cell_height: usize,
    align: u32,
)
    requires
        targets_fit(cols, rows, cell_width, cell_height, align),
        targets_for(state, cols, rows, cell_width, cell_height, align) is Some,
    ensures
        ({
            let t = targets_for(state, cols, rows, cell_width, cell_height, align)->Some_0;
            &&& t.unpadded == t.content_w * 4
            &&& t.padded % align == 0
            &&& t.unpadded <= t.padded < t.unpadded + align
            &&& forall|m: int| #![trigger m % (align as int)] t.unpadded <= m && m % (align as int) == 0 ==> t.padded <= m
        }),
{
    let w = content_width(cols, cell_width);
    lemma_row_pad(w * 4, align as int);
}

/// Planning the same frame twice in a row recreates nothing the second time.
pub proof fn lemma_targets_stable(
    state: TargetState,
    cols: usize,
    rows: usize,
    cell_width: usize,
    cell_height: usize,
    align: u32,
)
    requires
        targets_for(state, cols, rows, cell_width, cell_height, align) is Some,
    ensures
        ({
            let t = targets_for(state, cols, rows, cell_width, cell_height, align)->Some_0;
            let next = TargetState { target_width: t.content_w, target_height: t.content_h, has_texture: true };
            targets_for(next, cols, rows, cell_width, cell_height, align) == Some(
                RenderTargets { recreate_bg: false, ..t },
            )
        }),
{
}

/// A clean atlas planned twice at the same size is neither recreated nor
/// uploaded the second time.
pub proof fn lemma_atlas_stable(
    state: AtlasState,
    atlas_dirty: bool,
    atlas_cols: usize,
    atlas_rows: usize,
    cell_width: usize,
    cell_height: usize,
)
    ensures
        ({
            let a = atlas_plan_for(state, atlas_dirty, atlas_cols, atlas_rows, cell_width, cell_height);
            let next = if a.recreate {
                AtlasState { atlas_width: a.width, atlas_height: a.height, has_texture: true }
            } else {
                state
            };
            let b = atlas_plan_for(next, false, atlas_cols, atlas_rows, cell_width, cell_height);
            !b.recreate && !b.upload
        }),
{
}

/// A frame's targets: none for an empty frame; otherwise the grid size in
/// pixels (truncated to 32 bits), four bytes per pixel, and a target and
/// read-back buffer recreated exactly when the recorded size differs from
/// the frame's or no texture exists.
pub proof fn lemma_targets_follow_frame_size(
    state: TargetState,
    cols: usize,
    rows: usize,
    cell_width: usize,
    cell_height: usize,
    align: u32,
)
    ensures
        ({
            let w = (cols * cell_width) as u32;
            let h = (rows * cell_height) as u32;
            let r = targets_for(state, cols, rows, cell_width, cell_height, align);
            &&& (r is None) == (w == 0 || h == 0)
            &&& r matches Some(t) ==> {
                &&& t.content_w == w
                &&& t.content_h == h
                &&& t.unpadded == (w * 4) as u32
                &&& t.recreate_bg == (state.target_width != w || state.target_height != h || !state.has_texture)
            }
        }),
{
}

/// The atlas plan: the atlas is `atlas_cols * cell_width` by
/// `atlas_rows * cell_height` pixels; it is recreated exactly when it is
/// dirty, missing, or its recorded width or height differs, and uploaded
/// exactly when it is dirty or recreated. After planning, the recorded atlas
/// is the planned one.
pub proof fn lemma_atlas_follows_request(
    state: AtlasState,
    atlas_dirty: bool,
    atlas_cols: usize,
    atlas_rows: usize,
    cell_width: usize,
    cell_height: usize,
)
    requires
        atlas_cols * cell_width <= usize::MAX,
        atlas_rows * cell_height <= usize::MAX,
    ensures
        ({
            let p = atlas_plan_for(state, atlas_dirty, atlas_cols, atlas_rows, cell_width, cell_height);
            let w = atlas_cols * cell_width;
            let h = atlas_rows * cell_height;
            &&& p.width == w
            &&& p.height == h
            &&& p.recreate == (atlas_dirty || !state.has_texture || state.atlas_width != w || state.atlas_height != h)
            &&& p.upload == (atlas_dirty || p.recreate)
            &&& !p.recreate ==> state == (AtlasState { atlas_width: p.width, atlas_height: p.height, has_texture: true })
        }),
{
}

} // verus!
