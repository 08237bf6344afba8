use idlescreen::render_plan::{
    build_uniforms, cells_buffer_size, needs_bind_group, plan_frame, AtlasState, TargetState, Uniforms,
};

const ALIGN: u32 = 256;

#[test]
fn targets_pad_rows_to_alignment() {
    let mut t = TargetState { target_width: 0, target_height: 0, has_texture: false };
    let r = t.prepare_targets(10, 4, 8, 16, ALIGN).unwrap();
    assert_eq!((r.content_w, r.content_h, r.unpadded, r.padded), (80, 64, 320, 512));
    assert!(r.recreate_bg);
    assert_eq!(t, TargetState { target_width: 80, target_height: 64, has_texture: true });
    let again = t.prepare_targets(10, 4, 8, 16, ALIGN).unwrap();
    assert!(!again.recreate_bg);
    let exact = t.prepare_targets(16, 1, 4, 1, ALIGN).unwrap();
    assert_eq!((exact.unpadded, exact.padded), (256, 256));
    assert!(exact.recreate_bg);
}

#[test]
fn empty_frame_plans_nothing() {
    let mut t = TargetState { target_width: 3, target_height: 4, has_texture: true };
    assert_eq!(t.prepare_targets(0, 4, 8, 16, ALIGN), None);
    assert_eq!(t.prepare_targets(4, 4, 8, 0, ALIGN), None);
    assert_eq!(t, TargetState { target_width: 3, target_height: 4, has_texture: true });
}

#[test]
fn atlas_recreated_when_dirty_missing_or_resized() {
    let mut a = AtlasState { atlas_width: 0, atlas_height: 0, has_texture: false };
    let p = a.prepare_atlas(false, 16, 6, 8, 16);
    assert!(p.recreate && p.upload);
    assert_eq!((p.width, p.height), (128, 96));
    let p = a.prepare_atlas(false, 16, 6, 8, 16);
    assert!(!p.recreate && !p.upload);
    let p = a.prepare_atlas(true, 16, 6, 8, 16);
    assert!(p.recreate && p.upload);
    let p = a.prepare_atlas(false, 16, 7, 8, 16);
    assert!(p.recreate);
}

#[test]
fn bind_group_rules() {
    assert!(needs_bind_group(true, true, true));
    assert!(needs_bind_group(false, false, true));
    assert!(!needs_bind_group(false, true, true));
    assert!(!needs_bind_group(true, false, false));
}

#[test]
fn uniforms_and_buffer_size() {
    assert_eq!(
        build_uniforms(80, 24, 8, 16, 16, 6, true),
        Uniforms { cols: 80, rows: 24, cell_width: 8, cell_height: 16, atlas_cols: 16, atlas_rows: 6, scanlines: 1, padding: 0 }
    );
    assert_eq!(cells_buffer_size(80, 24), (80 * 24 * 16) as u64);
}

#[test]
fn frame_plan_combines_decisions() {
    let mut t = TargetState { target_width: 80, target_height: 64, has_texture: true };
    let mut a = AtlasState { atlas_width: 128, atlas_height: 96, has_texture: true };
    let targets = t.prepare_targets(10, 4, 8, 16, ALIGN).unwrap();
    let p = plan_frame(targets, &mut a, true, false, false, 10, 4, 8, 16, 16, 6, false, false);
    assert!(!p.upload_atlas && !p.rebuild_bind_group);
    assert_eq!(p.instance_count, 40);
    let p = plan_frame(targets, &mut a, true, true, false, 10, 4, 8, 16, 16, 6, false, true);
    assert!(p.upload_atlas && p.rebuild_bind_group);
    assert_eq!(p.uniforms.scanlines, 1);
    let p = plan_frame(targets, &mut a, false, false, false, 10, 4, 8, 16, 16, 6, true, false);
    assert!(p.atlas.recreate && p.upload_atlas && p.rebuild_bind_group);
}
