use graphics_core::matrix::Matrix4;
use graphics_core::pipeline::{
    default_target, instance_layout, quad_indices, quad_vertices, vertex_layout, Globals,
    InstanceProperties, COMPONENT_BYTES, GLOBALS_BYTES, GLOBALS_NAME, INSTANCE_STRIDE, MVP_NAME,
    TEXTURE_NAME, VERTEX_STRIDE,
};
use graphics_core::target::{ChannelType, Format, SurfaceType};
use graphics_core::types::BlendMode;

#[test]
fn quad_is_the_unit_square() {
    let v = quad_vertices();
    let corners = [[0, 0], [1, 0], [1, 1], [0, 1]];
    for i in 0..4 {
        assert_eq!(v[i].pos, corners[i]);
        assert_eq!(v[i].uv, corners[i]);
        assert_eq!(v[i].color, [255, 255, 255, 255]);
    }
}

#[test]
fn quad_indices_form_two_triangles() {
    assert_eq!(quad_indices(), [0, 1, 2, 0, 2, 3]);
}

#[test]
fn vertex_layout_is_packed() {
    let l = vertex_layout();
    let names: Vec<&str> = l.iter().map(|a| a.name).collect();
    assert_eq!(names, vec!["a_Pos", "a_Uv", "a_VertColor"]);
    let components: Vec<u8> = l.iter().map(|a| a.components).collect();
    assert_eq!(components, vec![2, 2, 4]);
    let offsets: Vec<u32> = l.iter().map(|a| a.offset).collect();
    assert_eq!(offsets, vec![0, 8, 16]);
    assert_eq!(VERTEX_STRIDE, 32);
    assert_eq!(l[2].offset + COMPONENT_BYTES * l[2].components as u32, VERTEX_STRIDE);
}

#[test]
fn instance_layout_is_packed() {
    let l = instance_layout();
    let names: Vec<&str> = l.iter().map(|a| a.name).collect();
    assert_eq!(names, vec!["a_Src", "a_TCol1", "a_TCol2", "a_TCol3", "a_TCol4", "a_Color"]);
    for (i, a) in l.iter().enumerate() {
        assert_eq!(a.components, 4);
        assert_eq!(a.offset, 16 * i as u32);
    }
    assert_eq!(INSTANCE_STRIDE, 96);
}

#[test]
fn uniform_block_holds_one_matrix() {
    assert_eq!(GLOBALS_BYTES, 16 * COMPONENT_BYTES);
    assert_eq!(GLOBALS_NAME, "Globals");
    assert_eq!(MVP_NAME, "u_MVP");
    assert_eq!(TEXTURE_NAME, "t_Texture");
}

#[test]
fn globals_are_column_major() {
    let m = Matrix4::from_entries([1, 2, 3, 4, 5, 6, 7, 8, 9, 10, 11, 12, 13, 14, 15, 16]);
    let g = Globals::new(&m);
    assert_eq!(
        g.mvp_matrix,
        [[1, 5, 9, 13], [2, 6, 10, 14], [3, 7, 11, 15], [4, 8, 12, 16]]
    );
}

#[test]
fn default_target_is_srgb_with_alpha_blending() {
    let t = default_target();
    assert_eq!(t.name, "Target0");
    assert_eq!(t.format, Format { surface: SurfaceType::R8G8B8A8, channel: ChannelType::Srgb });
    assert_eq!(t.mask, 0x0f);
    assert_eq!(t.blend, Some(BlendMode::Alpha));
}

#[test]
fn default_instance_properties() {
    let p = InstanceProperties::default();
    assert_eq!(p.src, [0, 0, 1, 1]);
    assert_eq!(p.col1, [1, 0, 0, 0]);
    assert_eq!(p.col2, [0, 1, 0, 0]);
    assert_eq!(p.col3, [1, 0, 1, 0]);
    assert_eq!(p.col4, [1, 0, 0, 1]);
    assert_eq!(p.color, [255, 255, 255, 255]);
}

#[test]
fn instance_properties_as_text() {
    let p = InstanceProperties::default();
    assert_eq!(
        p.to_text(),
        "Src: (0,0+1,1)\nColor: [255, 255, 255, 255]\nMatrix: [1, 0, 1, 1]\n[0, 1, 0, 0]\n[0, 0, 1, 0]\n[0, 0, 0, 1]"
    );
    let q = InstanceProperties {
        src: [-1, 2, 30, 400],
        col1: [1, 2, 3, 4],
        col2: [5, 6, 7, 8],
        col3: [9, 10, 11, 12],
        col4: [13, 14, 15, -16],
        color: [0, 128, 255, 7],
    };
    assert_eq!(
        q.to_text(),
        "Src: (-1,2+30,400)\nColor: [0, 128, 255, 7]\nMatrix: [1, 5, 9, 13]\n[2, 6, 10, 14]\n[3, 7, 11, 15]\n[4, 8, 12, -16]"
    );
}
