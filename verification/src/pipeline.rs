//! The fixed layout of the pipeline: what a vertex, an instance and the
//! uniform block hold, and the one quad that every instanced draw shares.
//!
//! Positions and texture coordinates are whole numbers in units of the quad
//! and of the texture; a colour channel runs from 0 to 255.

use crate::matrix::{entry, Matrix4};
use crate::target::{ChannelType, Format, SurfaceType};
use crate::text::{decimal, push_decimal};
use crate::types::BlendMode;
use vstd::prelude::*;

verus! {

/// One corner of the quad.
#[derive(Clone, Copy, Debug, PartialEq, Eq)]
pub struct Vertex {
    /// Position.
    pub pos: [i32; 2],
    /// Texture coordinate.
    pub uv: [i32; 2],
    /// Vertex colour.
    pub color: [u8; 4],
}

/// What differs from one drawn object to the next.
#[derive(Clone, Copy, Debug, PartialEq, Eq)]
pub struct InstanceProperties {
    /// The part of the texture that is drawn: x, y, width, height.
    pub src: [i32; 4],
    /// The first column of the object's transform.
    pub col1: [i32; 4],
    /// The second column of the object's transform.
    pub col2: [i32; 4],
    /// The third column of the object's transform.
    pub col3: [i32; 4],
    /// The fourth column of the object's transform.
    pub col4: [i32; 4],
    /// The tint.
    pub color: [u8; 4],
}

/// The uniform block: the combined transform, column by column.
#[derive(Clone, Copy, Debug, PartialEq, Eq)]
pub struct Globals {
    pub mvp_matrix: [[i32; 4]; 4],
}

/// One attribute of a vertex or an instance: its name in the shaders, the
/// number of its components, and where it starts, in bytes.
#[derive(Clone, Copy, Debug, PartialEq, Eq)]
pub struct Attribute {
    pub name: &'static str,
    pub components: u8,
    pub offset: u32,
}

/// The render target that a pipeline writes to.
#[derive(Clone, Copy, Debug, PartialEq, Eq)]
pub struct TargetBinding {
    pub name: &'static str,
    pub format: Format,
    /// The channels that are written, as bits: red 1, green 2, blue 4,
    /// alpha 8.
    pub mask: u8,
    pub blend: Option<BlendMode>,
}

/// The size in bytes of one component of an attribute.
pub const COMPONENT_BYTES: u32 = 4;

/// The size in bytes of a vertex.
pub const VERTEX_STRIDE: u32 = 32;

/// The size in bytes of an instance.
pub const INSTANCE_STRIDE: u32 = 96;

/// The size in bytes of the uniform block.
pub const GLOBALS_BYTES: u32 = 64;

/// The name of the uniform block in the shaders.
pub const GLOBALS_NAME: &'static str = "Globals";

/// The name of the combined transform in the uniform block.
pub const MVP_NAME: &'static str = "u_MVP";

/// The name of the texture in the shaders.
pub const TEXTURE_NAME: &'static str = "t_Texture";

/// Whether attributes follow one another without gaps from offset 0 and
/// end at `stride`.
pub open spec fn packed(layout: Seq<Attribute>, stride: int) -> bool {
    &&& forall|i: int|
        0 <= i < layout.len() ==> (#[trigger] layout[i]).offset == (if i == 0 {
            0
        } else {
            layout[i - 1].offset + 4 * layout[i - 1].components
        })
    &&& layout.len() > 0 ==> layout.last().offset + 4 * layout.last().components == stride
}

/// The four corners of the unit quad: top-left, top-right, bottom-right,
/// bottom-left, each with its own position as texture coordinate, in white.
pub open spec fn quad_corner(i: int) -> Vertex {
    let x: i32 = if i == 1 || i == 2 {
        1
    } else {
        0
    };
    let y: i32 = if i == 2 || i == 3 {
        1
    } else {
        0
    };
    Vertex { pos: [x, y], uv: [x, y], color: [255u8, 255u8, 255u8, 255u8] }
}

/// The vertices of the quad that every instanced draw shares.
pub fn quad_vertices() -> (v: [Vertex; 4])
    ensures
        forall|i: int| 0 <= i < 4 ==> #[trigger] v[i] == quad_corner(i),
{
    let white: [u8; 4] = [255, 255, 255, 255];
    let v = [
        Vertex { pos: [0, 0], uv: [0, 0], color: white },
        Vertex { pos: [1, 0], uv: [1, 0], color: white },
        Vertex { pos: [1, 1], uv: [1, 1], color: white },
        Vertex { pos: [0, 1], uv: [0, 1], color: white },
    ];
    assert forall|i: int| 0 <= i < 4 implies #[trigger] v[i] == quad_corner(i) by {
        let c = quad_corner(i);
        assert(v[i].pos@ =~= c.pos@);
        assert(v[i].uv@ =~= c.uv@);
        assert(v[i].color@ =~= c.color@);
    }
    v
}

/// The indices that cut the quad into two triangles: corners 0, 1, 2 and
/// corners 0, 2, 3.
pub fn quad_indices() -> (r: [u16; 6])
    ensures
        r@ == seq![0u16, 1u16, 2u16, 0u16, 2u16, 3u16],
{
    let r: [u16; 6] = [0, 1, 2, 0, 2, 3];
    assert(r@ =~= seq![0u16, 1u16, 2u16, 0u16, 2u16, 3u16]);
    r
}

/// The attributes of a vertex, in the order in which they are laid out.
pub fn vertex_layout() -> (l: [Attribute; 3])
    ensures
        packed(l@, VERTEX_STRIDE as int),
        l[0].name@ == "a_Pos"@ && l[0].components == 2,
        l[1].name@ == "a_Uv"@ && l[1].components == 2,
        l[2].name@ == "a_VertColor"@ && l[2].components == 4,
{
    [
        Attribute { name: "a_Pos", components: 2, offset: 0 },
        Attribute { name: "a_Uv", components: 2, offset: 8 },
        Attribute { name: "a_VertColor", components: 4, offset: 16 },
    ]
}

/// The attributes of an instance, in the order in which they are laid out.
pub fn instance_layout() -> (l: [Attribute; 6])
    ensures
        packed(l@, INSTANCE_STRIDE as int),
        forall|i: int| 0 <= i < 6 ==> (#[trigger] l[i]).components == 4,
        l[0].name@ == "a_Src"@,
        l[1].name@ == "a_TCol1"@,
        l[2].name@ == "a_TCol2"@,
        l[3].name@ == "a_TCol3"@,
        l[4].name@ == "a_TCol4"@,
        l[5].name@ == "a_Color"@,
{
    [
        Attribute { name: "a_Src", components: 4, offset: 0 },
        Attribute { name: "a_TCol1", components: 4, offset: 16 },
        Attribute { name: "a_TCol2", components: 4, offset: 32 },
        Attribute { name: "a_TCol3", components: 4, offset: 48 },
        Attribute { name: "a_TCol4", components: 4, offset: 64 },
        Attribute { name: "a_Color", components: 4, offset: 80 },
    ]
}

/// The render target of a pipeline that is built without one of its own:
/// eight bits per channel read as sRGB, every channel written, alpha
/// blending.
pub fn default_target() -> (t: TargetBinding)
    ensures
        t.name@ == "Target0"@,
        t.format == (Format { surface: SurfaceType::R8G8B8A8, channel: ChannelType::Srgb }),
        t.mask == 0x0f,
        t.blend == Some(BlendMode::Alpha),
{
    TargetBinding {
        name: "Target0",
        format: Format { surface: SurfaceType::R8G8B8A8, channel: ChannelType::Srgb },
        mask: 0x0f,
        blend: Some(BlendMode::Alpha),
    }
}

impl Globals {
    /// The uniform block for a combined transform: column `c` of the block
    /// is column `c` of the matrix.
    pub fn new(mvp: &Matrix4) -> (g: Globals)
        ensures
            forall|c: int, r: int|
                0 <= c < 4 && 0 <= r < 4 ==> #[trigger] g.mvp_matrix[c][r] == entry(mvp@, r, c),
    {
        let e = mvp.entries();
        let g = Globals {
            mvp_matrix: [
                [e[0], e[4], e[8], e[12]],
                [e[1], e[5], e[9], e[13]],
                [e[2], e[6], e[10], e[14]],
                [e[3], e[7], e[11], e[15]],
            ],
        };
        assert forall|c: int, r: int| 0 <= c < 4 && 0 <= r < 4 implies #[trigger] g.mvp_matrix[c][r]
            == entry(mvp@, r, c) by {
            assert(mvp@[4 * r + c] == e[4 * r + c]);
        }
        g
    }
}

/// Four numbers between brackets, separated by a comma and a space.
pub open spec fn list_text(a: int, b: int, c: int, d: int) -> Seq<char> {
    "["@ + decimal(a) + ", "@ + decimal(b) + ", "@ + decimal(c) + ", "@ + decimal(d) + "]"@
}

/// What an instance shows of itself: its source rectangle as corner and
/// extent, its colour, and its transform row by row.
pub open spec fn instance_text(p: InstanceProperties) -> Seq<char> {
    "Src: ("@ + decimal(p.src[0] as int) + ","@ + decimal(p.src[1] as int) + "+"@ + decimal(
        p.src[2] as int,
    ) + ","@ + decimal(p.src[3] as int) + ")\nColor: "@ + list_text(
        p.color[0] as int,
        p.color[1] as int,
        p.color[2] as int,
        p.color[3] as int,
    ) + "\nMatrix: "@ + list_text(
        p.col1[0] as int,
        p.col2[0] as int,
        p.col3[0] as int,
        p.col4[0] as int,
    ) + "\n"@ + list_text(p.col1[1] as int, p.col2[1] as int, p.col3[1] as int, p.col4[1] as int)
        + "\n"@ + list_text(
        p.col1[2] as int,
        p.col2[2] as int,
        p.col3[2] as int,
        p.col4[2] as int,
    ) + "\n"@ + list_text(p.col1[3] as int, p.col2[3] as int, p.col3[3] as int, p.col4[3] as int)
}

/// Appends four numbers between brackets.
fn push_list(out: &mut String, a: i64, b: i64, c: i64, d: i64)
    ensures
        final(out)@ == old(out)@ + list_text(a as int, b as int, c as int, d as int),
{
    out.append("[");
    push_decimal(out, a);
    out.append(", ");
    push_decimal(out, b);
    out.append(", ");
    push_decimal(out, c);
    out.append(", ");
    push_decimal(out, d);
    out.append("]");
    assert(final(out)@ =~= old(out)@ + list_text(a as int, b as int, c as int, d as int));
}

impl InstanceProperties {
    /// The instance as text.
    pub fn to_text(&self) -> (text: String)
        ensures
            text@ == instance_text(*self),
    {
        let mut text = String::from_str("Src: (");
        push_decimal(&mut text, self.src[0] as i64);
        text.append(",");
        push_decimal(&mut text, self.src[1] as i64);
        text.append("+");
        push_decimal(&mut text, self.src[2] as i64);
        text.append(",");
        push_decimal(&mut text, self.src[3] as i64);
        text.append(")\nColor: ");
        push_list(
            &mut text,
            self.color[0] as i64,
            self.color[1] as i64,
            self.color[2] as i64,
            self.color[3] as i64,
        );
        text.append("\nMatrix: ");
        push_list(
            &mut text,
            self.col1[0] as i64,
            self.col2[0] as i64,
            self.col3[0] as i64,
            self.col4[0] as i64,
        );
        text.append("\n");
        push_list(
            &mut text,
            self.col1[1] as i64,
            self.col2[1] as i64,
            self.col3[1] as i64,
            self.col4[1] as i64,
        );
        text.append("\n");
        push_list(
            &mut text,
            self.col1[2] as i64,
            self.col2[2] as i64,
            self.col3[2] as i64,
            self.col4[2] as i64,
        );
        text.append("\n");
        push_list(
            &mut text,
            self.col1[3] as i64,
            self.col2[3] as i64,
            self.col3[3] as i64,
            self.col4[3] as i64,
        );
        assert(text@ =~= instance_text(*self));
        text
    }
}

impl Default for InstanceProperties {
    /// The whole texture, untinted.
    fn default() -> (p: InstanceProperties)
        ensures
            p.src@ == seq![0i32, 0i32, 1i32, 1i32],
            p.col1@ == seq![1i32, 0i32, 0i32, 0i32],
            p.col2@ == seq![0i32, 1i32, 0i32, 0i32],
            p.col3@ == seq![1i32, 0i32, 1i32, 0i32],
            p.col4@ == seq![1i32, 0i32, 0i32, 1i32],
            p.color@ == seq![255u8, 255u8, 255u8, 255u8],
    {
        let p = InstanceProperties {
            src: [0, 0, 1, 1],
            col1: [1, 0, 0, 0],
            col2: [0, 1, 0, 0],
            col3: [1, 0, 1, 0],
            col4: [1, 0, 0, 1],
            color: [255, 255, 255, 255],
        };
        assert(p.src@ =~= seq![0i32, 0i32, 1i32, 1i32]);
        assert(p.col1@ =~= seq![1i32, 0i32, 0i32, 0i32]);
        assert(p.col2@ =~= seq![0i32, 1i32, 0i32, 0i32]);
        assert(p.col3@ =~= seq![1i32, 0i32, 1i32, 0i32]);
        assert(p.col4@ =~= seq![1i32, 0i32, 0i32, 1i32]);
        assert(p.color@ =~= seq![255u8, 255u8, 255u8, 255u8]);
        p
    }
}

} // verus!
