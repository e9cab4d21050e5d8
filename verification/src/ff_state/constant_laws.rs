//! That the constants of a shader are the state, in the rows where the shader reads them.

use super::sections::{
    column, fog_word, holds_columns, is_ambient_section, is_factor, is_fog_section,
    is_lights_section, is_material_section, is_viewport_section, light_row, packed_rgba,
    transform_row, EyeLight, Section,
};
use super::lights::shining;
use super::stages::transforms_coords;
use super::FfStateView;
use crate::bytes::word_at;
use crate::convert::color::unorm_f32;
use crate::d3d9::{D3DMATERIAL9, D3DMATRIX};
use crate::dxso::shading::{multiplied, nth, vec4, Name, Value};
use crate::dxso::vs_position::moved;
use crate::dxso::FfVsKey;
use vstd::prelude::*;

verus! {

/// Whether a shader is given the rows of a section, `val` being what the bits of a float
/// stand for.
pub open spec fn shows(vars: Map<Name, Value>, s: Section, val: spec_fn(u32) -> real) -> bool {
    forall|i: int|
        0 <= i < s.len() ==> #[trigger] vars[Name::Row((s.start_row + i) as nat)] == vec4(
            val(s.row(i)[0]),
            val(s.row(i)[1]),
            val(s.row(i)[2]),
            val(s.row(i)[3]),
        )
}

/// Component `j` of a row vector times a matrix.
pub open spec fn times_matrix(v: Value, m: D3DMATRIX, val: spec_fn(u32) -> real, j: int) -> real {
    multiplied(v.x, val(m.m@[j])) + multiplied(v.y, val(m.m@[4 + j])) + multiplied(
        v.z,
        val(m.m@[8 + j]),
    ) + multiplied(v.w, val(m.m@[12 + j]))
}

/// What a shader computes with the rows of a matrix is the vector times the matrix.
pub proof fn rows_multiply_by_their_matrix(
    s: Section,
    m: spec_fn(int) -> D3DMATRIX,
    n: int,
    q: int,
    vars: Map<Name, Value>,
    val: spec_fn(u32) -> real,
    v: Value,
    j: int,
)
    requires
        holds_columns(s, m, n),
        shows(vars, s, val),
        0 <= q < n,
        0 <= j < 4,
        v.n == 4,
    ensures
        nth(moved(vars, s.start_row + 4 * q, v), j) == times_matrix(v, m(q), val, j),
{
    let r = 4 * q + j;
    assert(r / 4 == q && r % 4 == j);
    assert(s.row(r) == column(m(r / 4), r % 4));
    assert(vars[Name::Row((s.start_row + r) as nat)].n == 4);
}

/// The same of the matrices of the texture coordinates, which start at row 63: a stage that
/// asks for a transform gets the one that was set for it.
pub proof fn coordinate_rows_multiply_by_their_matrix(
    st: FfStateView,
    s: Section,
    stage: int,
    vars: Map<Name, Value>,
    val: spec_fn(u32) -> real,
    v: Value,
    j: int,
)
    requires
        s.start_row == 63,
        4 * stage + 4 <= s.len(),
        forall|i: int| 0 <= i < s.len() ==> #[trigger] s.row(i) == transform_row(st, i),
        shows(vars, s, val),
        0 <= stage < 8,
        st.stages[stage][24] != 0,
        0 <= j < 4,
        v.n == 4,
    ensures
        nth(moved(vars, 63 + 4 * stage, v), j) == times_matrix(
            v,
            st.transforms[(16 + stage) as u32],
            val,
            j,
        ),
{
    let r = 4 * stage + j;
    assert(r / 4 == stage && r % 4 == j);
    assert(s.row(r) == transform_row(st, r));
    assert(transforms_coords(st.stages, stage));
    assert(vars[Name::Row((s.start_row + r) as nat)].n == 4);
}

/// Fog is read from row 8: where it starts, where it ends and how dense it is.
pub proof fn fog_is_in_its_row(
    rs: Seq<u32>,
    mode: u8,
    s: Section,
    vars: Map<Name, Value>,
    val: spec_fn(u32) -> real,
)
    requires
        is_fog_section(rs, mode, s),
        shows(vars, s, val),
        mode != 0,
    ensures
        vars[Name::Row(8)].x == val(rs[36]),
        vars[Name::Row(8)].y == val(rs[37]),
        vars[Name::Row(8)].z == val(rs[38]),
{
    assert(vars[Name::Row((s.start_row + 0) as nat)].n == 4);
}

/// Ambient light is read from row 9, in the order red, green, blue, alpha.
pub proof fn ambient_light_is_in_its_row(
    rs: Seq<u32>,
    s: Section,
    vars: Map<Name, Value>,
    val: spec_fn(u32) -> real,
)
    requires
        is_ambient_section(rs, s),
        shows(vars, s, val),
    ensures
        ({
            let c = rs[139] as int;
            let channel = |b: int| val(unorm_f32(b as u8) as u32);
            &&& vars[Name::Row(9)].x == channel(c / 0x1_0000 % 0x100)
            &&& vars[Name::Row(9)].y == channel(c / 0x100 % 0x100)
            &&& vars[Name::Row(9)].z == channel(c % 0x100)
            &&& vars[Name::Row(9)].w == channel(c / 0x100_0000)
        }),
{
    assert(vars[Name::Row((s.start_row + 0) as nat)].n == 4);
}

/// The material is read from row 10 on: its diffuse colour and, where there is lighting, its
/// ambient, specular and emissive colours and, where there are highlights, its power.
pub proof fn the_material_is_in_its_rows(
    m: D3DMATERIAL9,
    k: FfVsKey,
    s: Section,
    vars: Map<Name, Value>,
    val: spec_fn(u32) -> real,
)
    requires
        is_material_section(m, k, s),
        shows(vars, s, val),
    ensures
        vars[Name::Row(10)] == vec4(
            val(m.diffuse.r),
            val(m.diffuse.g),
            val(m.diffuse.b),
            val(m.diffuse.a),
        ),
        k.flags.lighting_enabled ==> {
            &&& vars[Name::Row(11)] == vec4(
                val(m.ambient.r),
                val(m.ambient.g),
                val(m.ambient.b),
                val(m.ambient.a),
            )
            &&& vars[Name::Row(12)] == vec4(
                val(m.specular.r),
                val(m.specular.g),
                val(m.specular.b),
                val(m.specular.a),
            )
            &&& vars[Name::Row(13)] == vec4(
                val(m.emissive.r),
                val(m.emissive.g),
                val(m.emissive.b),
                val(m.emissive.a),
            )
            &&& k.flags.specular_enable ==> vars[Name::Row(14)].x == val(m.power)
        },
{
    assert(vars[Name::Row((s.start_row + 0) as nat)].n == 4);
    if k.flags.lighting_enabled {
        assert(vars[Name::Row((s.start_row + 1) as nat)].n == 4);
        assert(vars[Name::Row((s.start_row + 2) as nat)].n == 4);
        assert(vars[Name::Row((s.start_row + 3) as nat)].n == 4);
        if k.flags.specular_enable {
            assert(vars[Name::Row((s.start_row + 4) as nat)].n == 4);
        }
    }
}

/// The light in slot `i` is read from row 15 + 6i on: its position, its direction with the
/// falloff of a spot, its diffuse colour, its ambient colour with the edge of the cone, its
/// attenuation with its range, and its specular colour with the width of the cone.
pub proof fn lights_are_in_their_rows(
    st: FfStateView,
    k: FfVsKey,
    eye: Seq<EyeLight>,
    s: Section,
    i: int,
    vars: Map<Name, Value>,
    val: spec_fn(u32) -> real,
)
    requires
        is_lights_section(st, k, eye, Some(s)),
        shows(vars, s, val),
        0 <= i,
        6 * i + 6 <= s.len(),
    ensures
        ({
            let light = st.lights[shining(st.lights)[i]].light;
            let e = eye[i];
            let row = |r: int| vars[Name::Row((15 + 6 * i + r) as nat)];
            &&& row(0).x == val(e.position@[0]) && row(0).y == val(e.position@[1]) && row(0).z
                == val(e.position@[2])
            &&& row(1) == vec4(
                val(e.direction@[0]),
                val(e.direction@[1]),
                val(e.direction@[2]),
                val(e.falloff),
            )
            &&& row(2) == vec4(
                val(light.diffuse.r),
                val(light.diffuse.g),
                val(light.diffuse.b),
                val(light.diffuse.a),
            )
            &&& row(3) == vec4(
                val(light.ambient.r),
                val(light.ambient.g),
                val(light.ambient.b),
                val(e.spot_offset),
            )
            &&& row(4) == vec4(
                val(light.attenuation0),
                val(light.attenuation1),
                val(light.attenuation2),
                val(light.range),
            )
            &&& row(5) == vec4(
                val(light.specular.r),
                val(light.specular.g),
                val(light.specular.b),
                val(e.spot_scale),
            )
        }),
{
    light_row_shown(st, k, eye, s, i, 0, vars, val);
    light_row_shown(st, k, eye, s, i, 1, vars, val);
    light_row_shown(st, k, eye, s, i, 2, vars, val);
    light_row_shown(st, k, eye, s, i, 3, vars, val);
    light_row_shown(st, k, eye, s, i, 4, vars, val);
    light_row_shown(st, k, eye, s, i, 5, vars, val);
}

proof fn light_row_shown(
    st: FfStateView,
    k: FfVsKey,
    eye: Seq<EyeLight>,
    s: Section,
    i: int,
    r: int,
    vars: Map<Name, Value>,
    val: spec_fn(u32) -> real,
)
    requires
        is_lights_section(st, k, eye, Some(s)),
        shows(vars, s, val),
        0 <= i,
        0 <= r < 6,
        6 * i + 6 <= s.len(),
    ensures
        ({
            let x = light_row(st.lights[shining(st.lights)[i]].light, eye[i], r);
            vars[Name::Row((15 + 6 * i + r) as nat)] == vec4(
                val(x[0]),
                val(x[1]),
                val(x[2]),
                val(x[3]),
            )
        }),
{
    let q = 6 * i + r;
    assert(q / 6 == i && q % 6 == r);
    assert(s.row(q) == light_row(st.lights[shining(st.lights)[q / 6]].light, eye[q / 6], q % 6));
    assert(vars[Name::Row((s.start_row + q) as nat)].n == 4);
}

/// For vertices that are already transformed row 0 holds the size of the viewport, width and
/// height, then its left and top edge.
pub proof fn the_viewport_is_in_its_row(
    viewport: (u32, u32, u32, u32),
    s: Section,
    vars: Map<Name, Value>,
    val: spec_fn(u32) -> real,
)
    requires
        is_viewport_section(viewport, s),
        shows(vars, s, val),
    ensures
        ({
            let (left, top, width, height) = viewport;
            vars[Name::Row(0)] == vec4(val(width), val(height), val(left), val(top))
        }),
{
    assert(vars[Name::Row((s.start_row + 0) as nat)].n == 4);
}

/// The texture factor is handed to a pixel shader in the order red, green, blue, alpha.
pub proof fn the_factor_is_in_its_order(rs: Seq<u32>, bytes: Seq<u8>)
    requires
        is_factor(rs, bytes),
    ensures
        ({
            let c = rs[60] as int;
            let channel = |b: int| unorm_f32(b as u8) as u32;
            &&& word_at(bytes, 0) == channel(c / 0x1_0000 % 0x100)
            &&& word_at(bytes, 1) == channel(c / 0x100 % 0x100)
            &&& word_at(bytes, 2) == channel(c % 0x100)
            &&& word_at(bytes, 3) == channel(c / 0x100_0000)
        }),
{
    assert(word_at(bytes, 0) == packed_rgba(rs[60])[0]);
    assert(word_at(bytes, 1) == packed_rgba(rs[60])[1]);
    assert(word_at(bytes, 2) == packed_rgba(rs[60])[2]);
    assert(word_at(bytes, 3) == packed_rgba(rs[60])[3]);
}

/// The fog of a pixel shader is its colour, red first, then where it starts, where it ends,
/// how dense it is, and the depth bias.
pub proof fn pixel_fog_is_in_its_order(rs: Seq<u32>)
    ensures
        ({
            let c = rs[34] as int;
            let channel = |b: int| unorm_f32(b as u8) as u32;
            &&& fog_word(rs, 0) == channel(c / 0x1_0000 % 0x100)
            &&& fog_word(rs, 1) == channel(c / 0x100 % 0x100)
            &&& fog_word(rs, 2) == channel(c % 0x100)
            &&& fog_word(rs, 3) == channel(c / 0x100_0000)
            &&& fog_word(rs, 4) == rs[36]
            &&& fog_word(rs, 5) == rs[37]
            &&& fog_word(rs, 6) == rs[38]
            &&& fog_word(rs, 7) == rs[195]
        }),
{
}

} // verus!
