//! The constants of vertex and pixel shaders.
//!
//! The vertex constants are rows of four floats, each given as its bits. They come in
//! sections that never overlap:
//!
//! | rows       | section                                     |
//! |------------|---------------------------------------------|
//! | 0 to 3     | world times view                            |
//! | 4 to 7     | projection                                  |
//! | 8          | fog                                         |
//! | 9          | ambient light                               |
//! | 10 to 14   | material                                    |
//! | 15 to 62   | lights, six rows each                       |
//! | 63 to 94   | texture transforms, four rows each          |
//! | 95 and on  | world matrices times view, four rows each   |

use super::lights::shining;
use super::stages::transforms_coords;
use super::{FfState, FfStateView};
use crate::bits::{bit8, has_bit8};
use crate::bytes::{put_word, word_at};
use crate::convert::color::{
    alpha, blue, d3dcolor_to_rgba_f32, green, red, unorm_f32,
};
use crate::d3d9::{
    D3DCOLORVALUE, D3DLIGHT9, D3DLIGHT_DIRECTIONAL, D3DLIGHT_SPOT, D3DMATERIAL9, D3DMATRIX, D3DRS_AMBIENT,
    D3DRS_DEPTHBIAS, D3DRS_FOGCOLOR, D3DRS_FOGDENSITY, D3DRS_FOGEND, D3DRS_FOGSTART,
    D3DRS_TEXTUREFACTOR, D3DTSS_TEXTURETRANSFORMFLAGS, D3DTS_PROJECTION, ONE, RENDER_STATE_COUNT,
};
use crate::dxso::{FfVsKey, VariantKey};
use vstd::prelude::*;

verus! {

/// Some rows of the vertex constants and where they start.
pub struct Section {
    pub start_row: u16,
    pub rows: Vec<[u32; 4]>,
}

impl Section {
    /// Row `i` of the section.
    pub open spec fn row(self, i: int) -> Seq<u32> {
        self.rows@[i]@
    }

    /// How many rows the section has.
    pub open spec fn len(self) -> int {
        self.rows@.len() as int
    }

    /// The row behind the last one.
    pub open spec fn end(self) -> int {
        self.start_row + self.rows@.len()
    }
}

/// Column `i` of a matrix, which is row `i` of its transpose.
pub open spec fn column(m: D3DMATRIX, i: int) -> Seq<u32> {
    seq![m.m@[i], m.m@[4 + i], m.m@[8 + i], m.m@[12 + i]]
}

/// The four floats of a colour.
pub open spec fn rgba(c: D3DCOLORVALUE) -> Seq<u32> {
    seq![c.r, c.g, c.b, c.a]
}

/// The four floats of a packed colour.
pub open spec fn packed_rgba(color: u32) -> Seq<u32> {
    seq![
        unorm_f32(red(color)) as u32,
        unorm_f32(green(color)) as u32,
        unorm_f32(blue(color)) as u32,
        unorm_f32(alpha(color)) as u32,
    ]
}

/// Whether a section holds the columns of matrices, four rows for each.
pub open spec fn holds_columns(s: Section, m: spec_fn(int) -> D3DMATRIX, n: int) -> bool {
    &&& s.len() == 4 * n
    &&& forall|r: int| 0 <= r < 4 * n ==> #[trigger] s.row(r) == column(m(r / 4), r % 4)
}

/// One more than the highest bit that is set among the lowest `n`.
pub open spec fn bit_end(mask: u8, n: int) -> int
    decreases n,
{
    if n <= 0 {
        0
    } else if bit8(mask, n - 1) {
        n
    } else {
        bit_end(mask, n - 1)
    }
}

fn top_bit_end(mask: u8) -> (r: u32)
    ensures
        r == bit_end(mask, 8),
        r <= 8,
{
    let mut n: u32 = 8;
    while n > 0
        invariant
            n <= 8,
            bit_end(mask, 8) == bit_end(mask, n as int),
        decreases n,
    {
        if has_bit8(mask, n - 1) {
            return n;
        }
        n -= 1;
    }
    0
}

fn push_row(rows: &mut Vec<[u32; 4]>, a: u32, b: u32, c: u32, d: u32)
    ensures
        final(rows)@.len() == old(rows)@.len() + 1,
        forall|i: int| 0 <= i < old(rows)@.len() ==> final(rows)@[i] == old(rows)@[i],
        final(rows)@[old(rows)@.len() as int]@ == seq![a, b, c, d],
{
    let row: [u32; 4] = [a, b, c, d];
    assert(row@ =~= seq![a, b, c, d]);
    rows.push(row);
}

fn push_columns(rows: &mut Vec<[u32; 4]>, m: &D3DMATRIX)
    ensures
        final(rows)@.len() == old(rows)@.len() + 4,
        forall|i: int| 0 <= i < old(rows)@.len() ==> final(rows)@[i] == old(rows)@[i],
        forall|i: int| 0 <= i < 4 ==> #[trigger] final(rows)@[old(rows)@.len() + i]@ == column(*m, i),
{
    let a: [u32; 16] = m.m;
    push_row(rows, a[0], a[4], a[8], a[12]);
    push_row(rows, a[1], a[5], a[9], a[13]);
    push_row(rows, a[2], a[6], a[10], a[14]);
    push_row(rows, a[3], a[7], a[11], a[15]);
}

fn push_color(rows: &mut Vec<[u32; 4]>, c: &D3DCOLORVALUE)
    ensures
        final(rows)@.len() == old(rows)@.len() + 1,
        forall|i: int| 0 <= i < old(rows)@.len() ==> final(rows)@[i] == old(rows)@[i],
        final(rows)@[old(rows)@.len() as int]@ == rgba(*c),
{
    push_row(rows, c.r, c.g, c.b, c.a);
}

/// What is computed of a light in eye space, as the bits of floats.
#[derive(Clone, Copy, Debug, PartialEq, Eq)]
pub struct EyeLight {
    /// The position by the view.
    pub position: [u32; 3],
    /// The direction by the view, at unit length.
    pub direction: [u32; 3],
    /// The falloff, not below what a power can take.
    pub falloff: u32,
    /// What the cone of a spot adds, zero for other lights.
    pub spot_offset: u32,
    /// What the cone of a spot multiplies by, zero for other lights.
    pub spot_scale: u32,
}

/// The number that tells the kind of a light, as the bits of a float.
pub open spec fn kind_bits(type_: u32) -> u32 {
    if type_ == D3DLIGHT_DIRECTIONAL {
        0x4040_0000
    } else if type_ == D3DLIGHT_SPOT {
        0x4000_0000
    } else {
        ONE
    }
}

/// Row `r` of the six rows of a light.
pub open spec fn light_row(light: D3DLIGHT9, eye: EyeLight, r: int) -> Seq<u32> {
    if r == 0 {
        seq![eye.position@[0], eye.position@[1], eye.position@[2], kind_bits(light.type_)]
    } else if r == 1 {
        seq![eye.direction@[0], eye.direction@[1], eye.direction@[2], eye.falloff]
    } else if r == 2 {
        rgba(light.diffuse)
    } else if r == 3 {
        seq![light.ambient.r, light.ambient.g, light.ambient.b, eye.spot_offset]
    } else if r == 4 {
        seq![light.attenuation0, light.attenuation1, light.attenuation2, light.range]
    } else {
        seq![light.specular.r, light.specular.g, light.specular.b, eye.spot_scale]
    }
}

fn push_light(rows: &mut Vec<[u32; 4]>, light: &D3DLIGHT9, eye: &EyeLight)
    ensures
        final(rows)@.len() == old(rows)@.len() + 6,
        forall|i: int| 0 <= i < old(rows)@.len() ==> final(rows)@[i] == old(rows)@[i],
        forall|i: int|
            0 <= i < 6 ==> #[trigger] final(rows)@[old(rows)@.len() + i]@ == light_row(
                *light,
                *eye,
                i,
            ),
{
    let kind: u32 = if light.type_ == D3DLIGHT_DIRECTIONAL {
        0x4040_0000
    } else if light.type_ == D3DLIGHT_SPOT {
        0x4000_0000
    } else {
        ONE
    };
    push_row(rows, eye.position[0], eye.position[1], eye.position[2], kind);
    push_row(rows, eye.direction[0], eye.direction[1], eye.direction[2], eye.falloff);
    push_color(rows, &light.diffuse);
    push_row(rows, light.ambient.r, light.ambient.g, light.ambient.b, eye.spot_offset);
    push_row(rows, light.attenuation0, light.attenuation1, light.attenuation2, light.range);
    push_row(rows, light.specular.r, light.specular.g, light.specular.b, eye.spot_scale);
}

/// The row of a viewport, given as where it starts, then its size.
pub open spec fn is_viewport_section(viewport: (u32, u32, u32, u32), s: Section) -> bool {
    &&& s.start_row == 0
    &&& s.len() == 1
    &&& s.row(0) == seq![viewport.2, viewport.3, viewport.0, viewport.1]
}

/// The row of the fog.
pub open spec fn is_fog_section(rs: Seq<u32>, mode: u8, s: Section) -> bool {
    &&& s.start_row == 8
    &&& s.len() == 1
    &&& mode != 0 ==> s.row(0) == seq![
        rs[D3DRS_FOGSTART as int],
        rs[D3DRS_FOGEND as int],
        rs[D3DRS_FOGDENSITY as int],
        0,
    ]
}

/// The row of the ambient light.
pub open spec fn is_ambient_section(rs: Seq<u32>, s: Section) -> bool {
    &&& s.start_row == 9
    &&& s.len() == 1
    &&& s.row(0) == packed_rgba(rs[D3DRS_AMBIENT as int])
}

/// The rows of the material.
pub open spec fn is_material_section(m: D3DMATERIAL9, k: FfVsKey, s: Section) -> bool {
    &&& s.start_row == 10
    &&& s.len() == material_rows(k)
    &&& s.row(0) == rgba(m.diffuse)
    &&& s.len() > 1 ==> s.row(1) == rgba(m.ambient) && s.row(2) == rgba(m.specular) && s.row(3)
        == rgba(m.emissive)
    &&& s.len() > 4 ==> s.row(4) == seq![m.power, 0u32, 0u32, 0u32]
}

/// The rows of the lights that shine, six for each.
pub open spec fn is_lights_section(
    v: FfStateView,
    k: FfVsKey,
    eye: Seq<EyeLight>,
    r: Option<Section>,
) -> bool {
    r matches Some(s) ==> {
        &&& s.start_row == 15
        &&& s.len() == 6 * bit_end(k.light_active_mask, 8)
        &&& forall|i: int|
            0 <= i < s.len() ==> #[trigger] s.row(i) == light_row(
                v.lights[shining(v.lights)[i / 6]].light,
                eye[i / 6],
                i % 6,
            )
    }
}

/// The texture factor as four floats.
pub open spec fn is_factor(rs: Seq<u32>, bytes: Seq<u8>) -> bool {
    forall|w: int|
        0 <= w < 4 ==> #[trigger] word_at(bytes, w) == packed_rgba(
            rs[D3DRS_TEXTUREFACTOR as int],
        )[w]
}

/// How many rows of the material a key asks for.
pub open spec fn material_rows(k: FfVsKey) -> int {
    if !k.flags.lighting_enabled {
        1
    } else if k.flags.specular_enable {
        5
    } else {
        4
    }
}

/// Element `i` of the transform that goes into the texture section for a stage: the one
/// that was set where the stage uses it, and else the identity.
pub open spec fn section_element(v: FfStateView, stage: int, i: int) -> u32 {
    if transforms_coords(v.stages, stage) {
        v.transforms[(16 + stage) as u32].m@[i]
    } else {
        D3DMATRIX::identity_element(i)
    }
}

/// Row `r` of the texture section: a column of the transform of stage `r / 4`.
pub open spec fn transform_row(v: FfStateView, r: int) -> Seq<u32> {
    let c = r % 4;
    seq![
        section_element(v, r / 4, c),
        section_element(v, r / 4, 4 + c),
        section_element(v, r / 4, 8 + c),
        section_element(v, r / 4, 12 + c),
    ]
}

/// The larger of two numbers.
pub open spec fn larger(a: int, b: int) -> int {
    if a > b {
        a
    } else {
        b
    }
}

/// How many rows of the vertex constants a shader reads.
pub open spec fn row_count(v: FfStateView, tt_end: int, k: FfVsKey) -> int {
    if k.flags.has_rhw {
        1
    } else {
        let fog = if k.fog_mode != 0 {
            9int
        } else {
            8
        };
        let material = 10 + material_rows(k);
        let lights = if k.flags.lighting_enabled && k.light_active_mask != 0 {
            15 + 6 * bit_end(k.light_active_mask, 8)
        } else {
            0
        };
        let tt = if tt_end > 0 {
            63 + 4 * tt_end
        } else {
            0
        };
        let palette = if k.vertex_blend_count > 0 {
            95 + 4 * v.palette_used
        } else {
            0
        };
        larger(larger(larger(fog, material), lights), larger(tt, palette))
    }
}

/// One more than the last stage that transforms its coordinates, among the first `n`.
pub open spec fn transform_end(stages: Seq<Seq<u32>>, n: int) -> int
    decreases n,
{
    if n <= 0 {
        0
    } else if transforms_coords(stages, n - 1) {
        n
    } else {
        transform_end(stages, n - 1)
    }
}

proof fn transform_end_is_bit_end(stages: Seq<Seq<u32>>, mask: u8, n: int)
    requires
        n <= 8,
        forall|i: int| 0 <= i < 8 ==> #[trigger] bit8(mask, i) == transforms_coords(stages, i),
    ensures
        transform_end(stages, n) == bit_end(mask, n),
    decreases n,
{
    if n > 0 {
        transform_end_is_bit_end(stages, mask, n - 1);
    }
}

/// The highest bit that is set lies among those that were looked at.
pub proof fn bits_below(mask: u8, n: int)
    requires
        0 <= n <= 8,
    ensures
        0 <= bit_end(mask, n) <= n,
        mask == 0 ==> bit_end(mask, n) == 0,
    decreases n,
{
    crate::bits::zero_has_no_bits();
    if n > 0 {
        bits_below(mask, n - 1);
    }
}

impl FfState {
    fn transform_stage_end(&self) -> (r: u32)
        ensures
            r == transform_end(self@.stages, 8),
            r <= 8,
    {
        let mask: u8 = self.tt_active_mask();
        proof {
            transform_end_is_bit_end(self@.stages, mask, 8);
        }
        top_bit_end(mask)
    }

    /// How many rows of the vertex constants the shader of a key reads.
    pub fn ff_vs_row_count(&self, vs_key: &FfVsKey) -> (r: u16)
        requires
            self.wf(),
        ensures
            r == row_count(self@, transform_end(self@.stages, 8), *vs_key),
    {
        if vs_key.has_rhw() {
            return 1;
        }
        let mut rows: u32 = 8;
        if vs_key.fog_mode != 0 {
            rows = 9;
        }
        let material: u32 = if !vs_key.lighting_enabled() {
            11
        } else if vs_key.specular_enable() {
            15
        } else {
            14
        };
        if material > rows {
            rows = material;
        }
        if vs_key.lighting_enabled() && vs_key.light_active_mask != 0 {
            let lights: u32 = 15 + top_bit_end(vs_key.light_active_mask) * 6;
            if lights > rows {
                rows = lights;
            }
        }
        let tt: u32 = self.transform_stage_end();
        if tt > 0 && 63 + tt * 4 > rows {
            rows = 63 + tt * 4;
        }
        if vs_key.vertex_blend_count > 0 {
            let palette: u32 = 95 + self.world_palette_used() as u32 * 4;
            if palette > rows {
                rows = palette;
            }
        }
        rows as u16
    }

    /// The only row for vertices that are already transformed: the size of the viewport,
    /// then where it starts. The viewport is given as where it starts, then its size.
    pub fn build_xyzrhw_row(viewport: (u32, u32, u32, u32)) -> (r: Section)
        ensures
            r.start_row == 0,
            r.len() == 1,
            r.row(0) == seq![viewport.2, viewport.3, viewport.0, viewport.1],
            is_viewport_section(viewport, r),
    {
        let mut rows: Vec<[u32; 4]> = Vec::new();
        push_row(&mut rows, viewport.2, viewport.3, viewport.0, viewport.1);
        Section { start_row: 0, rows }
    }

    /// The section for world times view, which is given.
    pub fn build_wv_section(world_view: &D3DMATRIX) -> (r: Section)
        ensures
            r.start_row == 0,
            holds_columns(r, |i: int| *world_view, 1),
    {
        let mut rows: Vec<[u32; 4]> = Vec::new();
        let ghost before = rows@.len();
        push_columns(&mut rows, world_view);
        let s: Section = Section { start_row: 0, rows };
        assert forall|r: int| 0 <= r < 4 implies #[trigger] s.row(r) == column(*world_view, r % 4) by {
            assert(s.rows@[before + r]@ == column(*world_view, r));
        }
        s
    }

    /// The section for the projection.
    pub fn build_proj_section(&self) -> (r: Section)
        ensures
            r.start_row == 4,
            holds_columns(r, |i: int| self@.transforms[D3DTS_PROJECTION], 1),
    {
        let mut rows: Vec<[u32; 4]> = Vec::new();
        let ghost before = rows@.len();
        push_columns(&mut rows, &self.projection);
        let s: Section = Section { start_row: 4, rows };
        assert forall|r: int| 0 <= r < 4 implies #[trigger] s.row(r) == column(
            self@.transforms[D3DTS_PROJECTION],
            r % 4,
        ) by {
            assert(s.rows@[before + r]@ == column(self.projection, r));
        }
        s
    }

    /// The section for fog: where it starts and ends and how dense it is, or zeros
    /// without fog.
    pub fn build_fog_section(render_states: &[u32; RENDER_STATE_COUNT], fog_mode: u8) -> (r: Section)
        ensures
            r.start_row == 8,
            r.len() == 1,
            r.row(0) == (if fog_mode != 0 {
                seq![
                    render_states@[D3DRS_FOGSTART as int],
                    render_states@[D3DRS_FOGEND as int],
                    render_states@[D3DRS_FOGDENSITY as int],
                    0,
                ]
            } else {
                seq![0, 0, 0, 0]
            }),
            is_fog_section(render_states@, fog_mode, r),
    {
        let mut rows: Vec<[u32; 4]> = Vec::new();
        if fog_mode != 0 {
            push_row(
                &mut rows,
                render_states[D3DRS_FOGSTART],
                render_states[D3DRS_FOGEND],
                render_states[D3DRS_FOGDENSITY],
                0,
            );
        } else {
            push_row(&mut rows, 0, 0, 0, 0);
        }
        Section { start_row: 8, rows }
    }

    /// The section for ambient light.
    pub fn build_ambient_section(render_states: &[u32; RENDER_STATE_COUNT]) -> (r: Section)
        ensures
            r.start_row == 9,
            r.len() == 1,
            r.row(0) == packed_rgba(render_states@[D3DRS_AMBIENT as int]),
            is_ambient_section(render_states@, r),
    {
        let mut rows: Vec<[u32; 4]> = Vec::new();
        let row: [u32; 4] = d3dcolor_to_rgba_f32(render_states[D3DRS_AMBIENT]);
        rows.push(row);
        Section { start_row: 9, rows }
    }

    /// The section for the material: its diffuse colour, and for a lit shader also its
    /// ambient, specular and emissive colours and, with highlights, its power.
    pub fn build_material_section(&self, vs_key: &FfVsKey) -> (r: Section)
        ensures
            r.start_row == 10,
            r.len() == material_rows(*vs_key),
            r.row(0) == rgba(self@.material.diffuse),
            r.len() > 1 ==> r.row(1) == rgba(self@.material.ambient) && r.row(2) == rgba(
                self@.material.specular,
            ) && r.row(3) == rgba(self@.material.emissive),
            r.len() > 4 ==> r.row(4) == seq![self@.material.power, 0u32, 0u32, 0u32],
            is_material_section(self@.material, *vs_key, r),
    {
        let mut rows: Vec<[u32; 4]> = Vec::new();
        push_color(&mut rows, &self.material.diffuse);
        if vs_key.lighting_enabled() {
            push_color(&mut rows, &self.material.ambient);
            push_color(&mut rows, &self.material.specular);
            push_color(&mut rows, &self.material.emissive);
            if vs_key.specular_enable() {
                push_row(&mut rows, self.material.power, 0, 0, 0);
            }
        }
        Section { start_row: 10, rows }
    }

    /// The section for the lights that shine, in the order of their slots; none when the
    /// key has no light. `eye` holds what was computed of each light in eye space.
    pub fn build_lights_section(&self, vs_key: &FfVsKey, eye: &[EyeLight]) -> (r: Option<Section>)
        requires
            self.wf(),
            vs_key.light_active_mask != 0 ==> eye@.len() == shining(self@.lights).len()
                && bit_end(vs_key.light_active_mask, 8) == shining(self@.lights).len(),
        ensures
            r is Some <==> vs_key.light_active_mask != 0,
            r matches Some(s) ==> {
                &&& s.start_row == 15
                &&& s.len() == 6 * bit_end(vs_key.light_active_mask, 8)
                &&& forall|i: int|
                    0 <= i < s.len() ==> #[trigger] s.row(i) == light_row(
                        self@.lights[shining(self@.lights)[i / 6]].light,
                        eye@[i / 6],
                        i % 6,
                    )
            },
            is_lights_section(self@, *vs_key, eye@, r),
    {
        if vs_key.light_active_mask == 0 {
            return None;
        }
        let lights: Vec<D3DLIGHT9> = self.active_lights();
        let ghost s = shining(self@.lights);
        let mut rows: Vec<[u32; 4]> = Vec::new();
        let mut i: usize = 0;
        while i < lights.len()
            invariant
                s == shining(self@.lights),
                lights@ == s.map_values(|i: u32| self@.lights[i].light),
                eye@.len() == s.len(),
                i <= s.len(),
                rows@.len() == 6 * i,
                forall|r: int|
                    0 <= r < 6 * i ==> #[trigger] rows@[r]@ == light_row(
                        self@.lights[s[r / 6]].light,
                        eye@[r / 6],
                        r % 6,
                    ),
            decreases s.len() - i,
        {
            let ghost before = rows@;
            push_light(&mut rows, &lights[i], &eye[i]);
            assert(lights@[i as int] == self@.lights[s[i as int]].light);
            assert forall|r: int| 0 <= r < 6 * (i + 1) implies #[trigger] rows@[r]@ == light_row(
                self@.lights[s[r / 6]].light,
                eye@[r / 6],
                r % 6,
            ) by {
                if r < 6 * i {
                    assert(rows@[r] == before[r]);
                } else {
                    let q = r - 6 * i;
                    assert(rows@[before.len() + q]@ == light_row(
                        lights@[i as int],
                        eye@[i as int],
                        q,
                    ));
                }
            }
            i += 1;
        }
        Some(Section { start_row: 15, rows })
    }

    /// The section for the texture transforms, up to the last stage that has one; none
    /// when no stage has one.
    pub fn build_tt_section(&self) -> (r: Option<Section>)
        ensures
            r is Some <==> transform_end(self@.stages, 8) > 0,
            r matches Some(s) ==> {
                &&& s.start_row == 63
                &&& s.len() == 4 * transform_end(self@.stages, 8)
                &&& forall|i: int| 0 <= i < s.len() ==> #[trigger] s.row(i) == transform_row(self@, i)
            },
    {
        let n: u32 = self.transform_stage_end();
        if n == 0 {
            return None;
        }
        let mut rows: Vec<[u32; 4]> = Vec::new();
        let mut i: u32 = 0;
        let unit: D3DMATRIX = D3DMATRIX::identity();
        while i < n
            invariant
                i <= n <= 8,
                unit.is_identity(),
                rows@.len() == 4 * i,
                forall|r: int| 0 <= r < 4 * i ==> #[trigger] rows@[r]@ == transform_row(self@, r),
            decreases n - i,
        {
            let ghost before = rows@;
            let used: bool =
                self.texture_stage_states[i as usize][D3DTSS_TEXTURETRANSFORMFLAGS as usize] != 0;
            let m: D3DMATRIX = if used {
                self.texture_transforms[i as usize]
            } else {
                unit
            };
            push_columns(&mut rows, &m);
            assert forall|e: int| 0 <= e < 16 implies #[trigger] m.m@[e] == section_element(
                self@,
                i as int,
                e,
            ) by {}
            assert forall|r: int| 0 <= r < 4 * (i + 1) implies #[trigger] rows@[r]@
                == transform_row(self@, r) by {
                if r < 4 * i {
                    assert(rows@[r] == before[r]);
                } else {
                    let c = r - 4 * i;
                    assert(rows@[before.len() + c]@ == column(m, c));
                    assert(r / 4 == i && r % 4 == c);
                    assert(column(m, c) =~= transform_row(self@, r));
                }
            }
            i += 1;
        }
        Some(Section { start_row: 63, rows })
    }

    /// The section for the world matrices times view, which are given; none without
    /// blending.
    pub fn build_palette_section(&self, vs_key: &FfVsKey, products: &[D3DMATRIX]) -> (r: Option<
        Section,
    >)
        requires
            self.wf(),
            vs_key.vertex_blend_count > 0 ==> products@.len() == self@.palette_used,
        ensures
            r is Some <==> vs_key.vertex_blend_count > 0,
            r matches Some(s) ==> s.start_row == 95 && holds_columns(
                s,
                |i: int| products@[i],
                self@.palette_used,
            ),
    {
        if vs_key.vertex_blend_count == 0 {
            return None;
        }
        let n: usize = self.world_palette_used();
        let mut rows: Vec<[u32; 4]> = Vec::new();
        let mut i: usize = 0;
        while i < n
            invariant
                i <= n <= 256,
                n == products@.len(),
                rows@.len() == 4 * i,
                forall|r: int|
                    0 <= r < 4 * i ==> #[trigger] rows@[r]@ == column(products@[r / 4], r % 4),
            decreases n - i,
        {
            let ghost before = rows@;
            push_columns(&mut rows, &products[i]);
            assert forall|r: int| 0 <= r < 4 * (i + 1) implies #[trigger] rows@[r]@ == column(
                products@[r / 4],
                r % 4,
            ) by {
                if r < 4 * i {
                    assert(rows@[r] == before[r]);
                } else {
                    let q = r - 4 * i;
                    assert(rows@[before.len() + q]@ == column(products@[i as int], q));
                }
            }
            i += 1;
        }
        Some(Section { start_row: 95, rows })
    }

    /// The constants of a pixel shader: the texture factor as four floats.
    pub fn build_ps_constants(&self, render_states: &[u32; RENDER_STATE_COUNT]) -> (r: [u8; 16])
        ensures
            forall|w: int|
                0 <= w < 4 ==> #[trigger] word_at(r@, w) == packed_rgba(
                    render_states@[D3DRS_TEXTUREFACTOR as int],
                )[w],
            is_factor(render_states@, r@),
    {
        let c: [u32; 4] = d3dcolor_to_rgba_f32(render_states[D3DRS_TEXTUREFACTOR]);
        let mut bytes: [u8; 16] = [0; 16];
        put_word(&mut bytes, 0, c[0]);
        put_word(&mut bytes, 1, c[1]);
        put_word(&mut bytes, 2, c[2]);
        put_word(&mut bytes, 3, c[3]);
        bytes
    }
}

/// Word `w` of the fog values of a pixel shader: the colour, then where fog starts and
/// ends, how dense it is, and the depth bias.
pub open spec fn fog_word(rs: Seq<u32>, w: int) -> u32 {
    if w < 4 {
        packed_rgba(rs[D3DRS_FOGCOLOR as int])[w]
    } else if w == 4 {
        rs[D3DRS_FOGSTART as int]
    } else if w == 5 {
        rs[D3DRS_FOGEND as int]
    } else if w == 6 {
        rs[D3DRS_FOGDENSITY as int]
    } else {
        rs[D3DRS_DEPTHBIAS as int]
    }
}

/// The fog values of a pixel shader and how many bytes of them count: all with fog,
/// none without.
pub fn build_fog_color_bytes(render_states: &[u32; RENDER_STATE_COUNT], variant: &VariantKey) -> (r:
    ([u8; 32], usize))
    ensures
        r.1 == (if variant.fog_blend_active_spec() {
            32int
        } else {
            0
        }),
        variant.fog_blend_active_spec() ==> forall|w: int|
            0 <= w < 8 ==> #[trigger] word_at(r.0@, w) == fog_word(render_states@, w),
        !variant.fog_blend_active_spec() ==> forall|i: int|
            0 <= i < 32 ==> #[trigger] r.0@[i] == 0,
{
    let mut bytes: [u8; 32] = [0; 32];
    if !variant.fog_blend_active() {
        return (bytes, 0);
    }
    let c: [u32; 4] = d3dcolor_to_rgba_f32(render_states[D3DRS_FOGCOLOR]);
    put_word(&mut bytes, 0, c[0]);
    put_word(&mut bytes, 1, c[1]);
    put_word(&mut bytes, 2, c[2]);
    put_word(&mut bytes, 3, c[3]);
    put_word(&mut bytes, 4, render_states[D3DRS_FOGSTART]);
    put_word(&mut bytes, 5, render_states[D3DRS_FOGEND]);
    put_word(&mut bytes, 6, render_states[D3DRS_FOGDENSITY]);
    put_word(&mut bytes, 7, render_states[D3DRS_DEPTHBIAS]);
    (bytes, 32)
}

} // verus!
