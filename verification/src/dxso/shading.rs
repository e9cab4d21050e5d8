//! What shader text means: the expressions and statements that shaders are written in, how
//! each is spelled, and what it computes.
//!
//! Numbers are real numbers here. The functions that real arithmetic alone does not give are
//! left open: what is stated holds whatever they are.

use crate::text::{dec, each, given};
use vstd::prelude::*;

verus! {

/// One to four numbers. A single number stands in every component, so that it goes with a
/// vector of any size; of a vector only the first `n` components count.
pub struct Value {
    pub n: int,
    pub x: real,
    pub y: real,
    pub z: real,
    pub w: real,
}

/// The functions of the shading language that are not arithmetic.
pub struct Functions {
    pub sqrt: spec_fn(real) -> real,
    pub exp2: spec_fn(real) -> real,
    pub pow: spec_fn(real, real) -> real,
}

/// A component of a vector, under either of its names.
pub enum Component {
    X,
    Y,
    Z,
    W,
    R,
    G,
    B,
    A,
}

/// Which components of a vector are taken, in which order.
pub enum Pick {
    One(Component),
    Two(Component, Component),
    Three(Component, Component, Component),
    Four(Component, Component, Component, Component),
}

/// The numbers that shaders mention.
pub enum Number {
    Zero,
    Half,
    One,
    Two,
    Four,
    /// The binary logarithm of e.
    LogE,
    /// Ten to the power of minus twelve.
    Small,
    /// Ten to the power of minus thirty.
    Tiny,
}

/// What shaders call by name.
pub enum Name {
    /// Attribute of the vertex.
    Attribute(nat),
    /// Weight of a matrix.
    BlendWeight(nat),
    /// Size that the vertex gives.
    VertexSize,
    /// Row of the vertex constants.
    Row(nat),
    /// Row of the matrix that the vertex follows.
    MatrixRow(nat),
    PosFixup,
    DrawPoint,
    DrawPointScale,
    /// Row of the matrix from the eye to the world.
    InvView(nat),
    ClipPlane(nat),
    OutPosition,
    OutPointSize,
    OutColor(nat),
    OutTexcoord(nat),
    OutFog,
    OutFogZ,
    OutClip(nat),
    Pos,
    PosView,
    NBlend,
    WeightSum,
    Weight,
    Psize,
    De,
    WorldPos,
    Normal,
    PosEye,
    Nadj(nat),
    Nwvdet,
    MatPower,
    ToViewer,
    ToLight,
    Atten,
    Rho,
    ToLightFull,
    Dist,
    AttenK,
    Ndotl,
    Halfway,
    Ndoth,
    SpecFactor,
    DiffuseAccum,
    SpecAccum,
    Lit,
    NTexgen,
    Raw(nat),
    Transformed(nat),
    Eye,
    Reflected,
    EyeZ,
    FogDensity,
    FogFactor,
    Dz,
    FogStart,
    FogEnd,
    FogRange,
    Viewport,
    ViewportOrigin,
    Rhw,
    NdcX,
    NdcY,
    /// Colour that reaches the pixel shader.
    InColor(nat),
    /// Colour so far.
    Current,
    /// What was read from the texture of a stage.
    Texel(nat),
    /// Row of the pixel constants.
    PixelRow(nat),
    /// Coordinate that reaches the pixel shader.
    InTexcoord(nat),
    /// Level-of-detail bias of a stage.
    LodBias(nat),
    /// What alpha is compared with.
    AlphaRef,
    /// What the pixel shader hands on.
    Target,
}

/// How a texture is read: with a level of detail of its own or with a bias to it, as depth,
/// or as the outcome of a comparison with depth.
pub enum Lookup {
    Plain,
    Biased(nat),
    Depth,
    Compared,
}

/// Operators between two values.
pub enum Op {
    Add,
    Sub,
    Mul,
    Div,
    Equal,
    NotEqual,
    Greater,
    GreaterEqual,
    Less,
    LessEqual,
}

/// Functions of one value.
pub enum Fun1 {
    Saturate,
    Abs,
    Length,
    Normalize,
    Sqrt,
    Exp2,
}

/// Functions of two values.
pub enum Fun2 {
    Dot,
    Max,
    Pow,
    Step,
}

/// Functions of three values.
pub enum Fun3 {
    Clamp,
    /// The vector that is orthogonal to three others.
    Cross4,
}

pub enum Expr {
    Truth(bool),
    /// A texture read through a sampler at a coordinate.
    Read(Lookup, nat, nat, Box<Expr>),
    Num(Number),
    Var(Name),
    Part(Box<Expr>, Pick),
    Neg(Box<Expr>),
    Bin(Op, Box<Expr>, Box<Expr>),
    Paren(Box<Expr>),
    /// A vector of the given size, from components that are listed or from one for all.
    Make(nat, Box<Expr>),
    /// Components one behind the other.
    Comma(Box<Expr>, Box<Expr>),
    Call1(Fun1, Box<Expr>),
    Call2(Fun2, Box<Expr>, Box<Expr>),
    Call3(Fun3, Box<Expr>, Box<Expr>, Box<Expr>),
    /// The second value where the first is true, the third elsewhere; `true` puts each on a
    /// line of its own.
    Cond(Box<Expr>, Box<Expr>, Box<Expr>, bool),
}

/// Which matrix a vertex follows: the one that it names or a given one.
pub enum Which {
    Named(nat),
    Given(nat),
}

pub enum Stmt {
    Nothing,
    Both(Box<Stmt>, Box<Stmt>),
    /// A vector of the given size, without a value yet.
    Declare(nat, Name),
    /// A vector of the given size with its value.
    Let(nat, Name, Expr),
    Assign(Name, Expr),
    Grow(Name, Expr),
    Scale(Name, Expr),
    AssignPart(Name, Component, Expr),
    GrowPart(Name, Component, Expr),
    AssignAt(Name, nat, Expr),
    /// Which matrix is meant from here on.
    Index(Which),
    /// Where its rows start.
    Rows(nat),
    Block(Box<Stmt>),
    /// An assignment to a component that is made where a condition holds.
    AssignPartIf(Expr, Name, Component, Expr),
    /// The pixel is dropped unless a condition holds.
    KeepIf(Expr),
}

/// What the names stand for, and which matrix is meant.
pub struct State {
    pub vars: Map<Name, Value>,
    pub index: int,
    pub base: int,
    /// Whether the pixel was not dropped.
    pub kept: bool,
}

/// What the vertex says about matrices, the functions, and what textures hold.
pub struct World {
    pub indices: spec_fn(int) -> int,
    pub functions: Functions,
    /// What a texture holds for a sampler at a coordinate, with a bias.
    pub colours: spec_fn(nat, nat, Value, real) -> Value,
    pub depths: spec_fn(nat, nat, Value) -> real,
    pub comparisons: spec_fn(nat, nat, Value) -> real,
}

// Shorthands.

pub open spec fn var(n: Name) -> Expr {
    Expr::Var(n)
}

pub open spec fn num(n: Number) -> Expr {
    Expr::Num(n)
}

pub open spec fn part(a: Expr, p: Pick) -> Expr {
    Expr::Part(Box::new(a), p)
}

pub open spec fn neg(a: Expr) -> Expr {
    Expr::Neg(Box::new(a))
}

pub open spec fn bin(op: Op, a: Expr, b: Expr) -> Expr {
    Expr::Bin(op, Box::new(a), Box::new(b))
}

pub open spec fn sum(a: Expr, b: Expr) -> Expr {
    bin(Op::Add, a, b)
}

pub open spec fn diff(a: Expr, b: Expr) -> Expr {
    bin(Op::Sub, a, b)
}

pub open spec fn prod(a: Expr, b: Expr) -> Expr {
    bin(Op::Mul, a, b)
}

pub open spec fn quot(a: Expr, b: Expr) -> Expr {
    bin(Op::Div, a, b)
}

pub open spec fn paren(a: Expr) -> Expr {
    Expr::Paren(Box::new(a))
}

pub open spec fn make(n: nat, a: Expr) -> Expr {
    Expr::Make(n, Box::new(a))
}

pub open spec fn list(a: Expr, b: Expr) -> Expr {
    Expr::Comma(Box::new(a), Box::new(b))
}

pub open spec fn call1(f: Fun1, a: Expr) -> Expr {
    Expr::Call1(f, Box::new(a))
}

pub open spec fn call2(f: Fun2, a: Expr, b: Expr) -> Expr {
    Expr::Call2(f, Box::new(a), Box::new(b))
}

pub open spec fn call3(f: Fun3, a: Expr, b: Expr, c: Expr) -> Expr {
    Expr::Call3(f, Box::new(a), Box::new(b), Box::new(c))
}

pub open spec fn cond(c: Expr, a: Expr, b: Expr, broken: bool) -> Expr {
    Expr::Cond(Box::new(c), Box::new(a), Box::new(b), broken)
}

pub open spec fn both(a: Stmt, b: Stmt) -> Stmt {
    Stmt::Both(Box::new(a), Box::new(b))
}

pub open spec fn block(a: Stmt) -> Stmt {
    Stmt::Block(Box::new(a))
}

/// Statements that are there only when a condition holds.
pub open spec fn only_if(c: bool, a: Stmt) -> Stmt {
    if c {
        a
    } else {
        Stmt::Nothing
    }
}

/// The statements `f(0)`, `f(1)`, up to but without `f(n)`.
pub open spec fn all(n: nat, f: spec_fn(int) -> Stmt) -> Stmt
    decreases n,
{
    if n == 0 {
        Stmt::Nothing
    } else {
        both(all((n - 1) as nat, f), f(n - 1))
    }
}

// How it is spelled.

pub open spec fn component_text(c: Component) -> Seq<char> {
    match c {
        Component::X => "x"@,
        Component::Y => "y"@,
        Component::Z => "z"@,
        Component::W => "w"@,
        Component::R => "r"@,
        Component::G => "g"@,
        Component::B => "b"@,
        Component::A => "a"@,
    }
}

pub open spec fn pick_text(p: Pick) -> Seq<char> {
    match p {
        Pick::One(a) => "."@ + component_text(a),
        Pick::Two(a, b) => "."@ + component_text(a) + component_text(b),
        Pick::Three(a, b, c) => "."@ + component_text(a) + component_text(b) + component_text(c),
        Pick::Four(a, b, c, d) => "."@ + component_text(a) + component_text(b) + component_text(c)
            + component_text(d),
    }
}

pub open spec fn number_text(n: Number) -> Seq<char> {
    match n {
        Number::Zero => "0.0"@,
        Number::Half => "0.5"@,
        Number::One => "1.0"@,
        Number::Two => "2.0"@,
        Number::Four => "4.0"@,
        Number::LogE => "1.442695"@,
        Number::Small => "1e-12"@,
        Number::Tiny => "1e-30"@,
    }
}

pub open spec fn name_text(n: Name) -> Seq<char> {
    match n {
        Name::Attribute(i) => "in.v"@ + dec(i),
        Name::BlendWeight(i) => "in.blend_weight["@ + dec(i) + "]"@,
        Name::VertexSize => "in.psize"@,
        Name::Row(i) => "vs_c["@ + dec(i) + "]"@,
        Name::MatrixRow(i) => "m["@ + dec(i) + "]"@,
        Name::PosFixup => "pos_fixup"@,
        Name::DrawPoint => "vs_draw.point"@,
        Name::DrawPointScale => "vs_draw.point_scale"@,
        Name::InvView(i) => "vs_draw.inv_view["@ + dec(i) + "]"@,
        Name::ClipPlane(i) => "vs_draw.clip["@ + dec(i) + "]"@,
        Name::OutPosition => "out.position"@,
        Name::OutPointSize => "out.point_size"@,
        Name::OutColor(i) => "out.color"@ + dec(i),
        Name::OutTexcoord(i) => "out.texcoord"@ + dec(i),
        Name::OutFog => "out.fog"@,
        Name::OutFogZ => "out.fog_z"@,
        Name::OutClip(i) => "out.clip_distance["@ + dec(i) + "]"@,
        Name::Pos => "pos"@,
        Name::PosView => "pos_view"@,
        Name::NBlend => "n_blend"@,
        Name::WeightSum => "weight_sum"@,
        Name::Weight => "w"@,
        Name::Psize => "psize"@,
        Name::De => "de"@,
        Name::WorldPos => "world_pos"@,
        Name::Normal => "n"@,
        Name::PosEye => "posEye"@,
        Name::Nadj(i) => "nadj"@ + dec(i),
        Name::Nwvdet => "nwvdet"@,
        Name::MatPower => "mat_power"@,
        Name::ToViewer => "V"@,
        Name::ToLight => "L"@,
        Name::Atten => "atten"@,
        Name::Rho => "rho"@,
        Name::ToLightFull => "toL"@,
        Name::Dist => "dist"@,
        Name::AttenK => "atten_k"@,
        Name::Ndotl => "ndotl"@,
        Name::Halfway => "H"@,
        Name::Ndoth => "ndoth"@,
        Name::SpecFactor => "specFactor"@,
        Name::DiffuseAccum => "diffuseAccum"@,
        Name::SpecAccum => "specAccum"@,
        Name::Lit => "lit"@,
        Name::NTexgen => "n_texgen"@,
        Name::Raw(i) => "raw"@ + dec(i),
        Name::Transformed(i) => "r"@ + dec(i),
        Name::Eye => "E_tci"@,
        Name::Reflected => "R_tci"@,
        Name::EyeZ => "eyeZ"@,
        Name::FogDensity => "fogDensity"@,
        Name::FogFactor => "f"@,
        Name::Dz => "dz"@,
        Name::FogStart => "fogStart"@,
        Name::FogEnd => "fogEnd"@,
        Name::FogRange => "fogRange"@,
        Name::Viewport => "vp"@,
        Name::ViewportOrigin => "vp_origin"@,
        Name::Rhw => "rhw"@,
        Name::NdcX => "ndc_x"@,
        Name::NdcY => "ndc_y"@,
        Name::InColor(i) => "in.color"@ + dec(i),
        Name::Current => "current"@,
        Name::Texel(i) => "t"@ + dec(i),
        Name::PixelRow(i) => "ps_c["@ + dec(i) + "]"@,
        Name::InTexcoord(i) => "in.texcoord"@ + dec(i),
        Name::LodBias(i) => "lod_bias["@ + dec(i) + "]"@,
        Name::AlphaRef => "alpha_ref"@,
        Name::Target => "oC0"@,
    }
}

pub open spec fn op_text(op: Op) -> Seq<char> {
    match op {
        Op::Add => " + "@,
        Op::Sub => " - "@,
        Op::Mul => " * "@,
        Op::Div => " / "@,
        Op::Equal => " == "@,
        Op::NotEqual => " != "@,
        Op::Greater => " > "@,
        Op::GreaterEqual => " >= "@,
        Op::Less => " < "@,
        Op::LessEqual => " <= "@,
    }
}

pub open spec fn fun1_text(f: Fun1) -> Seq<char> {
    match f {
        Fun1::Saturate => "saturate("@,
        Fun1::Abs => "abs("@,
        Fun1::Length => "length("@,
        Fun1::Normalize => "normalize("@,
        Fun1::Sqrt => "sqrt("@,
        Fun1::Exp2 => "exp2("@,
    }
}

pub open spec fn fun2_text(f: Fun2) -> Seq<char> {
    match f {
        Fun2::Dot => "dot("@,
        Fun2::Max => "max("@,
        Fun2::Pow => "pow("@,
        Fun2::Step => "step("@,
    }
}

pub open spec fn fun3_text(f: Fun3) -> Seq<char> {
    match f {
        Fun3::Clamp => "clamp("@,
        Fun3::Cross4 => "mtld3d_cross4("@,
    }
}

/// The type of vectors of size `n`.
pub open spec fn type_text(n: nat) -> Seq<char> {
    if n == 1 {
        "float"@
    } else if n == 2 {
        "float2"@
    } else if n == 3 {
        "float3"@
    } else {
        "float4"@
    }
}

pub open spec fn lookup_text(l: Lookup) -> Seq<char> {
    match l {
        Lookup::Compared => ".sample_compare(samp"@,
        _ => ".sample(samp"@,
    }
}

pub open spec fn lookup_end(l: Lookup) -> Seq<char> {
    match l {
        Lookup::Plain => ")"@,
        Lookup::Biased(i) => ", bias("@ + name_text(Name::LodBias(i)) + ".x)"@ + ")"@,
        Lookup::Depth => ", level(0))"@,
        Lookup::Compared => ", level(0))"@,
    }
}

pub open spec fn show(e: Expr) -> Seq<char>
    decreases e,
{
    match e {
        Expr::Truth(b) => if b {
            "true"@
        } else {
            "false"@
        },
        Expr::Read(l, t, s, a) => "s"@ + dec(t) + lookup_text(l) + dec(s) + ", "@ + show(*a)
            + lookup_end(l),
        Expr::Num(n) => number_text(n),
        Expr::Var(n) => name_text(n),
        Expr::Part(a, p) => show(*a) + pick_text(p),
        Expr::Neg(a) => "-"@ + show(*a),
        Expr::Bin(op, a, b) => show(*a) + op_text(op) + show(*b),
        Expr::Paren(a) => "("@ + show(*a) + ")"@,
        Expr::Make(n, a) => type_text(n) + "("@ + show(*a) + ")"@,
        Expr::Comma(a, b) => show(*a) + ", "@ + show(*b),
        Expr::Call1(f, a) => fun1_text(f) + show(*a) + ")"@,
        Expr::Call2(f, a, b) => fun2_text(f) + show(*a) + ", "@ + show(*b) + ")"@,
        Expr::Call3(f, a, b, c) => fun3_text(f) + show(*a) + ", "@ + show(*b) + ", "@ + show(*c)
            + ")"@,
        Expr::Cond(c, a, b, broken) => show(*c) + (if broken {
            "\n"@ + "        ? "@
        } else {
            " ? "@
        }) + show(*a) + (if broken {
            "\n"@ + "        : "@
        } else {
            " : "@
        }) + show(*b),
    }
}

/// How tightly an expression holds together.
pub open spec fn level(e: Expr) -> int {
    match e {
        Expr::Comma(_, _) => 0,
        Expr::Cond(_, _, _, _) => 1,
        Expr::Bin(Op::Equal, _, _) => 2,
        Expr::Bin(Op::NotEqual, _, _) => 2,
        Expr::Bin(Op::Greater, _, _) => 2,
        Expr::Bin(Op::GreaterEqual, _, _) => 2,
        Expr::Bin(Op::Less, _, _) => 2,
        Expr::Bin(Op::LessEqual, _, _) => 2,
        Expr::Bin(Op::Add, _, _) => 3,
        Expr::Bin(Op::Sub, _, _) => 3,
        Expr::Bin(_, _, _) => 4,
        Expr::Neg(_) => 5,
        Expr::Num(_) => 6,
        _ => 7,
    }
}

/// Whether an expression is what its spelling is read as: nothing in it holds together less
/// tightly than its place asks for.
pub open spec fn proper(e: Expr) -> bool
    decreases e,
{
    match e {
        Expr::Truth(_) => true,
        Expr::Read(l, _, _, a) => proper(*a) && (level(*a) >= 1 || l is Compared),
        Expr::Num(_) => true,
        Expr::Var(_) => true,
        Expr::Part(a, p) => proper(*a) && level(*a) == 7,
        Expr::Neg(a) => proper(*a) && level(*a) >= 6,
        Expr::Bin(op, a, b) => proper(*a) && proper(*b) && level(*b) > level(e) && level(*a)
            >= level(e) && (level(e) == 2 ==> level(*a) > 2),
        Expr::Paren(a) => proper(*a) && level(*a) >= 1,
        Expr::Make(n, a) => proper(*a) && 2 <= n <= 4,
        Expr::Comma(a, b) => proper(*a) && proper(*b) && level(*b) >= 1,
        Expr::Call1(_, a) => proper(*a) && level(*a) >= 1,
        Expr::Call2(_, a, b) => proper(*a) && proper(*b) && level(*a) >= 1 && level(*b) >= 1,
        Expr::Call3(_, a, b, c) => proper(*a) && proper(*b) && proper(*c) && level(*a) >= 1
            && level(*b) >= 1 && level(*c) >= 1,
        Expr::Cond(c, a, b, _) => proper(*c) && proper(*a) && proper(*b) && level(*c) >= 2
            && level(*a) >= 2 && level(*b) >= 2,
    }
}

pub open spec fn indent(depth: nat) -> Seq<char> {
    if depth == 0 {
        Seq::empty()
    } else if depth == 1 {
        "    "@
    } else {
        "        "@
    }
}

/// A statement on its line.
pub open spec fn line(s: Stmt) -> Seq<char> {
    match s {
        Stmt::Declare(n, name) => type_text(n) + " "@ + name_text(name) + ";"@,
        Stmt::Let(n, name, e) => type_text(n) + " "@ + name_text(name) + " = "@ + show(e) + ";"@,
        Stmt::Assign(name, e) => name_text(name) + " = "@ + show(e) + ";"@,
        Stmt::Grow(name, e) => name_text(name) + " += "@ + show(e) + ";"@,
        Stmt::Scale(name, e) => name_text(name) + " *= "@ + show(e) + ";"@,
        Stmt::AssignPart(name, c, e) => name_text(name) + "."@ + component_text(c) + " = "@ + show(e)
            + ";"@,
        Stmt::GrowPart(name, c, e) => name_text(name) + "."@ + component_text(c) + " += "@
            + show(e) + ";"@,
        Stmt::AssignAt(name, i, e) => name_text(name) + "["@ + dec(i) + "] = "@ + show(e) + ";"@,
        Stmt::Index(Which::Named(i)) => "uint idx = in.blend_indices["@ + dec(i) + "];"@,
        Stmt::Index(Which::Given(i)) => "uint idx = "@ + dec(i) + "u;"@,
        Stmt::Rows(n) => "constant float4 *m = vs_c + "@ + dec(n) + " + idx * 4u;"@,
        Stmt::AssignPartIf(c, name, part, e) => "if ("@ + show(c) + ") { "@ + name_text(name) + "."@
            + component_text(part) + " = "@ + show(e) + "; }"@,
        Stmt::KeepIf(c) => "if (!("@ + show(c) + ")) discard_fragment();"@,
        _ => Seq::empty(),
    }
}

/// Statements, `depth` levels deep.
pub open spec fn listing(s: Stmt, depth: nat) -> Seq<char>
    decreases s,
{
    match s {
        Stmt::Nothing => Seq::empty(),
        Stmt::Both(a, b) => listing(*a, depth) + listing(*b, depth),
        Stmt::Block(a) => indent(depth) + "{\n"@ + listing(*a, depth + 1) + indent(depth) + "}\n"@,
        _ => indent(depth) + line(s) + "\n"@,
    }
}

/// Whether the expressions of statements are what they are read as.
pub open spec fn well_read(s: Stmt) -> bool
    decreases s,
{
    match s {
        Stmt::Nothing => true,
        Stmt::Both(a, b) => well_read(*a) && well_read(*b),
        Stmt::Block(a) => well_read(*a),
        Stmt::Declare(_, _) => true,
        Stmt::Let(_, _, e) => proper(e) && level(e) >= 1,
        Stmt::Assign(_, e) => proper(e) && level(e) >= 1,
        Stmt::Grow(_, e) => proper(e) && level(e) >= 1,
        Stmt::Scale(_, e) => proper(e) && level(e) >= 1,
        Stmt::AssignPart(_, _, e) => proper(e) && level(e) >= 1,
        Stmt::GrowPart(_, _, e) => proper(e) && level(e) >= 1,
        Stmt::AssignAt(_, _, e) => proper(e) && level(e) >= 1,
        Stmt::AssignPartIf(c, _, _, e) => proper(c) && level(c) >= 1 && proper(e) && level(e) >= 1,
        Stmt::Index(_) => true,
        Stmt::Rows(_) => true,
        Stmt::KeepIf(c) => proper(c) && level(c) >= 1,
    }
}

// What it computes.

pub open spec fn scalar(r: real) -> Value {
    Value { n: 1, x: r, y: r, z: r, w: r }
}

pub open spec fn vec3(x: real, y: real, z: real) -> Value {
    Value { n: 3, x, y, z, w: 0 as real }
}

pub open spec fn vec4(x: real, y: real, z: real, w: real) -> Value {
    Value { n: 4, x, y, z, w }
}

/// Component `i` of a vector.
pub open spec fn nth(v: Value, i: int) -> real {
    if i == 0 {
        v.x
    } else if i == 1 {
        v.y
    } else if i == 2 {
        v.z
    } else {
        v.w
    }
}

pub open spec fn part_of(v: Value, c: Component) -> real {
    match c {
        Component::X => v.x,
        Component::Y => v.y,
        Component::Z => v.z,
        Component::W => v.w,
        Component::R => v.x,
        Component::G => v.y,
        Component::B => v.z,
        Component::A => v.w,
    }
}

/// A vector with one component replaced.
pub open spec fn with_part(v: Value, c: Component, r: real) -> Value {
    match c {
        Component::X => Value { x: r, ..v },
        Component::Y => Value { y: r, ..v },
        Component::Z => Value { z: r, ..v },
        Component::W => Value { w: r, ..v },
        Component::R => Value { x: r, ..v },
        Component::G => Value { y: r, ..v },
        Component::B => Value { z: r, ..v },
        Component::A => Value { w: r, ..v },
    }
}

/// A vector with component `i` replaced.
pub open spec fn with_nth(v: Value, i: nat, r: real) -> Value {
    if i == 0 {
        Value { x: r, ..v }
    } else if i == 1 {
        Value { y: r, ..v }
    } else if i == 2 {
        Value { z: r, ..v }
    } else {
        Value { w: r, ..v }
    }
}

pub open spec fn picked(v: Value, p: Pick) -> Value {
    match p {
        Pick::One(a) => scalar(part_of(v, a)),
        Pick::Two(a, b) => Value {
            n: 2,
            x: part_of(v, a),
            y: part_of(v, b),
            z: 0 as real,
            w: 0 as real,
        },
        Pick::Three(a, b, c) => vec3(part_of(v, a), part_of(v, b), part_of(v, c)),
        Pick::Four(a, b, c, d) => vec4(part_of(v, a), part_of(v, b), part_of(v, c), part_of(v, d)),
    }
}

pub open spec fn number(n: Number) -> real {
    match n {
        Number::Zero => 0 as real,
        Number::Half => (1 as real) / (2 as real),
        Number::One => 1 as real,
        Number::Two => 2 as real,
        Number::Four => 4 as real,
        Number::LogE => (1442695 as real) / (1000000 as real),
        Number::Small => (1 as real) / (1000000000000 as real),
        Number::Tiny => (1 as real) / (1000000000000000000000000000000 as real),
    }
}

pub open spec fn wider(a: Value, b: Value) -> int {
    if a.n >= b.n {
        a.n
    } else {
        b.n
    }
}

/// The product of two numbers.
#[verifier::opaque]
pub open spec fn multiplied(a: real, b: real) -> real {
    a * b
}

/// The quotient of two numbers.
#[verifier::opaque]
pub open spec fn divided(a: real, b: real) -> real {
    a / b
}

pub open spec fn plus(a: Value, b: Value) -> Value {
    Value { n: wider(a, b), x: a.x + b.x, y: a.y + b.y, z: a.z + b.z, w: a.w + b.w }
}

pub open spec fn minus(a: Value, b: Value) -> Value {
    Value { n: wider(a, b), x: a.x - b.x, y: a.y - b.y, z: a.z - b.z, w: a.w - b.w }
}

pub open spec fn times(a: Value, b: Value) -> Value {
    Value {
        n: wider(a, b),
        x: multiplied(a.x, b.x),
        y: multiplied(a.y, b.y),
        z: multiplied(a.z, b.z),
        w: multiplied(a.w, b.w),
    }
}

pub open spec fn over(a: Value, b: Value) -> Value {
    Value {
        n: wider(a, b),
        x: divided(a.x, b.x),
        y: divided(a.y, b.y),
        z: divided(a.z, b.z),
        w: divided(a.w, b.w),
    }
}

pub open spec fn truth(b: bool) -> Value {
    scalar(if b {
        1 as real
    } else {
        0 as real
    })
}

pub open spec fn negated(a: Value) -> Value {
    Value { n: a.n, x: -a.x, y: -a.y, z: -a.z, w: -a.w }
}

pub open spec fn least(a: real, b: real) -> real {
    if a <= b {
        a
    } else {
        b
    }
}

pub open spec fn most(a: real, b: real) -> real {
    if a >= b {
        a
    } else {
        b
    }
}

/// A number, or the end of the range that it lies beyond.
pub open spec fn clamped(r: real, lo: real, hi: real) -> real {
    least(most(r, lo), hi)
}

pub open spec fn clamp_parts(v: Value, lo: Value, hi: Value) -> Value {
    Value {
        n: v.n,
        x: clamped(v.x, lo.x, hi.x),
        y: clamped(v.y, lo.y, hi.y),
        z: clamped(v.z, lo.z, hi.z),
        w: clamped(v.w, lo.w, hi.w),
    }
}

/// Every component brought between zero and one.
pub open spec fn saturated(v: Value) -> Value {
    clamp_parts(v, scalar(0 as real), scalar(1 as real))
}

/// The sum of the products of the components.
pub open spec fn product(a: Value, b: Value) -> real {
    let n = wider(a, b);
    let x = multiplied(a.x, b.x);
    let y = multiplied(a.y, b.y);
    let z = multiplied(a.z, b.z);
    if n <= 1 {
        x
    } else if n == 2 {
        x + y
    } else if n == 3 {
        x + y + z
    } else {
        x + y + z + multiplied(a.w, b.w)
    }
}

pub open spec fn magnitude(v: Value, f: Functions) -> real {
    (f.sqrt)(product(v, v))
}

/// A vector in the direction of another, of length one.
pub open spec fn unit(v: Value, f: Functions) -> Value {
    over(v, scalar(magnitude(v, f)))
}

pub open spec fn absolute(r: real) -> real {
    if r < 0 as real {
        -r
    } else {
        r
    }
}

pub open spec fn listed(a: Value, b: Value) -> Value {
    Value {
        n: a.n + b.n,
        x: if 0 < a.n {
            nth(a, 0)
        } else {
            nth(b, -a.n)
        },
        y: if 1 < a.n {
            nth(a, 1)
        } else {
            nth(b, 1 - a.n)
        },
        z: if 2 < a.n {
            nth(a, 2)
        } else {
            nth(b, 2 - a.n)
        },
        w: if 3 < a.n {
            nth(a, 3)
        } else {
            nth(b, 3 - a.n)
        },
    }
}

/// A vector of the first `n` components.
pub open spec fn resized(v: Value, n: int) -> Value {
    Value {
        n,
        x: v.x,
        y: v.y,
        z: if n >= 3 {
            v.z
        } else {
            0 as real
        },
        w: if n >= 4 {
            v.w
        } else {
            0 as real
        },
    }
}

/// The determinant of three rows.
pub open spec fn det3(a: Value, b: Value, c: Value) -> real {
    multiplied(a.x, multiplied(b.y, c.z) - multiplied(b.z, c.y)) + multiplied(
        a.y,
        multiplied(b.z, c.x) - multiplied(b.x, c.z),
    ) + multiplied(a.z, multiplied(b.x, c.y) - multiplied(b.y, c.x))
}

/// The vector that is orthogonal to three others.
pub open spec fn cross4(u: Value, v: Value, t: Value) -> Value {
    vec4(
        -det3(vec3(u.y, u.z, u.w), vec3(v.y, v.z, v.w), vec3(t.y, t.z, t.w)),
        det3(vec3(u.x, u.z, u.w), vec3(v.x, v.z, v.w), vec3(t.x, t.z, t.w)),
        -det3(vec3(u.x, u.y, u.w), vec3(v.x, v.y, v.w), vec3(t.x, t.y, t.w)),
        det3(vec3(u.x, u.y, u.z), vec3(v.x, v.y, v.z), vec3(t.x, t.y, t.z)),
    )
}

pub open spec fn binary(op: Op, a: Value, b: Value) -> Value {
    match op {
        Op::Add => plus(a, b),
        Op::Sub => minus(a, b),
        Op::Mul => times(a, b),
        Op::Div => over(a, b),
        Op::Equal => truth(a.x == b.x),
        Op::NotEqual => truth(a.x != b.x),
        Op::Greater => truth(a.x > b.x),
        Op::GreaterEqual => truth(a.x >= b.x),
        Op::Less => truth(a.x < b.x),
        Op::LessEqual => truth(a.x <= b.x),
    }
}

pub open spec fn called1(f: Fun1, a: Value, w: World) -> Value {
    match f {
        Fun1::Saturate => saturated(a),
        Fun1::Abs => Value {
            n: a.n,
            x: absolute(a.x),
            y: absolute(a.y),
            z: absolute(a.z),
            w: absolute(a.w),
        },
        Fun1::Length => scalar(magnitude(a, w.functions)),
        Fun1::Normalize => unit(a, w.functions),
        Fun1::Sqrt => scalar((w.functions.sqrt)(a.x)),
        Fun1::Exp2 => scalar((w.functions.exp2)(a.x)),
    }
}

pub open spec fn called2(f: Fun2, a: Value, b: Value, w: World) -> Value {
    match f {
        Fun2::Dot => scalar(product(a, b)),
        Fun2::Max => scalar(most(a.x, b.x)),
        Fun2::Pow => scalar((w.functions.pow)(a.x, b.x)),
        Fun2::Step => truth(b.x >= a.x),
    }
}

pub open spec fn called3(f: Fun3, a: Value, b: Value, c: Value) -> Value {
    match f {
        Fun3::Clamp => clamp_parts(a, b, c),
        Fun3::Cross4 => cross4(a, b, c),
    }
}

/// What a name stands for.
pub open spec fn looked_up(n: Name, s: State) -> Value {
    match n {
        Name::MatrixRow(i) => s.vars[Name::Row((s.base + i) as nat)],
        _ => s.vars[n],
    }
}

pub open spec fn eval(e: Expr, w: World, s: State) -> Value
    decreases e,
{
    match e {
        Expr::Truth(b) => truth(b),
        Expr::Read(l, t, p, a) => match l {
            Lookup::Plain => (w.colours)(t, p, eval(*a, w, s), 0 as real),
            Lookup::Biased(i) => (w.colours)(
                t,
                p,
                eval(*a, w, s),
                s.vars[Name::LodBias(i)].x,
            ),
            Lookup::Depth => scalar((w.depths)(t, p, eval(*a, w, s))),
            Lookup::Compared => scalar((w.comparisons)(t, p, eval(*a, w, s))),
        },
        Expr::Num(n) => scalar(number(n)),
        Expr::Var(n) => looked_up(n, s),
        Expr::Part(a, p) => picked(eval(*a, w, s), p),
        Expr::Neg(a) => negated(eval(*a, w, s)),
        Expr::Bin(op, a, b) => binary(op, eval(*a, w, s), eval(*b, w, s)),
        Expr::Paren(a) => eval(*a, w, s),
        Expr::Make(n, a) => resized(eval(*a, w, s), n as int),
        Expr::Comma(a, b) => listed(eval(*a, w, s), eval(*b, w, s)),
        Expr::Call1(f, a) => called1(f, eval(*a, w, s), w),
        Expr::Call2(f, a, b) => called2(f, eval(*a, w, s), eval(*b, w, s), w),
        Expr::Call3(f, a, b, c) => called3(
            f,
            eval(*a, w, s),
            eval(*b, w, s),
            eval(*c, w, s),
        ),
        Expr::Cond(c, a, b, _) => if eval(*c, w, s).x != 0 as real {
            eval(*a, w, s)
        } else {
            eval(*b, w, s)
        },
    }
}

/// A state in which a name stands for another value.
pub open spec fn assigned(s: State, n: Name, v: Value) -> State {
    State { vars: s.vars.insert(n, v), ..s }
}

pub open spec fn run(p: Stmt, w: World, s: State) -> State
    decreases p,
{
    match p {
        Stmt::Nothing => s,
        Stmt::Both(a, b) => run(*b, w, run(*a, w, s)),
        Stmt::Block(a) => run(*a, w, s),
        Stmt::Declare(_, _) => s,
        Stmt::Let(_, n, e) => assigned(s, n, eval(e, w, s)),
        Stmt::Assign(n, e) => assigned(s, n, eval(e, w, s)),
        Stmt::Grow(n, e) => assigned(s, n, plus(looked_up(n, s), eval(e, w, s))),
        Stmt::Scale(n, e) => assigned(s, n, times(looked_up(n, s), eval(e, w, s))),
        Stmt::AssignPart(n, c, e) => assigned(
            s,
            n,
            with_part(looked_up(n, s), c, eval(e, w, s).x),
        ),
        Stmt::GrowPart(n, c, e) => assigned(
            s,
            n,
            with_part(looked_up(n, s), c, part_of(looked_up(n, s), c) + eval(e, w, s).x),
        ),
        Stmt::AssignAt(n, i, e) => assigned(s, n, with_nth(looked_up(n, s), i, eval(e, w, s).x)),
        Stmt::Index(Which::Named(i)) => State { index: (w.indices)(i as int), ..s },
        Stmt::Index(Which::Given(i)) => State { index: i as int, ..s },
        Stmt::Rows(n) => State { base: n + s.index * 4, ..s },
        Stmt::KeepIf(c) => State { kept: s.kept && eval(c, w, s).x != 0 as real, ..s },
        Stmt::AssignPartIf(c, n, part, e) => if eval(c, w, s).x != 0 as real {
            assigned(s, n, with_part(looked_up(n, s), part, eval(e, w, s).x))
        } else {
            s
        },
    }
}

/// Whether a text spells the statements `p`, `depth` levels deep.
pub open spec fn spells(text: Seq<char>, p: Stmt, depth: nat) -> bool {
    well_read(p) && text == listing(p, depth)
}

/// Whether a text spells the expression `e`.
pub open spec fn spells_value(text: Seq<char>, e: Expr) -> bool {
    proper(e) && text == show(e)
}

/// Whether two texts agree from position `m` up to position `end`.
pub open spec fn same_chars(a: Seq<char>, b: Seq<char>, m: int, end: int) -> bool
    decreases end - m,
{
    m >= end || (a[m] == b[m] && same_chars(a, b, m + 1, end))
}

/// Agreement at every position is agreement position by position.
pub proof fn same_each(a: Seq<char>, b: Seq<char>, m: int, end: int)
    requires
        same_chars(a, b, m, end),
    ensures
        forall|i: int| m <= i < end ==> #[trigger] a[i] == b[i],
    decreases end - m,
{
    if m < end {
        same_each(a, b, m + 1, end);
    }
}

/// Three texts can be put together from either end.
pub proof fn regrouped(a: Seq<char>, b: Seq<char>, c: Seq<char>)
    ensures
        a + (b + c) == a + b + c,
{
    assert(a + (b + c) =~= a + b + c);
}

/// The text of a number below a hundred.
pub proof fn short_numbers(n: nat)
    requires
        n < 100,
    ensures
        n < 10 ==> dec(n).len() == 1 && dec(n)[0] == (48 + n) as char,
        n >= 10 ==> dec(n).len() == 2 && dec(n)[0] == (48 + n / 10) as char && dec(n)[1] == (48
            + n % 10) as char,
{
    reveal_with_fuel(dec, 3);
}

pub proof fn nothing_spelled(depth: nat)
    ensures
        spells(Seq::empty(), Stmt::Nothing, depth),
{
}

/// Statements spelled one behind the other are spelled together.
pub proof fn both_spelled(a: Seq<char>, p: Stmt, b: Seq<char>, q: Stmt, depth: nat)
    requires
        spells(a, p, depth),
        spells(b, q, depth),
    ensures
        spells(a + b, both(p, q), depth),
{
}

/// Statements that are there under a condition are spelled under that condition.
pub proof fn only_if_spelled(c: bool, text: Seq<char>, p: Stmt, depth: nat)
    requires
        spells(text, p, depth),
    ensures
        spells(given(c, text), only_if(c, p), depth),
{
}

/// Statements spelled one by one are spelled together.
pub proof fn all_spelled(
    n: nat,
    f: spec_fn(int) -> Seq<char>,
    p: spec_fn(int) -> Stmt,
    depth: nat,
)
    requires
        forall|i: int| 0 <= i < n ==> spells(#[trigger] f(i), p(i), depth),
    ensures
        spells(each(n, f), all(n, p), depth),
    decreases n,
{
    if n > 0 {
        all_spelled((n - 1) as nat, f, p, depth);
        assert(spells(f(n - 1), p(n - 1), depth));
    }
}

} // verus!
