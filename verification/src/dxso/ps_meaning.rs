//! What the stages of a pixel shader make of their arguments.

use super::ff::FfStage;
use super::ff_ps::{
    apply_op_text, combined_text, resolve_arg_text, selected_text, stage_combine_text,
};
use super::ps_text::{
    alpha_of, alpha_of_spelled, clamped_difference, clamped_difference_spelled, clamped_sum,
    clamped_sum_spelled, complement, complement_of_alpha, complement_of_alpha_spelled,
    complement_spelled, diffuse_in, diffuse_in_spelled, dot3, dot3_spelled, factor, factor_spelled,
    mix, mix_spelled, modulate, modulate2x, modulate2x_spelled, modulate4x, modulate4x_spelled,
    modulate_spelled, set_current, set_current_spelled, signed_sum, signed_sum2x,
    signed_sum2x_spelled, signed_sum_spelled, smooth_sum, smooth_sum_spelled, so_far,
    so_far_spelled, specular_in, specular_in_spelled, white, white_spelled,
};
use super::shading::{
    assigned, clamped, eval, level, multiplied, nth, proper, run, show, spells, spells_value, vec4,
    Expr, Name, State, Stmt, Value, World,
};
use vstd::prelude::*;

verus! {

/// A number brought between zero and one.
pub open spec fn within_one(r: real) -> real {
    clamped(r, 0 as real, 1 as real)
}

pub open spec fn half() -> real {
    1 as real / 2 as real
}

/// What an argument selects: the diffuse colour, the colour so far, the texture of the stage,
/// the texture factor or the specular colour; white where there is nothing to select.
pub open spec fn selected_value(arg: u8, stage: nat, has_texture: bool, s: State) -> Value {
    let selector = arg as u32 & 0x0f;
    if selector == 0 {
        s.vars[Name::InColor(0)]
    } else if selector == 1 {
        s.vars[Name::Current]
    } else if selector == 2 && has_texture {
        s.vars[Name::Texel(stage)]
    } else if selector == 3 {
        s.vars[Name::PixelRow(0)]
    } else if selector == 4 {
        s.vars[Name::InColor(1)]
    } else {
        vec4(1 as real, 1 as real, 1 as real, 1 as real)
    }
}

/// Component `i` of an argument: its alpha where that is asked for, and its distance to one
/// where that is asked for.
pub open spec fn argument(arg: u8, stage: nat, has_texture: bool, s: State, i: int) -> real {
    let v = selected_value(arg, stage, has_texture, s);
    let x = if arg as u32 & 0x20 != 0 {
        v.w
    } else {
        nth(v, i)
    };
    if arg as u32 & 0x10 != 0 {
        1 as real - x
    } else {
        x
    }
}

/// The alpha that an operation blends by: that of the diffuse colour (12), of the texture
/// (13), of the factor (14) or of the colour so far (16).
pub open spec fn blend_alpha(op: u8, stage: nat, has_texture: bool, s: State) -> real {
    if op == 12 {
        s.vars[Name::InColor(0)].w
    } else if op == 13 && has_texture {
        s.vars[Name::Texel(stage)].w
    } else if op == 14 {
        s.vars[Name::PixelRow(0)].w
    } else {
        s.vars[Name::Current].w
    }
}

/// What operation `op` makes of one component of each argument.
pub open spec fn operation(op: u8, x: real, y: real, alpha: real) -> real {
    if op == 3 {
        y
    } else if op == 4 {
        multiplied(x, y)
    } else if op == 5 {
        within_one(multiplied(multiplied(2 as real, x), y))
    } else if op == 6 {
        within_one(multiplied(multiplied(4 as real, x), y))
    } else if op == 7 {
        within_one(x + y)
    } else if op == 8 {
        within_one(x + y - half())
    } else if op == 9 {
        within_one(multiplied(2 as real, x + y - half()))
    } else if op == 10 {
        within_one(x - y)
    } else if op == 11 {
        within_one(x + multiplied(y, 1 as real - x))
    } else if op == 12 || op == 13 || op == 14 || op == 16 {
        multiplied(x, alpha) + multiplied(y, 1 as real - alpha)
    } else {
        x
    }
}

/// What operation 24 makes of its arguments, in every component: four times the sum of the
/// products of the colour components, each taken from the middle.
pub open spec fn dot_product(a: Value, b: Value) -> real {
    within_one(
        multiplied(
            4 as real,
            multiplied(a.x - half(), b.x - half()) + multiplied(a.y - half(), b.y - half())
                + multiplied(a.z - half(), b.z - half()),
        ),
    )
}

/// Whether an expression is read as one value wherever it stands.
pub open spec fn compact(e: Expr) -> bool {
    proper(e) && level(e) == 7
}

spec fn selected_expr(arg: u8, stage: nat, has_texture: bool) -> Expr {
    let selector = arg as u32 & 0x0f;
    if selector == 0 {
        diffuse_in()
    } else if selector == 1 {
        so_far()
    } else if selector == 2 && has_texture {
        Expr::Var(Name::Texel(stage))
    } else if selector == 3 {
        factor()
    } else if selector == 4 {
        specular_in()
    } else {
        white()
    }
}

proof fn selected_spelled(arg: u8, stage: nat, has_texture: bool)
    ensures
        spells_value(
            selected_text(arg, stage as int, has_texture),
            selected_expr(arg, stage, has_texture),
        ),
        level(selected_expr(arg, stage, has_texture)) == 7,
{
    diffuse_in_spelled();
    so_far_spelled();
    factor_spelled();
    specular_in_spelled();
    white_spelled();
}

proof fn selected_means(arg: u8, stage: nat, has_texture: bool, w: World, s: State, i: int)
    ensures
        nth(eval(selected_expr(arg, stage, has_texture), w, s), i) == nth(
            selected_value(arg, stage, has_texture, s),
            i,
        ),
        eval(selected_expr(arg, stage, has_texture), w, s).w == selected_value(
            arg,
            stage,
            has_texture,
            s,
        ).w,
{
    reveal_with_fuel(eval, 4);
}

spec fn argument_expr(arg: u8, stage: nat, has_texture: bool) -> Expr {
    let e = selected_expr(arg, stage, has_texture);
    let alpha = arg as u32 & 0x20 != 0;
    if arg as u32 & 0x10 != 0 {
        if alpha {
            complement_of_alpha(e)
        } else {
            complement(e)
        }
    } else if alpha {
        alpha_of(e)
    } else {
        e
    }
}

proof fn argument_spelled(arg: u8, stage: nat, has_texture: bool)
    ensures
        spells_value(
            resolve_arg_text(arg, stage as int, has_texture),
            argument_expr(arg, stage, has_texture),
        ),
        compact(argument_expr(arg, stage, has_texture)),
{
    let e = selected_expr(arg, stage, has_texture);
    let t = selected_text(arg, stage as int, has_texture);
    selected_spelled(arg, stage, has_texture);
    complement_spelled(e);
    complement_of_alpha_spelled(e);
    alpha_of_spelled(e);
    let none = Seq::<char>::empty();
    assert("(1.0 - "@ + t + none + ")"@ =~= "(1.0 - "@ + t + ")"@);
    assert(none + t + ".aaaa"@ + none =~= t + ".aaaa"@);
    assert(none + t + none + none =~= t);
}

/// An argument is spelled as an expression whose components are those of what it selects,
/// its alpha or its complement.
pub proof fn arguments_are_what_they_select(arg: u8, stage: nat, has_texture: bool)
    ensures
        exists|e: Expr| #[trigger]
            spells_value(resolve_arg_text(arg, stage as int, has_texture), e) && compact(e) && (
            forall|w: World, s: State, i: int|
                0 <= i < 4 ==> #[trigger] nth(eval(e, w, s), i) == argument(
                    arg,
                    stage,
                    has_texture,
                    s,
                    i,
                )),
{
    let e = argument_expr(arg, stage, has_texture);
    argument_spelled(arg, stage, has_texture);
    assert(spells_value(resolve_arg_text(arg, stage as int, has_texture), e));
    assert forall|w: World, s: State, i: int| 0 <= i < 4 implies #[trigger] nth(eval(e, w, s), i)
        == argument(arg, stage, has_texture, s, i) by {
        argument_means(arg, stage, has_texture, w, s, i);
    }
}

proof fn argument_means(arg: u8, stage: nat, has_texture: bool, w: World, s: State, i: int)
    requires
        0 <= i < 4,
    ensures
        nth(eval(argument_expr(arg, stage, has_texture), w, s), i) == argument(
            arg,
            stage,
            has_texture,
            s,
            i,
        ),
{
    selected_means(arg, stage, has_texture, w, s, i);
    reveal_with_fuel(eval, 5);
}

spec fn blend_expr(op: u8, stage: nat, has_texture: bool) -> Expr {
    if op == 12 {
        diffuse_in()
    } else if op == 13 && has_texture {
        Expr::Var(Name::Texel(stage))
    } else if op == 14 {
        factor()
    } else {
        so_far()
    }
}

spec fn operation_expr(op: u8, a: Expr, b: Expr, stage: nat, has_texture: bool) -> Expr {
    if op == 3 {
        b
    } else if op == 4 {
        modulate(a, b)
    } else if op == 5 {
        modulate2x(a, b)
    } else if op == 6 {
        modulate4x(a, b)
    } else if op == 7 {
        clamped_sum(a, b)
    } else if op == 8 {
        signed_sum(a, b)
    } else if op == 9 {
        signed_sum2x(a, b)
    } else if op == 10 {
        clamped_difference(a, b)
    } else if op == 11 {
        smooth_sum(a, b)
    } else if op == 12 || op == 13 || op == 14 || op == 16 {
        mix(a, b, blend_expr(op, stage, has_texture))
    } else if op == 24 {
        dot3(a, b)
    } else {
        a
    }
}

proof fn operation_spelled(op: u8, a: Expr, b: Expr, stage: nat, has_texture: bool)
    requires
        compact(a),
        compact(b),
    ensures
        spells_value(
            apply_op_text(op, show(a), show(b), stage as int, has_texture),
            operation_expr(op, a, b, stage, has_texture),
        ),
        compact(operation_expr(op, a, b, stage, has_texture)),
{
    modulate_spelled(a, b);
    modulate2x_spelled(a, b);
    modulate4x_spelled(a, b);
    clamped_sum_spelled(a, b);
    signed_sum_spelled(a, b);
    signed_sum2x_spelled(a, b);
    clamped_difference_spelled(a, b);
    smooth_sum_spelled(a, b);
    diffuse_in_spelled();
    factor_spelled();
    so_far_spelled();
    mix_spelled(a, b, blend_expr(op, stage, has_texture));
    dot3_spelled(a, b);
}

proof fn operation_means(
    op: u8,
    a: Expr,
    b: Expr,
    stage: nat,
    has_texture: bool,
    w: World,
    s: State,
    i: int,
)
    requires
        0 <= i < 4,
    ensures
        ({
            let v = eval(operation_expr(op, a, b, stage, has_texture), w, s);
            nth(v, i) == (if op == 24 {
                dot_product(eval(a, w, s), eval(b, w, s))
            } else {
                operation(
                    op,
                    nth(eval(a, w, s), i),
                    nth(eval(b, w, s), i),
                    blend_alpha(op, stage, has_texture, s),
                )
            })
        }),
{
    reveal_with_fuel(eval, 8);
}

/// Each operation is spelled as an expression that computes what the operation is defined to
/// make of its two arguments, component by component, whatever the arguments are.
pub proof fn operations_compute_what_they_stand_for(
    op: u8,
    a: Expr,
    b: Expr,
    stage: nat,
    has_texture: bool,
)
    requires
        compact(a),
        compact(b),
    ensures
        exists|e: Expr| #[trigger]
            spells_value(apply_op_text(op, show(a), show(b), stage as int, has_texture), e)
                && compact(e) && (forall|w: World, s: State, i: int|
                0 <= i < 4 ==> #[trigger] nth(eval(e, w, s), i) == (if op == 24 {
                    dot_product(eval(a, w, s), eval(b, w, s))
                } else {
                    operation(
                        op,
                        nth(eval(a, w, s), i),
                        nth(eval(b, w, s), i),
                        blend_alpha(op, stage, has_texture, s),
                    )
                })),
{
    let e = operation_expr(op, a, b, stage, has_texture);
    operation_spelled(op, a, b, stage, has_texture);
    assert(spells_value(apply_op_text(op, show(a), show(b), stage as int, has_texture), e));
    assert forall|w: World, s: State, i: int| 0 <= i < 4 implies #[trigger] nth(eval(e, w, s), i)
        == (if op == 24 {
        dot_product(eval(a, w, s), eval(b, w, s))
    } else {
        operation(
            op,
            nth(eval(a, w, s), i),
            nth(eval(b, w, s), i),
            blend_alpha(op, stage, has_texture, s),
        )
    }) by {
        operation_means(op, a, b, stage, has_texture, w, s, i);
    }
}

/// Whether an operation asks for the texture of its stage as one of its arguments: argument
/// two is not asked by operation 2, argument one not by operation 3.
pub open spec fn asks_for_texture(op: u8, arg1: u8, arg2: u8) -> bool {
    (arg1 as u32 & 0x0f == 2 && op != 3) || (arg2 as u32 & 0x0f == 2 && op != 2)
}

/// An argument as a vector.
pub open spec fn argument_vector(arg: u8, stage: nat, has_texture: bool, s: State) -> Value {
    vec4(
        argument(arg, stage, has_texture, s, 0),
        argument(arg, stage, has_texture, s, 1),
        argument(arg, stage, has_texture, s, 2),
        argument(arg, stage, has_texture, s, 3),
    )
}

/// Component `i` of what one half of a stage computes; where it asks for a texture that is
/// not there, the colour so far.
pub open spec fn half_stage(
    op: u8,
    arg1: u8,
    arg2: u8,
    stage: nat,
    has_texture: bool,
    s: State,
    i: int,
) -> real {
    if !has_texture && asks_for_texture(op, arg1, arg2) {
        nth(s.vars[Name::Current], i)
    } else if op == 24 {
        dot_product(
            argument_vector(arg1, stage, has_texture, s),
            argument_vector(arg2, stage, has_texture, s),
        )
    } else {
        operation(
            op,
            argument(arg1, stage, has_texture, s, i),
            argument(arg2, stage, has_texture, s, i),
            blend_alpha(op, stage, has_texture, s),
        )
    }
}

spec fn half_expr(op: u8, arg1: u8, arg2: u8, stage: nat, has_texture: bool) -> Expr {
    if !has_texture && asks_for_texture(op, arg1, arg2) {
        so_far()
    } else {
        operation_expr(
            op,
            argument_expr(arg1, stage, has_texture),
            argument_expr(arg2, stage, has_texture),
            stage,
            has_texture,
        )
    }
}

proof fn half_spelled(op: u8, arg1: u8, arg2: u8, stage: nat, has_texture: bool)
    ensures
        spells_value(
            combined_text(op, arg1, arg2, stage as int, has_texture),
            half_expr(op, arg1, arg2, stage, has_texture),
        ),
        compact(half_expr(op, arg1, arg2, stage, has_texture)),
{
    so_far_spelled();
    argument_spelled(arg1, stage, has_texture);
    argument_spelled(arg2, stage, has_texture);
    operation_spelled(
        op,
        argument_expr(arg1, stage, has_texture),
        argument_expr(arg2, stage, has_texture),
        stage,
        has_texture,
    );
}

proof fn half_means(
    op: u8,
    arg1: u8,
    arg2: u8,
    stage: nat,
    has_texture: bool,
    w: World,
    s: State,
    i: int,
)
    requires
        0 <= i < 4,
    ensures
        nth(eval(half_expr(op, arg1, arg2, stage, has_texture), w, s), i) == half_stage(
            op,
            arg1,
            arg2,
            stage,
            has_texture,
            s,
            i,
        ),
{
    let a = argument_expr(arg1, stage, has_texture);
    let b = argument_expr(arg2, stage, has_texture);
    operation_means(op, a, b, stage, has_texture, w, s, i);
    argument_means(arg1, stage, has_texture, w, s, i);
    argument_means(arg2, stage, has_texture, w, s, i);
    argument_means(arg1, stage, has_texture, w, s, 0);
    argument_means(arg2, stage, has_texture, w, s, 0);
    argument_means(arg1, stage, has_texture, w, s, 1);
    argument_means(arg2, stage, has_texture, w, s, 1);
    argument_means(arg1, stage, has_texture, w, s, 2);
    argument_means(arg2, stage, has_texture, w, s, 2);
}

/// A stage sets the colour so far to the colour that its colour half computes, with the
/// alpha that its alpha half computes, both from the colour before it.
pub proof fn stages_combine_colour_and_alpha(f: FfStage, stage: nat)
    ensures
        exists|p: Stmt| #[trigger]
            spells(stage_combine_text(f, stage as int), p, 1) && (forall|w: World, s: State|
                {
                    let t = #[trigger] run(p, w, s);
                    let c = |i: int|
                        half_stage(
                            f.color_op,
                            f.color_arg1,
                            f.color_arg2,
                            stage,
                            f.has_texture,
                            s,
                            i,
                        );
                    &&& t.vars[Name::Current] == vec4(
                        c(0),
                        c(1),
                        c(2),
                        half_stage(
                            f.alpha_op,
                            f.alpha_arg1,
                            f.alpha_arg2,
                            stage,
                            f.has_texture,
                            s,
                            3,
                        ),
                    )
                    &&& forall|n: Name| !(n is Current) ==> #[trigger] t.vars[n] == s.vars[n]
                }),
{
    let c = half_expr(f.color_op, f.color_arg1, f.color_arg2, stage, f.has_texture);
    let a = half_expr(f.alpha_op, f.alpha_arg1, f.alpha_arg2, stage, f.has_texture);
    half_spelled(f.color_op, f.color_arg1, f.color_arg2, stage, f.has_texture);
    half_spelled(f.alpha_op, f.alpha_arg1, f.alpha_arg2, stage, f.has_texture);
    set_current_spelled(c, a);
    let p = set_current(c, a);
    assert(spells(stage_combine_text(f, stage as int), p, 1));
    assert forall|w: World, s: State|
        {
            let t = #[trigger] run(p, w, s);
            let x = |i: int|
                half_stage(f.color_op, f.color_arg1, f.color_arg2, stage, f.has_texture, s, i);
            &&& t.vars[Name::Current] == vec4(
                x(0),
                x(1),
                x(2),
                half_stage(f.alpha_op, f.alpha_arg1, f.alpha_arg2, stage, f.has_texture, s, 3),
            )
            &&& forall|n: Name| !(n is Current) ==> #[trigger] t.vars[n] == s.vars[n]
        } by {
        half_means(f.color_op, f.color_arg1, f.color_arg2, stage, f.has_texture, w, s, 0);
        half_means(f.color_op, f.color_arg1, f.color_arg2, stage, f.has_texture, w, s, 1);
        half_means(f.color_op, f.color_arg1, f.color_arg2, stage, f.has_texture, w, s, 2);
        half_means(f.alpha_op, f.alpha_arg1, f.alpha_arg2, stage, f.has_texture, w, s, 3);
        combine_means(c, a, w, s);
    }
}

/// The statement that combines the colour of a stage.
pub closed spec fn combine_program(f: FfStage, stage: nat) -> Stmt {
    set_current(
        half_expr(f.color_op, f.color_arg1, f.color_arg2, stage, f.has_texture),
        half_expr(f.alpha_op, f.alpha_arg1, f.alpha_arg2, stage, f.has_texture),
    )
}

pub proof fn combine_spelled(f: FfStage, stage: nat)
    ensures
        spells(stage_combine_text(f, stage as int), combine_program(f, stage), 1),
{
    let c = half_expr(f.color_op, f.color_arg1, f.color_arg2, stage, f.has_texture);
    let a = half_expr(f.alpha_op, f.alpha_arg1, f.alpha_arg2, stage, f.has_texture);
    half_spelled(f.color_op, f.color_arg1, f.color_arg2, stage, f.has_texture);
    half_spelled(f.alpha_op, f.alpha_arg1, f.alpha_arg2, stage, f.has_texture);
    set_current_spelled(c, a);
}

pub proof fn combine_runs(f: FfStage, stage: nat, w: World, s: State)
    ensures
        run(combine_program(f, stage), w, s) == assigned(
            s,
            Name::Current,
            vec4(
                half_stage(f.color_op, f.color_arg1, f.color_arg2, stage, f.has_texture, s, 0),
                half_stage(f.color_op, f.color_arg1, f.color_arg2, stage, f.has_texture, s, 1),
                half_stage(f.color_op, f.color_arg1, f.color_arg2, stage, f.has_texture, s, 2),
                half_stage(f.alpha_op, f.alpha_arg1, f.alpha_arg2, stage, f.has_texture, s, 3),
            ),
        ),
{
    let c = half_expr(f.color_op, f.color_arg1, f.color_arg2, stage, f.has_texture);
    let a = half_expr(f.alpha_op, f.alpha_arg1, f.alpha_arg2, stage, f.has_texture);
    half_means(f.color_op, f.color_arg1, f.color_arg2, stage, f.has_texture, w, s, 0);
    half_means(f.color_op, f.color_arg1, f.color_arg2, stage, f.has_texture, w, s, 1);
    half_means(f.color_op, f.color_arg1, f.color_arg2, stage, f.has_texture, w, s, 2);
    half_means(f.alpha_op, f.alpha_arg1, f.alpha_arg2, stage, f.has_texture, w, s, 3);
    combine_means(c, a, w, s);
}

proof fn combine_means(c: Expr, a: Expr, w: World, s: State)
    ensures
        run(set_current(c, a), w, s) == assigned(
            s,
            Name::Current,
            vec4(eval(c, w, s).x, eval(c, w, s).y, eval(c, w, s).z, eval(a, w, s).w),
        ),
        run(set_current(c, a), w, s).vars[Name::Current] == vec4(
            eval(c, w, s).x,
            eval(c, w, s).y,
            eval(c, w, s).z,
            eval(a, w, s).w,
        ),
        forall|n: Name| !(n is Current) ==> #[trigger] run(set_current(c, a), w, s).vars[n]
            == s.vars[n],
{
    reveal_with_fuel(eval, 7);
}

} // verus!
