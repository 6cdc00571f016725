//! Point-source gravity: the inverse-square pull of every gravitational body
//! on every attracted body, summed once per frame.

use crate::components::physics::{AttractedBody, GravitationalBody};
use crate::fixed::{
    lemma_product_sign, lemma_quotient_odd, magnitude, mul_div, quotient, saturate, Fixed, SCALE,
};
use crate::root::lemma_floor_root;
use crate::vector::Vector3;
use vstd::prelude::*;

verus! {

/// One raw component of the unit vector along a displacement: the
/// displacement's component `c` over its length `n`.
pub open spec fn direction_component(c: int, n: nat) -> int {
    quotient(c * SCALE, n as int)
}

/// One raw component of `direction * f / length^2`, for a displacement with
/// component `c`, length `n` and squared length `n2`.
pub open spec fn pull_component(c: int, f: int, n: nat, n2: nat) -> int {
    saturate(quotient(direction_component(c, n) * SCALE * f, n2 as int))
}

/// The inverse-square term of one pair: for the displacement `r` from a
/// source of strength `f`, the unit vector along `r` times `f` over the
/// squared length of `r`; the zero vector where `r` has no length.
pub open spec fn spec_pull(r: Vector3, f: Fixed) -> Vector3 {
    let n = r.norm();
    let n2 = r.norm_squared();
    if n == 0 {
        Vector3::zero()
    } else {
        Vector3 {
            x: Fixed { raw: pull_component(r.x.raw as int, f.raw as int, n, n2) as i64 },
            y: Fixed { raw: pull_component(r.y.raw as int, f.raw as int, n, n2) as i64 },
            z: Fixed { raw: pull_component(r.z.raw as int, f.raw as int, n, n2) as i64 },
        }
    }
}

/// The inverse-square term of the pair made of a body at `position` and the
/// source `body`, along the displacement from the source to the body.
pub open spec fn pair_term(position: Vector3, body: GravitationalBody) -> Vector3 {
    spec_pull(position.minus(body.position), body.f)
}

/// The force of all `bodies` on a body at `position`: starting from zero,
/// each pair's term is subtracted in turn, so that the force points toward
/// the sources.
pub open spec fn spec_net_force(position: Vector3, bodies: Seq<GravitationalBody>) -> Vector3
    decreases bodies.len(),
{
    if bodies.len() == 0 {
        Vector3::zero()
    } else {
        spec_net_force(position, bodies.drop_last()).minus(pair_term(position, bodies.last()))
    }
}

/// How many of `bodies` lie exactly at `position`.
pub open spec fn colocated(position: Vector3, bodies: Seq<GravitationalBody>) -> nat
    decreases bodies.len(),
{
    if bodies.len() == 0 {
        0
    } else {
        colocated(position, bodies.drop_last()) + if bodies.last().position == position {
            1nat
        } else {
            0nat
        }
    }
}

/// How many pairs of an attracted and a gravitational body lie at one point.
pub open spec fn colocated_pairs(
    attracted: Seq<AttractedBody>,
    bodies: Seq<GravitationalBody>,
) -> nat
    decreases attracted.len(),
{
    if attracted.len() == 0 {
        0
    } else {
        colocated_pairs(attracted.drop_last(), bodies) + colocated(
            attracted.last().position,
            bodies,
        )
    }
}

/// An attracted body after one frame of gravity: its force has grown by the
/// net force of `bodies`, its position is as before.
pub open spec fn attract(body: AttractedBody, bodies: Seq<GravitationalBody>) -> AttractedBody {
    AttractedBody {
        position: body.position,
        force: body.force.plus(spec_net_force(body.position, bodies)),
    }
}

/// No component of a vector is longer than the vector.
proof fn lemma_component_within_norm(c: int, rest: nat, n: nat)
    requires
        n * n <= c * c + rest < (n + 1) * (n + 1),
    ensures
        magnitude(c) <= n,
{
    let m = magnitude(c);
    lemma_product_sign(c, c);
    assert(m <= n) by (nonlinear_arith)
        requires
            m * m <= c * c + rest,
            c * c + rest < (n + 1) * (n + 1),
    ;
}

/// A component of a unit vector has magnitude at most one.
proof fn lemma_direction_bound(c: int, n: nat)
    requires
        n > 0,
        magnitude(c) <= n,
    ensures
        -SCALE <= direction_component(c, n) <= SCALE,
{
    let m = magnitude(c);
    lemma_product_sign(c, SCALE as int);
    assert((m * 1_000_000) / n <= 1_000_000) by (nonlinear_arith)
        requires
            n > 0,
            m <= n,
    ;
    assert((m * 1_000_000) / n >= 0) by (nonlinear_arith)
        requires
            n > 0,
            m >= 0,
    ;
}

fn pull_axis(c: i64, f: i64, n: u64, n2: u128, Ghost(rest): Ghost<nat>) -> (r: Fixed)
    requires
        n > 0,
        n2 == c * c + rest,
        n * n <= n2 < (n + 1) * (n + 1),
    ensures
        r.raw == pull_component(c as int, f as int, n as nat, n2 as nat),
{
    proof {
        lemma_component_within_norm(c as int, rest, n as nat);
        lemma_direction_bound(c as int, n as nat);
        assert(n2 > 0) by (nonlinear_arith)
            requires
                n > 0,
                n * n <= n2,
        ;
    }
    let direction: i64 = mul_div(c, SCALE, n as u128, false);
    Fixed { raw: mul_div(direction * SCALE, f, n2, false) }
}

/// The inverse-square term of one pair, from the displacement `r` and the
/// source's strength `f`.
#[verifier::when_used_as_spec(spec_pull)]
pub fn pull(r: Vector3, f: Fixed) -> (term: Vector3)
    ensures
        term == spec_pull(r, f),
        r.is_zero() ==> term.is_zero(),
{
    let n2: u128 = r.squared_norm();
    let n: u64 = r.raw_norm();
    proof {
        r.lemma_norm_zero();
        lemma_floor_root(n2 as nat);
    }
    if n == 0 {
        Vector3::zero()
    } else {
        let ghost x = r.x.raw as int;
        let ghost y = r.y.raw as int;
        let ghost z = r.z.raw as int;
        proof {
            assert(x * x >= 0 && y * y >= 0 && z * z >= 0) by (nonlinear_arith);
        }
        Vector3 {
            x: pull_axis(r.x.raw, f.raw, n, n2, Ghost((y * y + z * z) as nat)),
            y: pull_axis(r.y.raw, f.raw, n, n2, Ghost((x * x + z * z) as nat)),
            z: pull_axis(r.z.raw, f.raw, n, n2, Ghost((x * x + y * y) as nat)),
        }
    }
}

/// The force of all `bodies` on a body at `position`, and how many of them
/// lie exactly at `position` and so add nothing.
pub fn net_force(position: Vector3, bodies: &Vec<GravitationalBody>) -> (result: (Vector3, usize))
    ensures
        result.0 == spec_net_force(position, bodies@),
        result.1 == colocated(position, bodies@),
{
    let mut sum: Vector3 = Vector3::zero();
    let mut degenerate: usize = 0;
    let mut i: usize = 0;
    while i < bodies.len()
        invariant
            i <= bodies@.len(),
            sum == spec_net_force(position, bodies@.take(i as int)),
            degenerate == colocated(position, bodies@.take(i as int)),
            degenerate <= i,
        decreases bodies@.len() - i,
    {
        let body: GravitationalBody = bodies[i];
        let r: Vector3 = position.minus(body.position);
        proof {
            assert(bodies@.take(i + 1).drop_last() == bodies@.take(i as int));
            assert(bodies@.take(i + 1).last() == body);
        }
        if body.position == position {
            degenerate = degenerate + 1;
        }
        sum = sum.minus(pull(r, body.f));
        i = i + 1;
    }
    proof {
        assert(bodies@.take(i as int) == bodies@);
    }
    (sum, degenerate)
}

/// One frame of gravity. Every attracted body's force grows by the net force
/// of all gravitational bodies on it; positions stay. Returns the number of
/// pairs that lie at one point: such a pair adds no force, and the caller may
/// want to report it.
pub fn gravity_system(attracted: &mut Vec<AttractedBody>, bodies: &Vec<GravitationalBody>) -> (degenerate: u128)
    ensures
        final(attracted)@.len() == old(attracted)@.len(),
        forall|k: int|
            0 <= k < old(attracted)@.len() ==> #[trigger] final(attracted)@[k] == attract(
                old(attracted)@[k],
                bodies@,
            ),
        degenerate == colocated_pairs(old(attracted)@, bodies@),
{
    let count: usize = attracted.len();
    let sources: usize = bodies.len();
    let mut degenerate: u128 = 0;
    let mut i: usize = 0;
    while i < count
        invariant
            i <= count,
            count == attracted@.len(),
            count == old(attracted)@.len(),
            forall|k: int| 0 <= k < i ==> #[trigger] attracted@[k] == attract(old(attracted)@[k], bodies@),
            forall|k: int| i <= k < count ==> #[trigger] attracted@[k] == old(attracted)@[k],
            degenerate == colocated_pairs(old(attracted)@.take(i as int), bodies@),
            sources == bodies@.len(),
            degenerate <= i * sources,
        decreases count - i,
    {
        let body: AttractedBody = attracted[i];
        let (force, here) = net_force(body.position, bodies);
        proof {
            assert(old(attracted)@.take(i + 1).drop_last() == old(attracted)@.take(i as int));
            assert(old(attracted)@.take(i + 1).last() == body);
            lemma_colocated_bound(body.position, bodies@);
            assert((i + 1) * sources == i * sources + sources) by (nonlinear_arith);
            assert((i + 1) * sources <= usize::MAX * usize::MAX) by (nonlinear_arith)
                requires
                    i + 1 <= usize::MAX,
                    sources <= usize::MAX,
            ;
        }
        attracted.set(i, AttractedBody { position: body.position, force: body.force.plus(force) });
        degenerate = degenerate + here as u128;
        i = i + 1;
    }
    proof {
        assert(old(attracted)@.take(i as int) == old(attracted)@);
    }
    degenerate
}

/// No more bodies lie at a point than there are bodies.
pub proof fn lemma_colocated_bound(position: Vector3, bodies: Seq<GravitationalBody>)
    ensures
        colocated(position, bodies) <= bodies.len(),
    decreases bodies.len(),
{
    if bodies.len() > 0 {
        lemma_colocated_bound(position, bodies.drop_last());
    }
}

/// A gravitational body that lies exactly where the attracted body lies adds
/// no force to it: the pair's term is the zero vector.
pub proof fn lemma_colocated_pair_adds_nothing(position: Vector3, body: GravitationalBody)
    requires
        body.position == position,
    ensures
        pair_term(position, body) == Vector3::zero(),
        spec_net_force(position, seq![body]) == Vector3::zero(),
{
    let r = position.minus(body.position);
    assert(r.is_zero());
    r.lemma_norm_zero();
    assert(seq![body].drop_last() =~= Seq::<GravitationalBody>::empty());
    assert(seq![body].last() == body);
    reveal_with_fuel(spec_net_force, 2);
}

/// A gravitational body that lies exactly where the attracted body lies does
/// not change what the other bodies do: with it or without it the net force
/// is the same.
pub proof fn lemma_colocated_body_changes_nothing(
    position: Vector3,
    others: Seq<GravitationalBody>,
    body: GravitationalBody,
)
    requires
        body.position == position,
    ensures
        spec_net_force(position, others.push(body)) == spec_net_force(position, others),
{
    let r = position.minus(body.position);
    assert(r.is_zero());
    r.lemma_norm_zero();
    assert(others.push(body).drop_last() =~= others);
    assert(others.push(body).last() == body);
    if others.len() > 0 {
        assert(spec_net_force(position, others) == spec_net_force(
            position,
            others.drop_last(),
        ).minus(pair_term(position, others.last())));
    }
}

/// The sign of one component of a pair's term: that of the displacement's
/// component where the strength is not negative, or zero.
proof fn lemma_pull_component_sign(c: int, f: int, n: nat, n2: nat)
    requires
        n > 0,
        n2 > 0,
        f >= 0,
    ensures
        c >= 0 ==> pull_component(c, f, n, n2) >= 0,
        c <= 0 ==> pull_component(c, f, n, n2) <= 0,
{
    let d = direction_component(c, n);
    assert(c >= 0 ==> c * SCALE >= 0) by (nonlinear_arith);
    assert(c <= 0 ==> c * SCALE <= 0) by (nonlinear_arith);
    assert(0nat / n == 0) by (nonlinear_arith)
        requires
            n > 0,
    ;
    assert(c >= 0 ==> d >= 0);
    assert(c <= 0 ==> d <= 0);
    assert(d >= 0 ==> d * SCALE * f >= 0) by (nonlinear_arith)
        requires
            f >= 0,
    ;
    assert(d <= 0 ==> d * SCALE * f <= 0) by (nonlinear_arith)
        requires
            f >= 0,
    ;
    assert(0nat / n2 == 0) by (nonlinear_arith)
        requires
            n2 > 0,
    ;
}

/// Gravity attracts: the force of one body of strength zero or more on an
/// attracted body never points away from it. Along each axis the force is
/// zero or has the sign of the way from the attracted body to the source.
pub proof fn lemma_force_points_to_source(position: Vector3, body: GravitationalBody)
    requires
        body.f.raw >= 0,
    ensures
        ({
            let force = spec_net_force(position, seq![body]);
            &&& body.position.x.raw >= position.x.raw ==> force.x.raw >= 0
            &&& body.position.x.raw <= position.x.raw ==> force.x.raw <= 0
            &&& body.position.y.raw >= position.y.raw ==> force.y.raw >= 0
            &&& body.position.y.raw <= position.y.raw ==> force.y.raw <= 0
            &&& body.position.z.raw >= position.z.raw ==> force.z.raw >= 0
            &&& body.position.z.raw <= position.z.raw ==> force.z.raw <= 0
        }),
{
    assert(seq![body].drop_last() =~= Seq::<GravitationalBody>::empty());
    assert(seq![body].last() == body);
    reveal_with_fuel(spec_net_force, 2);
    let r = position.minus(body.position);
    let n = r.norm();
    let n2 = r.norm_squared();
    if n != 0 {
        lemma_floor_root(n2);
        lemma_pull_component_sign(r.x.raw as int, body.f.raw as int, n, n2);
        lemma_pull_component_sign(r.y.raw as int, body.f.raw as int, n, n2);
        lemma_pull_component_sign(r.z.raw as int, body.f.raw as int, n, n2);
    }
}

/// Reversing a displacement reverses the pair's term.
pub proof fn lemma_pull_odd(r: Vector3, s: Vector3, f: Fixed)
    requires
        s.x.raw == -r.x.raw,
        s.y.raw == -r.y.raw,
        s.z.raw == -r.z.raw,
    ensures
        spec_pull(s, f).x.raw == -spec_pull(r, f).x.raw,
        spec_pull(s, f).y.raw == -spec_pull(r, f).y.raw,
        spec_pull(s, f).z.raw == -spec_pull(r, f).z.raw,
{
    let n2 = r.norm_squared();
    let n = r.norm();
    assert(s.norm_squared() == n2) by (nonlinear_arith)
        requires
            s.x.raw == -r.x.raw,
            s.y.raw == -r.y.raw,
            s.z.raw == -r.z.raw,
            n2 == (r.x.raw * r.x.raw + r.y.raw * r.y.raw + r.z.raw * r.z.raw) as nat,
            s.norm_squared() == (s.x.raw * s.x.raw + s.y.raw * s.y.raw + s.z.raw * s.z.raw) as nat,
    ;
    if n != 0 {
        lemma_floor_root(n2);
        lemma_pull_component_odd(r.x.raw as int, f.raw as int, n, n2);
        lemma_pull_component_odd(r.y.raw as int, f.raw as int, n, n2);
        lemma_pull_component_odd(r.z.raw as int, f.raw as int, n, n2);
    }
}

proof fn lemma_pull_component_odd(c: int, f: int, n: nat, n2: nat)
    requires
        n > 0,
        n2 > 0,
    ensures
        pull_component(-c, f, n, n2) == -pull_component(c, f, n, n2),
{
    lemma_quotient_odd(c * SCALE, n as int);
    assert((-c) * SCALE == -(c * SCALE)) by (nonlinear_arith);
    let d = direction_component(c, n);
    assert(direction_component(-c, n) == -d);
    assert((-d) * SCALE * f == -(d * SCALE * f)) by (nonlinear_arith);
    lemma_quotient_odd(d * SCALE * f, n2 as int);
}

/// Two gravitational bodies of equal strength, placed at mirrored points
/// about an attracted body, pull it with forces that cancel: the net force
/// of the two is the zero vector.
pub proof fn lemma_symmetric_pair_cancels(
    position: Vector3,
    first: GravitationalBody,
    second: GravitationalBody,
)
    requires
        first.f == second.f,
        first.position.x.raw - position.x.raw == position.x.raw - second.position.x.raw,
        first.position.y.raw - position.y.raw == position.y.raw - second.position.y.raw,
        first.position.z.raw - position.z.raw == position.z.raw - second.position.z.raw,
    ensures
        spec_net_force(position, seq![first, second]) == Vector3::zero(),
{
    let both = seq![first, second];
    assert(both.drop_last() =~= seq![first]);
    assert(both.last() == second);
    assert(seq![first].drop_last() =~= Seq::<GravitationalBody>::empty());
    assert(seq![first].last() == first);
    reveal_with_fuel(spec_net_force, 3);
    let r = position.minus(first.position);
    let s = position.minus(second.position);
    lemma_pull_odd(r, s, first.f);
}

} // verus!
