//! The exact algebra behind the world-entity transforms.
//!
//! Every entity of the scene — the camera and the colored quads — carries
//! a rigid transform: an orthonormal basis of right/up/look columns and a
//! position. The executable operations on those transforms run on
//! floating-point numbers outside this crate; this module states and
//! proves the algebraic laws those operations implement, over exact
//! (unbounded integer) vectors and matrices. The laws — mutation keeps the
//! basis orthonormal, looking at a point aligns the look column with the
//! eye-to-point direction, and the camera matrix built from the basis
//! inverts the world transform — are exact identities of the formulas
//! themselves; only the floating-point rounding of an implementation adds
//! a tolerance on top of them.

use vstd::prelude::*;

verus! {

/// An exact 3-vector.
pub ghost struct Vec3M {
    pub x: int,
    pub y: int,
    pub z: int,
}

/// An exact 3x3 matrix, stored as its three columns. For an entity's
/// basis, `cx` is the right column, `cy` the up column and `cz` the look
/// column, as in the entity's world transform.
pub ghost struct Mat3M {
    pub cx: Vec3M,
    pub cy: Vec3M,
    pub cz: Vec3M,
}

/// An exact rigid transform: a basis and a position, the upper-left 3x3
/// block and the translation column of the 4x4 world matrix.
pub ghost struct RigidM {
    pub rot: Mat3M,
    pub pos: Vec3M,
}

pub open spec fn zero3() -> Vec3M {
    Vec3M { x: 0, y: 0, z: 0 }
}

pub open spec fn add3(a: Vec3M, b: Vec3M) -> Vec3M {
    Vec3M { x: a.x + b.x, y: a.y + b.y, z: a.z + b.z }
}

pub open spec fn sub3(a: Vec3M, b: Vec3M) -> Vec3M {
    Vec3M { x: a.x - b.x, y: a.y - b.y, z: a.z - b.z }
}

pub open spec fn neg3(a: Vec3M) -> Vec3M {
    Vec3M { x: -a.x, y: -a.y, z: -a.z }
}

pub open spec fn scale3(k: int, a: Vec3M) -> Vec3M {
    Vec3M { x: k * a.x, y: k * a.y, z: k * a.z }
}

/// The inner product of two vectors.
pub open spec fn dot(a: Vec3M, b: Vec3M) -> int {
    a.x * b.x + a.y * b.y + a.z * b.z
}

/// The cross product of two vectors.
pub open spec fn cross(a: Vec3M, b: Vec3M) -> Vec3M {
    Vec3M { x: a.y * b.z - a.z * b.y, y: a.z * b.x - a.x * b.z, z: a.x * b.y - a.y * b.x }
}

/// `m * v`: the linear combination of the columns of `m` by the
/// components of `v`.
pub open spec fn matvec(m: Mat3M, v: Vec3M) -> Vec3M {
    add3(add3(scale3(v.x, m.cx), scale3(v.y, m.cy)), scale3(v.z, m.cz))
}

/// `a * b`, column by column.
pub open spec fn matmul(a: Mat3M, b: Mat3M) -> Mat3M {
    Mat3M { cx: matvec(a, b.cx), cy: matvec(a, b.cy), cz: matvec(a, b.cz) }
}

pub open spec fn transpose(m: Mat3M) -> Mat3M {
    Mat3M {
        cx: Vec3M { x: m.cx.x, y: m.cy.x, z: m.cz.x },
        cy: Vec3M { x: m.cx.y, y: m.cy.y, z: m.cz.y },
        cz: Vec3M { x: m.cx.z, y: m.cy.z, z: m.cz.z },
    }
}

pub open spec fn identity3() -> Mat3M {
    Mat3M {
        cx: Vec3M { x: 1, y: 0, z: 0 },
        cy: Vec3M { x: 0, y: 1, z: 0 },
        cz: Vec3M { x: 0, y: 0, z: 1 },
    }
}

/// The columns are unit length and mutually perpendicular: the matrix is
/// a rotation (or a reflection), and its transpose is its inverse.
pub open spec fn orthonormal(m: Mat3M) -> bool {
    &&& dot(m.cx, m.cx) == 1
    &&& dot(m.cy, m.cy) == 1
    &&& dot(m.cz, m.cz) == 1
    &&& dot(m.cx, m.cy) == 0
    &&& dot(m.cx, m.cz) == 0
    &&& dot(m.cy, m.cz) == 0
}

/// The identity rigid transform.
pub open spec fn identity_rigid() -> RigidM {
    RigidM { rot: identity3(), pos: zero3() }
}

/// `a` after `b`: the rigid transform that applies `b` first and `a`
/// second. The basis parts multiply and the position of `b` is carried
/// through `a`.
pub open spec fn compose(a: RigidM, b: RigidM) -> RigidM {
    RigidM { rot: matmul(a.rot, b.rot), pos: add3(matvec(a.rot, b.pos), a.pos) }
}

/// The camera (view) matrix an entity derives from its own world
/// transform: the transposed basis as the new basis, and the negated,
/// basis-projected position as the new position. This is exactly the
/// matrix whose rows are right/up/look and whose translation column is
/// `(-pos . right, -pos . up, -pos . look)`.
pub open spec fn view_of(w: RigidM) -> RigidM {
    RigidM { rot: transpose(w.rot), pos: neg3(matvec(transpose(w.rot), w.pos)) }
}

/// One mutation of a world entity, as the entity interface offers them.
/// A rotation carries the (already orthonormal) matrix of the rotation
/// quaternion.
pub ghost enum EntityOp {
    /// Premultiplies the whole transform by a rotation: the basis turns,
    /// and the position orbits around the origin with it.
    Rotate(Mat3M),
    /// Moves the entity along its own basis columns.
    TranslateLocal(Vec3M),
    /// Moves the entity in world coordinates.
    TranslateWorld(Vec3M),
}

/// What one mutation does to the transform.
pub open spec fn apply_op(w: RigidM, op: EntityOp) -> RigidM {
    match op {
        EntityOp::Rotate(q) => RigidM { rot: matmul(q, w.rot), pos: matvec(q, w.pos) },
        EntityOp::TranslateLocal(d) => RigidM { rot: w.rot, pos: add3(w.pos, matvec(w.rot, d)) },
        EntityOp::TranslateWorld(d) => RigidM { rot: w.rot, pos: add3(w.pos, d) },
    }
}

/// A whole sequence of mutations, applied in order.
pub open spec fn apply_ops(w: RigidM, ops: Seq<EntityOp>) -> RigidM
    decreases ops.len(),
{
    if ops.len() == 0 {
        w
    } else {
        apply_ops(apply_op(w, ops[0]), ops.subrange(1, ops.len() as int))
    }
}

/// Every rotation in the sequence is orthonormal — the entity interface
/// normalizes every rotation quaternion before applying it.
pub open spec fn ops_orthonormal(ops: Seq<EntityOp>) -> bool {
    forall|i: int|
        0 <= i < ops.len() ==> (#[trigger] ops[i] matches EntityOp::Rotate(q) ==> orthonormal(q))
}

/// Distributing a dot product over a vector sum.
proof fn lemma_dot_add_left(a: Vec3M, b: Vec3M, c: Vec3M)
    ensures
        dot(add3(a, b), c) == dot(a, c) + dot(b, c),
{
    assert((a.x + b.x) * c.x + (a.y + b.y) * c.y + (a.z + b.z) * c.z == (a.x * c.x + a.y * c.y
        + a.z * c.z) + (b.x * c.x + b.y * c.y + b.z * c.z)) by (nonlinear_arith);
}

/// Pulling a scalar out of a dot product.
proof fn lemma_dot_scale_left(k: int, a: Vec3M, b: Vec3M)
    ensures
        dot(scale3(k, a), b) == k * dot(a, b),
{
    assert((k * a.x) * b.x == k * (a.x * b.x)) by (nonlinear_arith);
    assert((k * a.y) * b.y == k * (a.y * b.y)) by (nonlinear_arith);
    assert((k * a.z) * b.z == k * (a.z * b.z)) by (nonlinear_arith);
    assert(k * (a.x * b.x) + k * (a.y * b.y) + k * (a.z * b.z) == k * (a.x * b.x + a.y * b.y
        + a.z * b.z)) by (nonlinear_arith);
}

/// The dot product is symmetric.
proof fn lemma_dot_symmetric(a: Vec3M, b: Vec3M)
    ensures
        dot(a, b) == dot(b, a),
{
    assert(a.x * b.x + a.y * b.y + a.z * b.z == b.x * a.x + b.y * a.y + b.z * a.z)
        by (nonlinear_arith);
}

/// Expanding `dot(m * u, w)` over the columns of `m`.
proof fn lemma_dot_matvec_left(m: Mat3M, u: Vec3M, w: Vec3M)
    ensures
        dot(matvec(m, u), w) == u.x * dot(m.cx, w) + u.y * dot(m.cy, w) + u.z * dot(m.cz, w),
{
    lemma_dot_add_left(add3(scale3(u.x, m.cx), scale3(u.y, m.cy)), scale3(u.z, m.cz), w);
    lemma_dot_add_left(scale3(u.x, m.cx), scale3(u.y, m.cy), w);
    lemma_dot_scale_left(u.x, m.cx, w);
    lemma_dot_scale_left(u.y, m.cy, w);
    lemma_dot_scale_left(u.z, m.cz, w);
}

/// An orthonormal matrix preserves inner products: angles and lengths
/// survive a rotation.
pub proof fn lemma_rotation_preserves_dot(m: Mat3M, u: Vec3M, v: Vec3M)
    requires
        orthonormal(m),
    ensures
        dot(matvec(m, u), matvec(m, v)) == dot(u, v),
{
    let mv = matvec(m, v);
    lemma_dot_matvec_left(m, u, mv);
    lemma_dot_symmetric(m.cx, mv);
    lemma_dot_symmetric(m.cy, mv);
    lemma_dot_symmetric(m.cz, mv);
    lemma_dot_matvec_left(m, v, m.cx);
    lemma_dot_matvec_left(m, v, m.cy);
    lemma_dot_matvec_left(m, v, m.cz);
    lemma_dot_symmetric(m.cy, m.cx);
    lemma_dot_symmetric(m.cz, m.cx);
    lemma_dot_symmetric(m.cz, m.cy);
    assert(v.x * dot(m.cx, m.cx) + v.y * dot(m.cy, m.cx) + v.z * dot(m.cz, m.cx) == v.x)
        by (nonlinear_arith)
        requires
            dot(m.cx, m.cx) == 1,
            dot(m.cy, m.cx) == 0,
            dot(m.cz, m.cx) == 0,
    ;
    assert(v.x * dot(m.cx, m.cy) + v.y * dot(m.cy, m.cy) + v.z * dot(m.cz, m.cy) == v.y)
        by (nonlinear_arith)
        requires
            dot(m.cy, m.cy) == 1,
            dot(m.cx, m.cy) == 0,
            dot(m.cz, m.cy) == 0,
    ;
    assert(v.x * dot(m.cx, m.cz) + v.y * dot(m.cy, m.cz) + v.z * dot(m.cz, m.cz) == v.z)
        by (nonlinear_arith)
        requires
            dot(m.cz, m.cz) == 1,
            dot(m.cx, m.cz) == 0,
            dot(m.cy, m.cz) == 0,
    ;
    assert(u.x * dot(m.cx, mv) + u.y * dot(m.cy, mv) + u.z * dot(m.cz, mv) == u.x * v.x + u.y
        * v.y + u.z * v.z) by (nonlinear_arith)
        requires
            dot(m.cx, mv) == v.x,
            dot(m.cy, mv) == v.y,
            dot(m.cz, mv) == v.z,
    ;
}

/// The product of two orthonormal matrices is orthonormal: one rotation
/// applied after another is again a rotation.
pub proof fn lemma_matmul_preserves_orthonormal(a: Mat3M, b: Mat3M)
    requires
        orthonormal(a),
        orthonormal(b),
    ensures
        orthonormal(matmul(a, b)),
{
    lemma_rotation_preserves_dot(a, b.cx, b.cx);
    lemma_rotation_preserves_dot(a, b.cy, b.cy);
    lemma_rotation_preserves_dot(a, b.cz, b.cz);
    lemma_rotation_preserves_dot(a, b.cx, b.cy);
    lemma_rotation_preserves_dot(a, b.cx, b.cz);
    lemma_rotation_preserves_dot(a, b.cy, b.cz);
}

/// For any sequence of rotate, translate-local and translate-world
/// operations on a world entity whose basis starts orthonormal, the basis
/// stays orthonormal: rotations multiply it by an orthonormal matrix and
/// translations do not touch it at all.
pub proof fn lemma_entity_basis_stays_orthonormal(w: RigidM, ops: Seq<EntityOp>)
    requires
        orthonormal(w.rot),
        ops_orthonormal(ops),
    ensures
        orthonormal(apply_ops(w, ops).rot),
    decreases ops.len(),
{
    if ops.len() > 0 {
        let w1 = apply_op(w, ops[0]);
        match ops[0] {
            EntityOp::Rotate(q) => {
                lemma_matmul_preserves_orthonormal(q, w.rot);
            },
            _ => {},
        }
        assert(orthonormal(w1.rot));
        lemma_entity_basis_stays_orthonormal(w1, ops.subrange(1, ops.len() as int));
    }
}

/// `transpose(m) * v` projects `v` onto the columns of `m`.
proof fn lemma_transpose_matvec(m: Mat3M, v: Vec3M)
    ensures
        matvec(transpose(m), v) == (Vec3M { x: dot(v, m.cx), y: dot(v, m.cy), z: dot(v, m.cz) }),
{
    assert(v.x * m.cx.x + v.y * m.cx.y + v.z * m.cx.z == dot(v, m.cx)) by (nonlinear_arith);
    assert(v.x * m.cy.x + v.y * m.cy.y + v.z * m.cy.z == dot(v, m.cy)) by (nonlinear_arith);
    assert(v.x * m.cz.x + v.y * m.cz.y + v.z * m.cz.z == dot(v, m.cz)) by (nonlinear_arith);
}

/// The transpose of an orthonormal matrix is its inverse.
pub proof fn lemma_transpose_inverts(m: Mat3M)
    requires
        orthonormal(m),
    ensures
        matmul(transpose(m), m) == identity3(),
{
    lemma_transpose_matvec(m, m.cx);
    lemma_transpose_matvec(m, m.cy);
    lemma_transpose_matvec(m, m.cz);
    lemma_dot_symmetric(m.cy, m.cx);
    lemma_dot_symmetric(m.cz, m.cx);
    lemma_dot_symmetric(m.cz, m.cy);
}

/// The camera matrix inverts the world transform: composing the view
/// derived from an entity's orthonormal basis with the entity's own world
/// transform is the identity, exactly.
pub proof fn lemma_camera_matrix_inverts_world(w: RigidM)
    requires
        orthonormal(w.rot),
    ensures
        compose(view_of(w), w) == identity_rigid(),
{
    lemma_transpose_inverts(w.rot);
    assert(add3(matvec(transpose(w.rot), w.pos), neg3(matvec(transpose(w.rot), w.pos)))
        == zero3());
}

/// The basis the look-at operation builds from an eye position, a target
/// point, and the previous up direction, before normalization: the look
/// column is the eye-to-target offset `pos - target` itself, the right
/// column is perpendicular to it, and the up column is rebuilt
/// perpendicular to both.
pub open spec fn look_at_basis(pos: Vec3M, target: Vec3M, up_old: Vec3M) -> Mat3M {
    let look = sub3(pos, target);
    let right = cross(up_old, look);
    let up = cross(look, right);
    Mat3M { cx: right, cy: up, cz: look }
}

/// The cross product is perpendicular to both factors.
proof fn lemma_cross_perpendicular(a: Vec3M, b: Vec3M)
    ensures
        dot(cross(a, b), a) == 0,
        dot(cross(a, b), b) == 0,
{
    assert((a.y * b.z - a.z * b.y) * a.x + (a.z * b.x - a.x * b.z) * a.y + (a.x * b.y - a.y * b.x)
        * a.z == 0) by (nonlinear_arith);
    assert((a.y * b.z - a.z * b.y) * b.x + (a.z * b.x - a.x * b.z) * b.y + (a.x * b.y - a.y * b.x)
        * b.z == 0) by (nonlinear_arith);
}

/// After a look-at, the look column of the basis is the direction from
/// the target point to the eye: it is parallel to `pos - target` — their
/// cross product vanishes — and points the same way — their inner product
/// is the positive squared length whenever the two points differ. The
/// right and up columns are perpendicular to it.
pub proof fn lemma_look_at_aligns_look_column(pos: Vec3M, target: Vec3M, up_old: Vec3M)
    ensures
        cross(look_at_basis(pos, target, up_old).cz, sub3(pos, target)) == zero3(),
        sub3(pos, target) != zero3() ==> dot(
            look_at_basis(pos, target, up_old).cz,
            sub3(pos, target),
        ) > 0,
        dot(look_at_basis(pos, target, up_old).cx, look_at_basis(pos, target, up_old).cz) == 0,
        dot(look_at_basis(pos, target, up_old).cy, look_at_basis(pos, target, up_old).cz) == 0,
{
    let d = sub3(pos, target);
    assert(cross(d, d) == zero3()) by {
        assert(d.y * d.z - d.z * d.y == 0) by (nonlinear_arith);
        assert(d.z * d.x - d.x * d.z == 0) by (nonlinear_arith);
        assert(d.x * d.y - d.y * d.x == 0) by (nonlinear_arith);
    };
    if d != zero3() {
        assert(dot(d, d) > 0) by {
            assert(d.x != 0 || d.y != 0 || d.z != 0);
            assert(d.x * d.x + d.y * d.y + d.z * d.z > 0) by (nonlinear_arith)
                requires
                    d.x != 0 || d.y != 0 || d.z != 0,
            ;
        };
    }
    lemma_cross_perpendicular(up_old, d);
    lemma_dot_symmetric(cross(up_old, d), d);
    lemma_cross_perpendicular(d, cross(up_old, d));
    lemma_dot_symmetric(cross(d, cross(up_old, d)), d);
}

} // verus!
