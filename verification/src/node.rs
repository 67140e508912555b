//! Scene nodes: the positional state owners of drawables.
//!
//! A node's transform matrix is the single source of truth: position is
//! column `w` and scale is the diagonal, and the accessors read and write
//! those cells directly.  The model supports axis-aligned scale and
//! translation only; no rotation ever enters a node transform.
//!
//! Every mutator raises the node's `values_changed` dirty flag; renderers
//! acknowledge it with a read-and-clear operation before re-uploading
//! geometry.

use vstd::prelude::*;

use crate::scalar::Scalar;
use crate::types::Mat4;
use crate::types::Rect;
use crate::types::ToVec2f;
use crate::types::ToVec3f;
use crate::types::Translatable;
use crate::types::Vector2;
use crate::types::Vector3;
use crate::types::Vector4;

verus! {

/// Positional state of a planar node: a transform matrix plus the dirty
/// flag that marks it as touched since the last acknowledgement.
#[derive(Clone, Copy, Debug, PartialEq, Eq, Structural)]
pub struct NodeObject2D {
    pub trans: Mat4,
    pub values_changed: bool,
}

impl NodeObject2D {
    pub open spec fn wf(self) -> bool {
        self.trans.wf()
    }

    /// The position held in the translation column.
    pub open spec fn spec_pos(self) -> Vector2 {
        Vector2 { x: self.trans.w.x, y: self.trans.w.y }
    }

    /// The scale held on the matrix diagonal.
    pub open spec fn spec_scale(self) -> Vector2 {
        Vector2 { x: self.trans.x.x, y: self.trans.y.y }
    }

    /// The node after `set_pos`: translation replaced (plane position,
    /// depth reset to zero) and the dirty flag raised.
    pub open spec fn spec_set_pos(self, pos: Vector2) -> NodeObject2D {
        NodeObject2D {
            trans: self.trans.spec_with_translation(
                Vector3 { x: pos.x, y: pos.y, z: Scalar::spec_zero() },
            ),
            values_changed: true,
        }
    }

    /// The node after `set_scale`: diagonal replaced (depth scale reset to
    /// zero, as the planar widening carries `z = 0`) and the flag raised.
    pub open spec fn spec_set_scale(self, scale: Vector2) -> NodeObject2D {
        NodeObject2D {
            trans: self.trans.spec_with_scale(
                Vector3 { x: scale.x, y: scale.y, z: Scalar::spec_zero() },
            ),
            values_changed: true,
        }
    }

    /// The node after `set_trans`: matrix replaced, flag raised.
    pub open spec fn spec_set_trans(self, trans: Mat4) -> NodeObject2D {
        NodeObject2D { trans, values_changed: true }
    }

    /// The node after its dirty flag was acknowledged.
    pub open spec fn spec_acknowledged(self) -> NodeObject2D {
        NodeObject2D { values_changed: false, ..self }
    }

    pub fn new() -> (r: NodeObject2D)
        ensures
            r == (NodeObject2D { trans: Mat4::spec_identity(), values_changed: false }),
    {
        NodeObject2D { trans: Mat4::identity(), values_changed: false }
    }

    pub fn from(trans: Mat4) -> (r: NodeObject2D)
        ensures
            r == (NodeObject2D { trans, values_changed: false }),
    {
        NodeObject2D { trans, values_changed: false }
    }

    pub fn pos_and_scale(pos: Vector2, scale: Vector2) -> (r: NodeObject2D)
        ensures
            r == (NodeObject2D {
                trans: Mat4::spec_identity().spec_with_translation(
                    Vector3 { x: pos.x, y: pos.y, z: Scalar::spec_zero() },
                ).spec_with_scale(Vector3 { x: scale.x, y: scale.y, z: Scalar::spec_zero() }),
                values_changed: false,
            }),
    {
        let mut trans: Mat4 = Mat4::identity();
        trans.set_translation(pos.to_vec3());
        trans.set_scale(scale.to_vec3());
        NodeObject2D { trans, values_changed: false }
    }

    pub fn set_pos(&mut self, pos: Vector2)
        ensures
            *final(self) == old(self).spec_set_pos(pos),
    {
        self.trans.set_translation(pos.to_vec3());
        self.values_changed = true;
    }

    pub fn get_pos(&self) -> (r: Vector2)
        ensures
            r == self.spec_pos(),
    {
        self.trans.get_translation().to_vec2()
    }

    pub fn set_scale(&mut self, scale: Vector2)
        ensures
            *final(self) == old(self).spec_set_scale(scale),
    {
        self.trans.set_scale(scale.to_vec3());
        self.values_changed = true;
    }

    pub fn get_scale(&self) -> (r: Vector2)
        ensures
            r == self.spec_scale(),
    {
        self.trans.get_scale().to_vec2()
    }

    pub fn set_trans(&mut self, trans: Mat4)
        ensures
            *final(self) == old(self).spec_set_trans(trans),
    {
        self.trans = trans;
        self.values_changed = true;
    }

    pub fn get_trans(&self) -> (r: Mat4)
        ensures
            r == self.trans,
    {
        self.trans
    }

    /// Read-and-clear acknowledgement of the dirty flag.
    pub fn acknowledge_changed(&mut self) -> (changed: bool)
        ensures
            changed == old(self).values_changed,
            *final(self) == old(self).spec_acknowledged(),
    {
        let changed: bool = self.values_changed;
        self.values_changed = false;
        changed
    }
}

/// Setting a position and reading it back returns exactly that position,
/// whatever transform or scale the node held before.
pub proof fn lemma_set_pos_get_pos(node: NodeObject2D, pos: Vector2)
    ensures
        node.spec_set_pos(pos).spec_pos() == pos,
{
}

/// Acknowledging the dirty flag twice in a row reports the flag once: the
/// first read returns its value, the second always returns false.
pub proof fn lemma_acknowledge_idempotent(node: NodeObject2D)
    ensures
        node.spec_acknowledged().spec_acknowledged() == node.spec_acknowledged(),
        !node.spec_acknowledged().values_changed,
{
}

/// Every mutation of a node raises the dirty flag.
pub proof fn lemma_mutations_raise_flag(node: NodeObject2D, pos: Vector2, scale: Vector2, trans: Mat4)
    ensures
        node.spec_set_pos(pos).values_changed,
        node.spec_set_scale(scale).values_changed,
        node.spec_set_trans(trans).values_changed,
{
}

/// Behaviour shared by planar nodes: a drawable exposes its node object
/// and inherits the positional accessors from it.
pub trait Node2D: Sized {
    /// The node object owned by this value.
    spec fn nview(&self) -> NodeObject2D;

    /// This value with its node object replaced and all else unchanged.
    spec fn with_nview(self, node: NodeObject2D) -> Self;

    fn get_node_obj(&self) -> (r: &NodeObject2D)
        ensures
            *r == self.nview(),
    ;

    fn get_node_obj_mut(&mut self) -> (r: &mut NodeObject2D)
        ensures
            *r == old(self).nview(),
            *final(self) == old(self).with_nview(*final(r)),
    ;

    fn set_pos(&mut self, pos: Vector2)
        ensures
            *final(self) == old(self).with_nview(old(self).nview().spec_set_pos(pos)),
    ;

    fn get_pos(&self) -> (r: Vector2)
        ensures
            r == self.nview().spec_pos(),
    ;

    fn set_scale(&mut self, scale: Vector2)
        ensures
            *final(self) == old(self).with_nview(old(self).nview().spec_set_scale(scale)),
    ;

    fn get_scale(&self) -> (r: Vector2)
        ensures
            r == self.nview().spec_scale(),
    ;

    fn set_trans(&mut self, trans: Mat4)
        ensures
            *final(self) == old(self).with_nview(old(self).nview().spec_set_trans(trans)),
    ;

    fn get_trans(&self) -> (r: Mat4)
        ensures
            r == self.nview().trans,
    ;
}

/// A planar node with an intrinsic size (say, texture pixel dimensions);
/// the displayed size is the intrinsic size times the node's scale, and
/// setting a size solves for the scale.
pub trait SizedNode2D: Node2D {
    /// The intrinsic size supplied by the concrete drawable.
    spec fn fixed_size_of(&self) -> Vector2;

    fn get_fixed_size(&self) -> (r: Vector2)
        ensures
            r == self.fixed_size_of(),
    ;

    /// Solves `scale = size / fixed` and stores the scale.  An intrinsic
    /// size of zero on either axis admits no scale and is excluded.
    fn set_size(&mut self, size: Vector2)
        requires
            size.wf(),
            old(self).fixed_size_of().wf(),
            old(self).fixed_size_of().x.num != 0,
            old(self).fixed_size_of().y.num != 0,
            size.x.div_ok(old(self).fixed_size_of().x),
            size.y.div_ok(old(self).fixed_size_of().y),
        ensures
            *final(self) == old(self).with_nview(
                old(self).nview().spec_set_scale(
                    Vector2 {
                        x: size.x.spec_div(old(self).fixed_size_of().x),
                        y: size.y.spec_div(old(self).fixed_size_of().y),
                    },
                ),
            ),
    {
        let fs: Vector2 = self.get_fixed_size();
        self.set_scale(Vector2 { x: size.x.div(fs.x), y: size.y.div(fs.y) });
    }

    fn get_size(&self) -> (r: Vector2)
        requires
            self.fixed_size_of().wf(),
            self.nview().spec_scale().wf(),
            self.fixed_size_of().x.mul_ok(self.nview().spec_scale().x),
            self.fixed_size_of().y.mul_ok(self.nview().spec_scale().y),
        ensures
            r == (Vector2 {
                x: self.fixed_size_of().x.spec_mul(self.nview().spec_scale().x),
                y: self.fixed_size_of().y.spec_mul(self.nview().spec_scale().y),
            }),
            r.wf(),
    {
        let fs: Vector2 = self.get_fixed_size();
        let sc: Vector2 = self.get_scale();
        Vector2 { x: fs.x.mul(sc.x), y: fs.y.mul(sc.y) }
    }

    fn get_rect(&self) -> (r: Rect)
        requires
            self.fixed_size_of().wf(),
            self.nview().spec_scale().wf(),
            self.fixed_size_of().x.mul_ok(self.nview().spec_scale().x),
            self.fixed_size_of().y.mul_ok(self.nview().spec_scale().y),
        ensures
            r == (Rect {
                x: self.nview().spec_pos().x,
                y: self.nview().spec_pos().y,
                width: self.fixed_size_of().x.spec_mul(self.nview().spec_scale().x),
                height: self.fixed_size_of().y.spec_mul(self.nview().spec_scale().y),
            }),
            r.width.wf(),
            r.height.wf(),
    {
        let pos: Vector2 = self.get_pos();
        let size: Vector2 = self.get_size();
        Rect { x: pos.x, y: pos.y, width: size.x, height: size.y }
    }
}

/// Setting a size and reading it back yields that size as a value: for a
/// nonzero intrinsic size `fixed`, `fixed * (size / fixed)` equals `size`.
pub proof fn lemma_set_size_get_size(fixed: Vector2, size: Vector2)
    requires
        size.wf(),
        fixed.wf(),
        fixed.x.num != 0,
        fixed.y.num != 0,
        size.x.div_ok(fixed.x),
        size.y.div_ok(fixed.y),
        fixed.x.mul_ok(size.x.spec_div(fixed.x)),
        fixed.y.mul_ok(size.y.spec_div(fixed.y)),
    ensures
        fixed.x.spec_mul(size.x.spec_div(fixed.x)).eq_val(size.x),
        fixed.y.spec_mul(size.y.spec_div(fixed.y)).eq_val(size.y),
{
    lemma_scale_roundtrip(fixed.x, size.x);
    lemma_scale_roundtrip(fixed.y, size.y);
}

/// One axis of the size round trip: `fixed * (size / fixed)` equals
/// `size` as a rational value.
proof fn lemma_scale_roundtrip(fixed: Scalar, size: Scalar)
    requires
        size.wf(),
        fixed.wf(),
        fixed.num != 0,
        size.div_ok(fixed),
        fixed.mul_ok(size.spec_div(fixed)),
    ensures
        fixed.spec_mul(size.spec_div(fixed)).eq_val(size),
{
    let q = size.spec_div(fixed);
    if fixed.num >= 0 {
        assert(q.num == size.num * fixed.den && q.den == size.den * fixed.num);
        assert((fixed.num * (size.num * fixed.den)) * size.den == size.num * (fixed.den * (
        size.den * fixed.num))) by (nonlinear_arith);
    } else {
        assert(q.num == -(size.num * fixed.den) && q.den == -(size.den * fixed.num));
        assert((fixed.num * -(size.num * fixed.den)) * size.den == size.num * (fixed.den * -(
        size.den * fixed.num))) by (nonlinear_arith);
    }
}

/// Positional state of a spatial node; the transform matrix is again the
/// single source of truth.
#[derive(Clone, Copy, Debug, PartialEq, Eq, Structural)]
pub struct NodeObject3D {
    pub trans: Mat4,
}

impl NodeObject3D {
    pub open spec fn wf(self) -> bool {
        self.trans.wf()
    }

    pub open spec fn spec_pos(self) -> Vector3 {
        Vector3 { x: self.trans.w.x, y: self.trans.w.y, z: self.trans.w.z }
    }

    pub open spec fn spec_scale(self) -> Vector3 {
        Vector3 { x: self.trans.x.x, y: self.trans.y.y, z: self.trans.z.z }
    }

    pub fn new() -> (r: NodeObject3D)
        ensures
            r == (NodeObject3D { trans: Mat4::spec_identity() }),
    {
        NodeObject3D { trans: Mat4::identity() }
    }

    pub fn set_pos(&mut self, pos: Vector3)
        ensures
            *final(self) == (NodeObject3D { trans: old(self).trans.spec_with_translation(pos) }),
    {
        self.trans.set_translation(pos);
    }

    pub fn get_pos(&self) -> (r: Vector3)
        ensures
            r == self.spec_pos(),
    {
        self.trans.get_translation()
    }

    pub fn set_scale(&mut self, scale: Vector3)
        ensures
            *final(self) == (NodeObject3D { trans: old(self).trans.spec_with_scale(scale) }),
    {
        self.trans.set_scale(scale);
    }

    pub fn get_scale(&self) -> (r: Vector3)
        ensures
            r == self.spec_scale(),
    {
        self.trans.get_scale()
    }

    pub fn set_trans(&mut self, trans: Mat4)
        ensures
            *final(self) == (NodeObject3D { trans }),
    {
        self.trans = trans;
    }

    pub fn get_trans(&self) -> (r: Mat4)
        ensures
            r == self.trans,
    {
        self.trans
    }
}

/// Setting a spatial position and reading it back returns exactly that
/// position, whatever the node held before.
pub proof fn lemma_set_pos_get_pos_3d(node: NodeObject3D, pos: Vector3)
    ensures
        (NodeObject3D { trans: node.trans.spec_with_translation(pos) }).spec_pos() == pos,
{
}

/// Behaviour shared by spatial nodes.
pub trait Node3D: Sized {
    /// The node object owned by this value.
    spec fn nview3(&self) -> NodeObject3D;

    /// This value with its node object replaced and all else unchanged.
    spec fn with_nview3(self, node: NodeObject3D) -> Self;

    fn get_node_obj(&self) -> (r: &NodeObject3D)
        ensures
            *r == self.nview3(),
    ;

    fn get_node_obj_mut(&mut self) -> (r: &mut NodeObject3D)
        ensures
            *r == old(self).nview3(),
            *final(self) == old(self).with_nview3(*final(r)),
    ;

    fn set_pos(&mut self, pos: Vector3)
        ensures
            *final(self) == old(self).with_nview3(
                NodeObject3D { trans: old(self).nview3().trans.spec_with_translation(pos) },
            ),
    {
        self.get_node_obj_mut().set_pos(pos);
    }

    fn get_pos(&self) -> (r: Vector3)
        ensures
            r == self.nview3().spec_pos(),
    {
        self.get_node_obj().get_pos()
    }

    fn set_scale(&mut self, scale: Vector3)
        ensures
            *final(self) == old(self).with_nview3(
                NodeObject3D { trans: old(self).nview3().trans.spec_with_scale(scale) },
            ),
    {
        self.get_node_obj_mut().set_scale(scale);
    }

    fn get_scale(&self) -> (r: Vector3)
        ensures
            r == self.nview3().spec_scale(),
    {
        self.get_node_obj().get_scale()
    }

    fn set_trans(&mut self, trans: Mat4)
        ensures
            *final(self) == old(self).with_nview3(NodeObject3D { trans }),
    {
        self.get_node_obj_mut().set_trans(trans);
    }

    fn get_trans(&self) -> (r: Mat4)
        ensures
            r == self.nview3().trans,
    {
        self.get_node_obj().get_trans()
    }
}

} // verus!
