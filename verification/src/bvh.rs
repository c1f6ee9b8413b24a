//! A node of a tree of boxes over the spheres of a scene.

use crate::aabb::Aabb;
use vstd::prelude::*;

verus! {

/// A node with the children it has, the sphere it stands for and the box
/// around all that lies below it. A leaf has no children.
pub struct BvhNode {
    pub left: Option<Box<BvhNode>>,
    pub right: Option<Box<BvhNode>>,
    pub object_index: usize,
    pub bounding_box: Aabb,
}

} // verus!
