use rbrt_core::mipmap::wrap_texel;
use rbrt_core::mipmap::ImageWrap;
use rbrt_core::octree::octree_child_index;
use rbrt_core::octree::OctNode;

#[test]
fn repeat_wrap_tiles_the_axis() {
    assert_eq!(wrap_texel(ImageWrap::Repeat, 37, 16), Some(5));
    assert_eq!(wrap_texel(ImageWrap::Repeat, 5, 16), Some(5));
}

#[test]
fn clamp_wrap_pins_to_the_border() {
    assert_eq!(wrap_texel(ImageWrap::Clamp, 37, 16), Some(15));
    assert_eq!(wrap_texel(ImageWrap::Clamp, 5, 16), Some(5));
}

#[test]
fn black_wrap_drops_out_of_range_texels() {
    assert_eq!(wrap_texel(ImageWrap::Black, 5, 16), Some(5));
    assert_eq!(wrap_texel(ImageWrap::Black, 16, 16), None);
}

#[test]
fn new_node_is_an_empty_leaf() {
    let node: OctNode<u32> = OctNode::new();
    assert_eq!(node.children.len(), 8);
    assert!(node.children.iter().all(|c| c.is_none()));
    assert!(node.data.is_empty());
}

#[test]
fn child_index_encodes_the_three_axes() {
    assert_eq!(octree_child_index(false, false, false), 0);
    assert_eq!(octree_child_index(false, false, true), 1);
    assert_eq!(octree_child_index(false, true, false), 2);
    assert_eq!(octree_child_index(false, true, true), 3);
    assert_eq!(octree_child_index(true, false, false), 4);
    assert_eq!(octree_child_index(true, false, true), 5);
    assert_eq!(octree_child_index(true, true, false), 6);
    assert_eq!(octree_child_index(true, true, true), 7);
}
