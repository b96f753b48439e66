//! The values that Vulkan's command functions take.
//!
//! Structures have the fields of Vulkan's own, but for the extension chain, which
//! is always empty, and for pointers, in whose place the values themselves stand.
//! Masks and handles are plain integers. Numbers in floating point are given by
//! their bit patterns.
use crate::small::Small16;
use ash::vk as raw;
use vstd::prelude::*;

verus! {

/// The size that reaches to the end of a buffer.
pub const WHOLE_SIZE: u64 = 0xffff_ffff_ffff_ffff;

/// The queue family index that asks for no transfer of ownership.
pub const QUEUE_FAMILY_IGNORED: u32 = 0xffff_ffff;

/// The layer count that reaches to the last layer.
pub const REMAINING_ARRAY_LAYERS: u32 = 0xffff_ffff;

/// The colour aspect of an image.
pub const IMAGE_ASPECT_COLOR: u32 = 0x1;

/// The depth aspect of an image.
pub const IMAGE_ASPECT_DEPTH: u32 = 0x2;

/// The stencil aspect of an image.
pub const IMAGE_ASPECT_STENCIL: u32 = 0x4;

/// The stencil state of front faces.
pub const STENCIL_FACE_FRONT: u32 = 0x1;

/// The stencil state of back faces.
pub const STENCIL_FACE_BACK: u32 = 0x2;

/// The stencil state of front and back faces.
pub const STENCIL_FRONT_AND_BACK: u32 = 0x3;

/// The compute shader stage.
pub const SHADER_STAGE_COMPUTE: u32 = 0x20;

/// A query that counts exactly.
pub const QUERY_CONTROL_PRECISE: u32 = 0x1;

/// A reset that gives the memory of a command buffer back to its pool.
pub const COMMAND_BUFFER_RESET_RELEASE_RESOURCES: u32 = 0x1;

/// `VK_WHOLE_SIZE` of `ash`: claimed to be all ones in 64 bits.
#[verifier::external_body]
pub(crate) fn whole_size() -> (size: u64)
    ensures
        size == WHOLE_SIZE,
{
    raw::VK_WHOLE_SIZE
}

/// `VK_QUEUE_FAMILY_IGNORED` of `ash`: claimed to be all ones in 32 bits.
#[verifier::external_body]
pub(crate) fn queue_family_ignored() -> (index: u32)
    ensures
        index == QUEUE_FAMILY_IGNORED,
{
    raw::VK_QUEUE_FAMILY_IGNORED
}

/// `VK_REMAINING_ARRAY_LAYERS` of `ash`: claimed to be all ones in 32 bits.
#[verifier::external_body]
pub(crate) fn remaining_array_layers() -> (count: u32)
    ensures
        count == REMAINING_ARRAY_LAYERS,
{
    raw::VK_REMAINING_ARRAY_LAYERS
}

/// The bits of `IMAGE_ASPECT_COLOR_BIT` of `ash`: claimed to be the lowest.
#[verifier::external_body]
pub(crate) fn image_aspect_color() -> (bits: u32)
    ensures
        bits == IMAGE_ASPECT_COLOR,
{
    raw::IMAGE_ASPECT_COLOR_BIT.flags()
}

/// The bits of `IMAGE_ASPECT_DEPTH_BIT` of `ash`: claimed to be the second lowest.
#[verifier::external_body]
pub(crate) fn image_aspect_depth() -> (bits: u32)
    ensures
        bits == IMAGE_ASPECT_DEPTH,
{
    raw::IMAGE_ASPECT_DEPTH_BIT.flags()
}

/// The bits of `IMAGE_ASPECT_STENCIL_BIT` of `ash`: claimed to be the third
/// lowest.
#[verifier::external_body]
pub(crate) fn image_aspect_stencil() -> (bits: u32)
    ensures
        bits == IMAGE_ASPECT_STENCIL,
{
    raw::IMAGE_ASPECT_STENCIL_BIT.flags()
}

/// The bits of `STENCIL_FACE_FRONT_BIT` of `ash`: claimed to be the lowest.
#[verifier::external_body]
pub(crate) fn stencil_face_front() -> (bits: u32)
    ensures
        bits == STENCIL_FACE_FRONT,
{
    raw::STENCIL_FACE_FRONT_BIT.flags()
}

/// The bits of `STENCIL_FACE_BACK_BIT` of `ash`: claimed to be the second lowest.
#[verifier::external_body]
pub(crate) fn stencil_face_back() -> (bits: u32)
    ensures
        bits == STENCIL_FACE_BACK,
{
    raw::STENCIL_FACE_BACK_BIT.flags()
}

/// The bits of `STENCIL_FRONT_AND_BACK` of `ash`: claimed to be the two lowest.
#[verifier::external_body]
pub(crate) fn stencil_front_and_back() -> (bits: u32)
    ensures
        bits == STENCIL_FRONT_AND_BACK,
{
    raw::STENCIL_FRONT_AND_BACK.flags()
}

/// The bits of `SHADER_STAGE_COMPUTE_BIT` of `ash`: claimed to be the sixth
/// lowest.
#[verifier::external_body]
pub(crate) fn shader_stage_compute() -> (bits: u32)
    ensures
        bits == SHADER_STAGE_COMPUTE,
{
    raw::SHADER_STAGE_COMPUTE_BIT.flags()
}

/// The bits of `QUERY_CONTROL_PRECISE_BIT` of `ash`: claimed to be the lowest.
#[verifier::external_body]
pub(crate) fn query_control_precise() -> (bits: u32)
    ensures
        bits == QUERY_CONTROL_PRECISE,
{
    raw::QUERY_CONTROL_PRECISE_BIT.flags()
}

/// The bits of `COMMAND_BUFFER_RESET_RELEASE_RESOURCES_BIT` of `ash`: claimed to
/// be the lowest.
#[verifier::external_body]
pub(crate) fn command_buffer_reset_release_resources() -> (bits: u32)
    ensures
        bits == COMMAND_BUFFER_RESET_RELEASE_RESOURCES,
{
    raw::COMMAND_BUFFER_RESET_RELEASE_RESOURCES_BIT.flags()
}

/// The tag that tells Vulkan which structure it is handed.
#[derive(Clone, Copy, Debug, PartialEq, Eq)]
pub enum StructureType {
    CommandBufferBeginInfo,
    RenderPassBeginInfo,
    MemoryBarrier,
    BufferMemoryBarrier,
    ImageMemoryBarrier,
}

/// Where the commands of a subpass are recorded.
#[derive(Clone, Copy, Debug, PartialEq, Eq)]
pub enum SubpassContents {
    Inline,
    SecondaryCommandBuffers,
}

/// Which kind of pipeline a binding is for.
#[derive(Clone, Copy, Debug, PartialEq, Eq)]
pub enum PipelineBindPoint {
    Graphics,
    Compute,
}

/// The width of one index.
#[derive(Clone, Copy, Debug, PartialEq, Eq)]
pub enum IndexType {
    Uint16,
    Uint32,
}

/// How texels are sampled.
#[derive(Clone, Copy, Debug, PartialEq, Eq)]
pub enum Filter {
    Nearest,
    Linear,
}

/// How the texels of an image lie in memory.
#[derive(Clone, Copy, Debug, PartialEq, Eq)]
pub enum ImageLayout {
    Undefined,
    General,
    ColorAttachmentOptimal,
    DepthStencilAttachmentOptimal,
    DepthStencilReadOnlyOptimal,
    ShaderReadOnlyOptimal,
    TransferSrcOptimal,
    TransferDstOptimal,
    Preinitialized,
    PresentSrcKhr,
}

/// A position in the plane.
#[derive(Clone, Copy, Debug, PartialEq, Eq)]
pub struct Offset2D {
    pub x: i32,
    pub y: i32,
}

/// A size in the plane.
#[derive(Clone, Copy, Debug, PartialEq, Eq)]
pub struct Extent2D {
    pub width: u32,
    pub height: u32,
}

/// A rectangle.
#[derive(Clone, Copy, Debug, PartialEq, Eq)]
pub struct Rect2D {
    pub offset: Offset2D,
    pub extent: Extent2D,
}

/// A position in space.
#[derive(Clone, Copy, Debug, PartialEq, Eq)]
pub struct Offset3D {
    pub x: i32,
    pub y: i32,
    pub z: i32,
}

/// A size in space.
#[derive(Clone, Copy, Debug, PartialEq, Eq)]
pub struct Extent3D {
    pub width: u32,
    pub height: u32,
    pub depth: u32,
}

/// A viewport. Its place and size are whole numbers, which Vulkan takes in
/// floating point; its depths are bit patterns.
#[derive(Clone, Copy, Debug, PartialEq, Eq)]
pub struct Viewport {
    pub x: u16,
    pub y: u16,
    pub width: u16,
    pub height: u16,
    pub min_depth: u32,
    pub max_depth: u32,
}

/// Array layers of one mip level.
#[derive(Clone, Copy, Debug, PartialEq, Eq)]
pub struct ImageSubresourceLayers {
    pub aspect_mask: u32,
    pub mip_level: u32,
    pub base_array_layer: u32,
    pub layer_count: u32,
}

/// Array layers of several mip levels.
#[derive(Clone, Copy, Debug, PartialEq, Eq)]
pub struct ImageSubresourceRange {
    pub aspect_mask: u32,
    pub base_mip_level: u32,
    pub level_count: u32,
    pub base_array_layer: u32,
    pub layer_count: u32,
}

/// A clear colour: the four words of memory that hold its components.
#[derive(Clone, Copy, Debug, PartialEq, Eq)]
pub struct ClearColorValue {
    pub words: [u32; 4],
}

/// Depth and stencil to clear to.
#[derive(Clone, Copy, Debug, PartialEq, Eq)]
pub struct ClearDepthStencilValue {
    pub depth: u32,
    pub stencil: u32,
}

/// A clear value, by the member through which it was written. The colour member
/// covers all of its memory.
#[derive(Clone, Copy, Debug, PartialEq, Eq)]
pub enum ClearValue {
    Color(ClearColorValue),
    DepthStencil(ClearDepthStencilValue),
}

/// An attachment to clear.
#[derive(Clone, Copy, Debug, PartialEq, Eq)]
pub struct ClearAttachment {
    pub aspect_mask: u32,
    pub color_attachment: u32,
    pub clear_value: ClearValue,
}

/// Where in the layers of an attachment to clear.
#[derive(Clone, Copy, Debug, PartialEq, Eq)]
pub struct ClearRect {
    pub rect: Rect2D,
    pub base_array_layer: u32,
    pub layer_count: u32,
}

/// A dependency on all memory.
#[derive(Clone, Copy, Debug, PartialEq, Eq)]
pub struct MemoryBarrier {
    pub s_type: StructureType,
    pub src_access_mask: u32,
    pub dst_access_mask: u32,
}

/// A dependency on part of a buffer.
#[derive(Clone, Copy, Debug, PartialEq, Eq)]
pub struct BufferMemoryBarrier {
    pub s_type: StructureType,
    pub src_access_mask: u32,
    pub dst_access_mask: u32,
    pub src_queue_family_index: u32,
    pub dst_queue_family_index: u32,
    pub buffer: u64,
    pub offset: u64,
    pub size: u64,
}

/// A dependency on part of an image.
#[derive(Clone, Copy, Debug, PartialEq, Eq)]
pub struct ImageMemoryBarrier {
    pub s_type: StructureType,
    pub src_access_mask: u32,
    pub dst_access_mask: u32,
    pub old_layout: ImageLayout,
    pub new_layout: ImageLayout,
    pub src_queue_family_index: u32,
    pub dst_queue_family_index: u32,
    pub image: u64,
    pub subresource_range: ImageSubresourceRange,
}

/// Bytes to copy between buffers.
#[derive(Clone, Copy, Debug, PartialEq, Eq)]
pub struct BufferCopy {
    pub src_offset: u64,
    pub dst_offset: u64,
    pub size: u64,
}

/// Texels to copy between images.
#[derive(Clone, Copy, Debug, PartialEq, Eq)]
pub struct ImageCopy {
    pub src_subresource: ImageSubresourceLayers,
    pub src_offset: Offset3D,
    pub dst_subresource: ImageSubresourceLayers,
    pub dst_offset: Offset3D,
    pub extent: Extent3D,
}

/// Texels to resolve.
#[derive(Clone, Copy, Debug, PartialEq, Eq)]
pub struct ImageResolve {
    pub src_subresource: ImageSubresourceLayers,
    pub src_offset: Offset3D,
    pub dst_subresource: ImageSubresourceLayers,
    pub dst_offset: Offset3D,
    pub extent: Extent3D,
}

/// A box of texels to stretch into another, each by two of its corners.
#[derive(Clone, Copy, Debug, PartialEq, Eq)]
pub struct ImageBlit {
    pub src_subresource: ImageSubresourceLayers,
    pub src_offsets: [Offset3D; 2],
    pub dst_subresource: ImageSubresourceLayers,
    pub dst_offsets: [Offset3D; 2],
}

/// Texels to copy between a buffer and an image.
#[derive(Clone, Copy, Debug, PartialEq, Eq)]
pub struct BufferImageCopy {
    pub buffer_offset: u64,
    pub buffer_row_length: u32,
    pub buffer_image_height: u32,
    pub image_subresource: ImageSubresourceLayers,
    pub image_offset: Offset3D,
    pub image_extent: Extent3D,
}

/// How a command buffer is begun. It inherits nothing.
#[derive(Clone, Copy, Debug, PartialEq, Eq)]
pub struct CommandBufferBeginInfo {
    pub s_type: StructureType,
    pub flags: u32,
}

/// How a render pass is begun.
pub struct RenderPassBeginInfo {
    pub s_type: StructureType,
    pub render_pass: u64,
    pub framebuffer: u64,
    pub render_area: Rect2D,
    pub clear_value_count: u32,
    pub clear_values: Small16<ClearValue>,
}

} // verus!
