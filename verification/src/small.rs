//! Lists of values that stay on the stack while they are short.
//!
//! [`Small4`] and [`Small16`] hold a `SmallVec` of the `smallvec` crate with room
//! for four or sixteen items before it moves to the heap. What is in a list is
//! its view, a sequence. For each type of item a name stands for the contents of
//! a list of it, and [`Listed4`] and [`Listed16`] find the name by the type.
use crate::sealed::Sealed;
use crate::vk::{
    BufferCopy, BufferImageCopy, BufferMemoryBarrier, ClearAttachment, ClearRect, ClearValue,
    ImageBlit, ImageCopy, ImageMemoryBarrier, ImageResolve, MemoryBarrier, Rect2D, Viewport,
};
use smallvec::SmallVec;
use vstd::prelude::*;

verus! {

/// A list with room for four items on the stack.
#[verifier::external_body]
#[verifier::reject_recursive_types(T)]
pub struct Small4<T> {
    items: SmallVec<[T; 4]>,
}

/// A type of item that a [`Small4`] can hold. The implementations are those in
/// this file.
pub trait Listed4: Sized + Sealed {
    /// The items of a list, from first to last.
    spec fn contents(list: Small4<Self>) -> Seq<Self>;
}

impl<T: Listed4> View for Small4<T> {
    type V = Seq<T>;

    open spec fn view(&self) -> Seq<T> {
        T::contents(*self)
    }
}

impl<T: Listed4> Small4<T> {
    /// `SmallVec::push`: claimed to put the item behind the others, which stay as
    /// they are. A list too long for memory is not considered.
    #[verifier::external_body]
    pub(crate) fn push(&mut self, item: T)
        ensures
            final(self)@ == old(self)@.push(item),
    {
        self.items.push(item)
    }

    /// `SmallVec::as_slice`: claimed to give all items in their order.
    #[verifier::external_body]
    fn slice(&self) -> (items: &[T])
        ensures
            items@ == self@,
    {
        self.items.as_slice()
    }

    /// The items, from first to last.
    pub fn items(&self) -> (items: &[T])
        ensures
            items@ == self@,
    {
        self.slice()
    }
}

/// A list with room for sixteen items on the stack.
#[verifier::external_body]
#[verifier::reject_recursive_types(T)]
pub struct Small16<T> {
    items: SmallVec<[T; 16]>,
}

/// A type of item that a [`Small16`] can hold. The implementations are those in
/// this file.
pub trait Listed16: Sized + Sealed {
    /// The items of a list, from first to last.
    spec fn contents(list: Small16<Self>) -> Seq<Self>;
}

impl<T: Listed16> View for Small16<T> {
    type V = Seq<T>;

    open spec fn view(&self) -> Seq<T> {
        T::contents(*self)
    }
}

impl<T: Listed16> Small16<T> {
    /// `SmallVec::push`: claimed to put the item behind the others, which stay as
    /// they are. A list too long for memory is not considered.
    #[verifier::external_body]
    pub(crate) fn push(&mut self, item: T)
        ensures
            final(self)@ == old(self)@.push(item),
    {
        self.items.push(item)
    }

    /// `SmallVec::as_slice`: claimed to give all items in their order.
    #[verifier::external_body]
    fn slice(&self) -> (items: &[T])
        ensures
            items@ == self@,
    {
        self.items.as_slice()
    }

    /// The items, from first to last.
    pub fn items(&self) -> (items: &[T])
        ensures
            items@ == self@,
    {
        self.slice()
    }
}

/// The items of a list of memory barriers.
pub uninterp spec fn memory_barriers(list: Small4<MemoryBarrier>) -> Seq<MemoryBarrier>;

impl Listed4 for MemoryBarrier {
    open spec fn contents(list: Small4<MemoryBarrier>) -> Seq<MemoryBarrier> {
        memory_barriers(list)
    }
}

/// `SmallVec::new`, for memory barriers: claimed to give a list without items.
#[verifier::external_body]
pub(crate) fn no_memory_barriers() -> (list: Small4<MemoryBarrier>)
    ensures
        memory_barriers(list) == Seq::<MemoryBarrier>::empty(),
{
    Small4 { items: SmallVec::new() }
}

/// The items of a list of buffer barriers.
pub uninterp spec fn buffer_memory_barriers(
    list: Small4<BufferMemoryBarrier>,
) -> Seq<BufferMemoryBarrier>;

impl Listed4 for BufferMemoryBarrier {
    open spec fn contents(list: Small4<BufferMemoryBarrier>) -> Seq<BufferMemoryBarrier> {
        buffer_memory_barriers(list)
    }
}

/// `SmallVec::new`, for buffer barriers: claimed to give a list without items.
#[verifier::external_body]
pub(crate) fn no_buffer_memory_barriers() -> (list: Small4<BufferMemoryBarrier>)
    ensures
        buffer_memory_barriers(list) == Seq::<BufferMemoryBarrier>::empty(),
{
    Small4 { items: SmallVec::new() }
}

/// The items of a list of image barriers.
pub uninterp spec fn image_memory_barriers(
    list: Small4<ImageMemoryBarrier>,
) -> Seq<ImageMemoryBarrier>;

impl Listed4 for ImageMemoryBarrier {
    open spec fn contents(list: Small4<ImageMemoryBarrier>) -> Seq<ImageMemoryBarrier> {
        image_memory_barriers(list)
    }
}

/// `SmallVec::new`, for image barriers: claimed to give a list without items.
#[verifier::external_body]
pub(crate) fn no_image_memory_barriers() -> (list: Small4<ImageMemoryBarrier>)
    ensures
        image_memory_barriers(list) == Seq::<ImageMemoryBarrier>::empty(),
{
    Small4 { items: SmallVec::new() }
}

/// The items of a list of resolves.
pub uninterp spec fn image_resolves(list: Small4<ImageResolve>) -> Seq<ImageResolve>;

impl Listed4 for ImageResolve {
    open spec fn contents(list: Small4<ImageResolve>) -> Seq<ImageResolve> {
        image_resolves(list)
    }
}

/// `SmallVec::new`, for resolves: claimed to give a list without items.
#[verifier::external_body]
pub(crate) fn no_image_resolves() -> (list: Small4<ImageResolve>)
    ensures
        image_resolves(list) == Seq::<ImageResolve>::empty(),
{
    Small4 { items: SmallVec::new() }
}

/// The items of a list of blits.
pub uninterp spec fn image_blits(list: Small4<ImageBlit>) -> Seq<ImageBlit>;

impl Listed4 for ImageBlit {
    open spec fn contents(list: Small4<ImageBlit>) -> Seq<ImageBlit> {
        image_blits(list)
    }
}

/// `SmallVec::new`, for blits: claimed to give a list without items.
#[verifier::external_body]
pub(crate) fn no_image_blits() -> (list: Small4<ImageBlit>)
    ensures
        image_blits(list) == Seq::<ImageBlit>::empty(),
{
    Small4 { items: SmallVec::new() }
}

/// The items of a list of handles and offsets.
pub uninterp spec fn handles(list: Small16<u64>) -> Seq<u64>;

impl Listed16 for u64 {
    open spec fn contents(list: Small16<u64>) -> Seq<u64> {
        handles(list)
    }
}

/// `SmallVec::new`, for handles and offsets: claimed to give a list without items.
#[verifier::external_body]
pub(crate) fn no_handles() -> (list: Small16<u64>)
    ensures
        handles(list) == Seq::<u64>::empty(),
{
    Small16 { items: SmallVec::new() }
}

/// The items of a list of clear values.
pub uninterp spec fn clear_values(list: Small16<ClearValue>) -> Seq<ClearValue>;

impl Listed16 for ClearValue {
    open spec fn contents(list: Small16<ClearValue>) -> Seq<ClearValue> {
        clear_values(list)
    }
}

/// `SmallVec::new`, for clear values: claimed to give a list without items.
#[verifier::external_body]
pub(crate) fn no_clear_values() -> (list: Small16<ClearValue>)
    ensures
        clear_values(list) == Seq::<ClearValue>::empty(),
{
    Small16 { items: SmallVec::new() }
}

/// The items of a list of attachments to clear.
pub uninterp spec fn clear_attachments(list: Small16<ClearAttachment>) -> Seq<ClearAttachment>;

impl Listed16 for ClearAttachment {
    open spec fn contents(list: Small16<ClearAttachment>) -> Seq<ClearAttachment> {
        clear_attachments(list)
    }
}

/// `SmallVec::new`, for attachments to clear: claimed to give a list without items.
#[verifier::external_body]
pub(crate) fn no_clear_attachments() -> (list: Small16<ClearAttachment>)
    ensures
        clear_attachments(list) == Seq::<ClearAttachment>::empty(),
{
    Small16 { items: SmallVec::new() }
}

/// The items of a list of rectangles to clear.
pub uninterp spec fn clear_rects(list: Small16<ClearRect>) -> Seq<ClearRect>;

impl Listed16 for ClearRect {
    open spec fn contents(list: Small16<ClearRect>) -> Seq<ClearRect> {
        clear_rects(list)
    }
}

/// `SmallVec::new`, for rectangles to clear: claimed to give a list without items.
#[verifier::external_body]
pub(crate) fn no_clear_rects() -> (list: Small16<ClearRect>)
    ensures
        clear_rects(list) == Seq::<ClearRect>::empty(),
{
    Small16 { items: SmallVec::new() }
}

/// The items of a list of copies between a buffer and an image.
pub uninterp spec fn buffer_image_copies(list: Small16<BufferImageCopy>) -> Seq<BufferImageCopy>;

impl Listed16 for BufferImageCopy {
    open spec fn contents(list: Small16<BufferImageCopy>) -> Seq<BufferImageCopy> {
        buffer_image_copies(list)
    }
}

/// `SmallVec::new`, for copies between a buffer and an image: claimed to give a list without items.
#[verifier::external_body]
pub(crate) fn no_buffer_image_copies() -> (list: Small16<BufferImageCopy>)
    ensures
        buffer_image_copies(list) == Seq::<BufferImageCopy>::empty(),
{
    Small16 { items: SmallVec::new() }
}

/// The items of a list of viewports.
pub uninterp spec fn viewports(list: Small16<Viewport>) -> Seq<Viewport>;

impl Listed16 for Viewport {
    open spec fn contents(list: Small16<Viewport>) -> Seq<Viewport> {
        viewports(list)
    }
}

/// `SmallVec::new`, for viewports: claimed to give a list without items.
#[verifier::external_body]
pub(crate) fn no_viewports() -> (list: Small16<Viewport>)
    ensures
        viewports(list) == Seq::<Viewport>::empty(),
{
    Small16 { items: SmallVec::new() }
}

/// The items of a list of rectangles.
pub uninterp spec fn rects(list: Small16<Rect2D>) -> Seq<Rect2D>;

impl Listed16 for Rect2D {
    open spec fn contents(list: Small16<Rect2D>) -> Seq<Rect2D> {
        rects(list)
    }
}

/// `SmallVec::new`, for rectangles: claimed to give a list without items.
#[verifier::external_body]
pub(crate) fn no_rects() -> (list: Small16<Rect2D>)
    ensures
        rects(list) == Seq::<Rect2D>::empty(),
{
    Small16 { items: SmallVec::new() }
}

/// The items of a list of copies between buffers.
pub uninterp spec fn buffer_copies(list: Small16<BufferCopy>) -> Seq<BufferCopy>;

impl Listed16 for BufferCopy {
    open spec fn contents(list: Small16<BufferCopy>) -> Seq<BufferCopy> {
        buffer_copies(list)
    }
}

/// `SmallVec::new`, for copies between buffers: claimed to give a list without items.
#[verifier::external_body]
pub(crate) fn no_buffer_copies() -> (list: Small16<BufferCopy>)
    ensures
        buffer_copies(list) == Seq::<BufferCopy>::empty(),
{
    Small16 { items: SmallVec::new() }
}

/// The items of a list of copies between images.
pub uninterp spec fn image_copies(list: Small16<ImageCopy>) -> Seq<ImageCopy>;

impl Listed16 for ImageCopy {
    open spec fn contents(list: Small16<ImageCopy>) -> Seq<ImageCopy> {
        image_copies(list)
    }
}

/// `SmallVec::new`, for copies between images: claimed to give a list without items.
#[verifier::external_body]
pub(crate) fn no_image_copies() -> (list: Small16<ImageCopy>)
    ensures
        image_copies(list) == Seq::<ImageCopy>::empty(),
{
    Small16 { items: SmallVec::new() }
}

} // verus!
