//! Atomically reference-counted handles whose allocation, once its last
//! handle is released, is handed to a pluggable disposal strategy.

mod arc;
mod disposal;
mod from_iter;
mod layout;
mod offset_arc;
mod uninit;

pub use backdrop::{LeakStrategy, ThreadStrategy, TrivialStrategy};
pub use arc::{Arc, ArcBorrow, ArcCloneIter, ArcInner, UniqueArc};
pub use disposal::{Disposal, Via};
pub use from_iter::{collect_items, exact_len, take_up_to};
pub use layout::{arc_inner_layout, header_and_slice_layout, Layout};
pub use offset_arc::OffsetArc;
pub use uninit::uninit_elements;
