//! Exact computational-geometry primitives: a closed one-dimensional
//! interval, an axis-aligned rectangle built from two intervals, and
//! Euclidean vector types, all over an exact rational scalar so that
//! every comparison and every closed-form bound is provable.

pub mod interval;
pub mod point;
pub mod rat;
pub mod rect;
pub mod render;
pub mod vector;

pub use interval::Interval;
pub use interval::empty_interval;
pub use interval::interval_from_point;
pub use point::Point;
pub use rat::Rat;
pub use rect::Rect;
pub use rect::empty_rect;
pub use rect::rect_from_center_size;
pub use rect::rect_from_points;
pub use vector::Axis;
pub use vector::Vector;
