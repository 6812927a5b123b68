//! The items that most callers need.

pub use crate::text::BillboardTextBounds;
pub use crate::{BillboardDepth, BillboardLockAxis, BillboardMesh, BillboardText, BillboardTexture};
