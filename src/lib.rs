pub mod ordering;
pub mod slot;
pub mod metadata;
pub mod value;

pub use value::RefCnt;
