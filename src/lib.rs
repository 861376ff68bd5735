//! Native-side support for code that is called from, and calls back into, a
//! managed host runtime: handle caches for resolved classes and members, the
//! type-descriptor encoder, integer handles for native objects, and the
//! settlement of a boundary call that failed.

mod boundary;
mod cache;
mod error;
mod point;
mod resolve;
mod signature;
mod text;



pub use error::{throw, SpError};

pub use text::replace_char;
pub use cache::{HandleCache, HandleKind, Registry, CACHE_CAPACITY};
pub use resolve::{
    ClassKey, ClassStep, FieldKey, InitStep, MethodKey, SpClass, SpField, SpMethod, SpStaticField,
    SpStaticMethod, StaticFieldKey, StaticMethodKey,
};
pub use signature::{method_signature, SpType};
pub use point::{to_ptr, to_status, to_status_replace, to_status_use, Point, PointStore, ToJavaPoint};
pub use boundary::{exported_symbol, settle, BodyOutcome, BoundaryExit, PanicPayload};
