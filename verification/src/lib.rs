//! A declarative GUI description engine.
//!
//! A serializable tree of [`Widget`] records describes a user
//! interface.  The engine resolves each node's type tag against a
//! closed registry, applies every attribute that the resolved kind's
//! capabilities support, and recurses into the children in document
//! order, producing a construction plan that a thin toolkit boundary
//! realizes as live widgets.  A reload controller keeps the realized
//! hierarchy synchronized with the description as it changes.

pub mod dispatch;
pub mod frames;
pub mod kinds;
pub mod laws;
pub mod model;
pub mod parse;
pub mod reload;

pub use dispatch::find_by_id;
pub use dispatch::label_of;
pub use dispatch::transform;
pub use dispatch::Attr;
pub use dispatch::BuiltWidget;
pub use frames::get_frame;
pub use kinds::kind_of_tag;
pub use kinds::WidgetKind;
pub use model::Decimal;
pub use model::Widget;
pub use reload::FileEvent;
pub use reload::Reloader;
