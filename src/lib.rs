//! Host-side plugin framework: capability bits, layout fingerprints, the
//! load sequence, feature objects, and the decisions of the bundled plugins.
pub mod api_traits;
pub mod error;
pub mod feature;
pub mod headers;
pub mod int_result;
pub mod key_types;
pub mod kmbox;
pub mod layout;
pub mod loader;
pub mod native;
pub mod qmp;
pub mod text;

pub use api_traits::{KeyboardWriter, Loadable, MouseWriter, Plugin, PluginInner};
pub use error::{InputFlowError, Result};
pub use feature::{BorrowedFeatures, LibraryHandle, OwnedFeatures, PluginBox};
pub use headers::{FeatureSupport, PluginHeader};
pub use key_types::{KeyboardKey, MouseButton};
pub use layout::{FieldKind, FieldLayout, TypeLayout};
pub use loader::{LoadAction, LoadEvent, LoadSession, LoadStage};
