//! Resolution of mobile-app CI workflow templates.
//!
//! A [`State`] holds the user's choice of CI platform, app SDK and build
//! type, plus a few optional inputs. [`State::gen_templates`] picks the
//! workflow template and the optional info template for that choice, binds
//! their parameters and hands them to a renderer; [`State::clear_text`]
//! resets the generated text.
pub mod choice;
pub mod variant;
pub mod state;
pub mod laws;

pub use choice::{BuildType, Platform, PublishingFormat, Sdk};
pub use variant::{resolve_code, resolve_info, CodeVariant, InfoVariant};
pub use state::{CodeRender, CustomInputs, InfoRender, State};
