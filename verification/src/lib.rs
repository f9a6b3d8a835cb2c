//! State and update rules of form inputs that edit bound values.
//!
//! Each input is a state object. Its handlers take what an event carries and
//! return what is to be written to the binding, if anything; the host performs
//! the write.

pub mod binding;
pub mod byproduct;
pub mod decimal;
pub mod enum_input;
pub mod feedstock;
pub mod image;
pub mod multi_enum;
pub mod multi_numeric;
pub mod numeric;
pub mod optional_numeric;
pub mod output;
pub mod resource;
pub mod text;
pub mod toggle;
pub mod variants;

pub use crate::binding::ValueBinding;
pub use crate::byproduct::{Byproduct, ByproductMap, ByproductMapInput};
pub use crate::decimal::Numeric;
pub use crate::enum_input::EnumInput;
pub use crate::feedstock::{Feedstock, FeedstockMap, FeedstockMapInput};
pub use crate::image::{image_src, Image, ImageData, ImageInput, PendingRead};
pub use crate::multi_enum::MultiEnumInput;
pub use crate::multi_numeric::MultiNumericInput;
pub use crate::numeric::NumericInput;
pub use crate::optional_numeric::OptionalNumericInput;
pub use crate::output::{Output, OutputMap, OutputMapInput};
pub use crate::resource::{Resource, ResourceMap, ResourceMapInput};
pub use crate::text::TextInput;
pub use crate::toggle::ToggleInput;
pub use crate::variants::{Describe, Variants};
