//! RGB colors with a phantom RGB standard and generic components: hex-code
//! parsing and formatting, packing into `u32` in any channel order, component
//! bounds, clamping and component-wise arithmetic on linear colors.

pub mod alpha;
pub mod cast;
pub mod channels;
pub mod convert;
pub mod encoding;
pub mod eq;
pub mod hex;
pub mod num;
pub mod ops;
pub mod random;
pub mod rgb;
pub mod stimulus;
pub mod traits;

pub use alpha::Alpha;
pub use encoding::{FromLinear, IntoLinear, Linear, LinearFn, RgbSpace, RgbStandard, Srgb};
pub use hex::FromHexError;
pub use rgb::{Rgb, Rgba};
pub use stimulus::{FromStimulus, Stimulus};
pub use traits::{Clamp, ClampAssign, IsWithinBounds};
