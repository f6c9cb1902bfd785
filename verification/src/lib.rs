//! Fixed-width, multi-limb signed integers with bitwise AND.
//!
//! An [`Int`] holds the two's-complement bit pattern of a signed integer in a
//! [`Uint`], which is an array of `LIMBS` machine words ([`Limb`]), least
//! significant first. Every operation here is one pass over the limbs that
//! never branches on a limb's value.
pub mod ct_option;
pub mod signed;
pub mod limb;
pub mod uint;
pub mod value;
pub mod wrapping;

pub use ct_option::ConstCtOption;
pub use signed::{Int, I128, I256, I64};
pub use limb::Limb;
pub use uint::Uint;
pub use wrapping::Wrapping;
