//! Arithmetic in the prime field of order
//! `2^252 + 27742317777372353535851937790883648493`, represented on five
//! 52-bit limbs: codec, constant-time linear arithmetic, Montgomery
//! multiplication, binary-GCD inversion, Legendre symbol and square roots.

pub mod choice;
pub mod codec;
pub mod constants;
pub mod field;
pub mod generator;
pub mod invert;
pub mod laws;
pub mod lemmas;
pub mod model;
pub mod mul;
pub mod sqrt;

pub use choice::Choice;
pub use field::FieldElement;
