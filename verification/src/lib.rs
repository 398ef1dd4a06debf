//! Exact arithmetic in the prime field of 382 bits that serves as the base
//! field of the BN-382 pairing curve.
//!
//! Field elements are kept as six 64-bit limbs holding the canonical
//! representative in `[0, modulus)`. Every operation carries a contract over
//! that representative, viewed as a natural number.
//!
//! The operations are in `bn_382_fq`, the laws that they obey in `laws`. That
//! the modulus is prime is proved in `certificate`, from the theory of
//! `pocklington`; with it every element but zero has an inverse, and Euler's
//! criterion tells the squares.

pub mod bigint_384;
pub mod bn_382_fq;
pub mod certificate;
pub mod decimal;
pub mod error;
pub mod fermat;
pub mod field;
pub mod inverse;
pub mod laws;
pub mod limbs;
pub mod modular;
pub mod order;
pub mod params;
pub mod pocklington;
pub mod power;
pub mod primality;
pub mod random;
pub mod roots;
pub mod sqrt;

