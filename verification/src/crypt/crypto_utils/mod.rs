pub mod dh;
pub mod hkdf;
pub mod random;
pub mod sign;
