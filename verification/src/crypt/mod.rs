pub mod crypto_utils;
pub mod x3dh;
