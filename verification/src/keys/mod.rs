pub use crate::structs::keys::PrivateKeys;
