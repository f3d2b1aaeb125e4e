//! An AES engine: the key schedule, the round transforms, and the CBC, CTR and
//! GCM modes of operation, with their behaviour stated as contracts.
pub mod aes;
pub mod aes256cbc;
pub mod key;
pub mod utils;
