pub mod nrom;
pub mod uxrom;
