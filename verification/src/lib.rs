pub mod conf;
pub mod icons;
pub mod result;
pub mod search;
