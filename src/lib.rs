pub mod enums;
pub mod types;
pub mod states;
pub mod context;
#[allow(non_snake_case)]
pub mod renderer;
#[allow(non_snake_case)]
pub mod kori_ext;
