pub mod night_light;
pub mod shader;
pub mod vibrance;
