pub mod vec2;
pub mod vec3;
pub mod vec4;
