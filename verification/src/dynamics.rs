pub mod acceleration;
pub mod collision;
pub mod velocity;
