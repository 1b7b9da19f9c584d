//! Planning core of a GPU-resident particle and trail-field simulation.

pub mod builders;
pub mod dispatch;
pub mod error;
pub mod field;
pub mod frame;
pub mod geometry;
pub mod laws;
pub mod limits;
pub mod params;
pub mod particles;
pub mod render;
pub mod resources;
pub mod seeding;
pub mod state;
pub mod vertex;
