//! The verified core of a small 3D viewer: the state of its control panel,
//! the index lists of its meshes, and the decisions of its event loop.

pub mod mesh;
pub mod text;
pub mod ui;
pub mod viewer;
