pub mod direction;
pub mod position;
pub mod chunk;
pub mod vertex;
pub mod mesh_data;
pub mod voxel_geometry;
pub mod voxel_mesh_builder;
pub mod vox_loader;
pub mod tree;
pub mod vec_tree;
