//! Geometry for drawing a single cube: vectors of three scalars, the model,
//! view and projection matrices, the cube mesh itself, the location of the
//! shader sources, and the rule that ends the frame loop.
//!
//! Vectors, matrices and the mesh are generic in the scalar type. What their
//! contracts promise of a given type is said in `scalar`.

pub mod frame;
pub mod matrix;
pub mod mesh;
pub mod scalar;
pub mod shader;
pub mod vector;
