//! Handle types and binding protocol for a programmable rasterization API:
//! shaders and programs, vertex and index buffers, vertex arrays and 2D
//! textures. The library holds the driver's handles as plain integers and
//! decides what each driver outcome means; the driver calls themselves are
//! made by the caller, in the order the staged contexts hand out.

pub mod shader;
pub mod shape;
pub mod texture;
pub mod vertex;
