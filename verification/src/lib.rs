//! Integer, text and structural logic of a small software renderer and
//! its render endpoint:
//!
//! - `types`: the skin models, the load error and resize dimensions;
//! - `request`: which uploads are accepted and the image settings a render
//!   request resolves to;
//! - `obj`: number tokens and line kinds of OBJ mesh text, and triangle
//!   assembly from face indices;
//! - `clip`: which case of clipping a triangle against a plane applies, and
//!   clipping in stages against several planes;
//! - `raster`: corner ordering and the rows a triangle is filled on;
//! - `naming`: file names of saved images;
//! - `text`: decimal text and the std text functions used above.

pub mod clip;
pub mod naming;
pub mod obj;
pub mod raster;
pub mod request;
pub mod text;
pub mod types;
